//! The records of the two GBFS feeds that the service consumes: the one-time
//! station information collection and the periodic station status collection.

use vstd::prelude::*;

verus! {

/// The wrapper that both feeds share around their list of records.
#[derive(Debug)]
pub struct StationCollectionObj<S> {
    pub last_updated: u64,
    pub ttl: u64,
    pub data: StationCollectionDataObj<S>,
}

/// The records of a feed, in feed order.
#[derive(Debug)]
pub struct StationCollectionDataObj<S> {
    pub stations: Vec<S>,
}

/// One record of the station information feed.
///
/// `external_id` is the station's UUID as a 128-bit number, most significant
/// byte first. `lat` and `lon` are the bit patterns of single-precision
/// floats: nothing here computes with coordinates, they are only handed on.
#[derive(Clone, Debug, PartialEq, Eq)]
pub struct StationInfoObj<Str> {
    pub station_id: u16,
    pub external_id: u128,
    pub name: Str,
    pub short_name: Str,
    pub lat: u32,
    pub lon: u32,
    pub capacity: u16,
    pub has_kiosk: bool,
}

/// One record of the station status feed.
#[derive(Clone, Debug, PartialEq, Eq)]
pub struct StationStatusObj {
    pub station_id: u16,
    pub num_bikes_available: u16,
    pub num_ebikes_available: u16,
    pub num_bikes_disabled: u16,
    pub num_docks_available: u16,
    pub num_docks_disabled: u16,
    pub last_reported: u64,
}

/// The ASCII code of the plus sign.
pub const PLUS: u8 = 43;

/// The ASCII code of the digit zero.
pub const ZERO: u8 = 48;

/// The ASCII code of the digit nine.
pub const NINE: u8 = 57;

/// The number that a run of decimal digits stands for.
pub open spec fn digits_value(digits: Seq<u8>) -> nat
    decreases digits.len(),
{
    if digits.len() == 0 {
        0
    } else {
        digits_value(digits.drop_last()) * 10 + (digits.last() - ZERO) as nat
    }
}

/// Whether every byte is an ASCII decimal digit.
pub open spec fn all_digits(digits: Seq<u8>) -> bool {
    forall|i: int| 0 <= i < digits.len() ==> ZERO <= #[trigger] digits[i] <= NINE
}

/// The station id that a text stands for: the text is one or more decimal
/// digits, with or without a plus sign before them, and their value is no
/// more than 65535. Any other text stands for no id.
pub open spec fn station_id_of(text: Seq<u8>) -> Option<u16> {
    let digits = if text.len() > 0 && text[0] == PLUS {
        text.skip(1)
    } else {
        text
    };
    if digits.len() > 0 && all_digits(digits) && digits_value(digits) <= 65535 {
        Some(digits_value(digits) as u16)
    } else {
        None
    }
}

/// Reads a station id, which both feeds give as text.
pub fn parse_station_id(text: &[u8]) -> (id: Option<u16>)
    ensures
        id == station_id_of(text@),
{
    let start: usize = if text.len() > 0 && text[0] == PLUS {
        1
    } else {
        0
    };
    if start == text.len() {
        return None;
    }
    let ghost digits = if text@.len() > 0 && text@[0] == PLUS {
        text@.skip(1)
    } else {
        text@
    };
    let mut value: u32 = 0;
    let mut too_large: bool = false;
    let mut idx: usize = start;
    while idx < text.len()
        invariant
            start <= idx <= text.len(),
            digits == text@.skip(start as int),
            digits == if text@.len() > 0 && text@[0] == PLUS {
                text@.skip(1)
            } else {
                text@
            },
            all_digits(digits.take(idx - start)),
            too_large ==> digits_value(digits.take(idx - start)) > 65535,
            !too_large ==> value == digits_value(digits.take(idx - start)) && value <= 65535,
        decreases text.len() - idx,
    {
        let byte: u8 = text[idx];
        proof {
            let seen = digits.take(idx - start + 1);
            assert(seen.drop_last() =~= digits.take(idx - start));
        }
        if byte < ZERO || byte > NINE {
            assert(digits[idx - start] == byte);
            return None;
        }
        if !too_large {
            value = value * 10 + (byte - ZERO) as u32;
            if value > 65535 {
                too_large = true;
            }
        }
        idx = idx + 1;
    }
    proof {
        assert(digits.take(idx - start) =~= digits);
    }
    if too_large {
        None
    } else {
        Some(value as u16)
    }
}

} // verus!
