//! The push message that tells subscribers of one station about its new
//! status, and the retry policy for delivering it.

use crate::station::StationStatus;
use vstd::arithmetic::power::pow;
use vstd::prelude::*;
use vstd::string::StringExecFns;

verus! {

/// The messaging project that every message is sent to.
pub open spec fn parent_text() -> Seq<char> {
    "projects/bix-brother"@
}

/// What every topic name starts with; the station's external id follows.
pub open spec fn topic_prefix() -> Seq<char> {
    "v1status_"@
}

/// How long the push service keeps an undelivered message: one hour.
pub const TTL_SECONDS: i64 = 3600;

/// The character for one hexadecimal digit, in lower case.
pub open spec fn hex_digit(value: int) -> char
    recommends
        0 <= value < 16,
{
    seq!['0', '1', '2', '3', '4', '5', '6', '7', '8', '9', 'a', 'b', 'c', 'd', 'e', 'f'][value]
}

/// The `k`-th hexadecimal digit of a 128-bit number, counted from the most
/// significant one.
pub open spec fn nibble(id: u128, k: int) -> int
    recommends
        0 <= k < 32,
{
    (id as int / pow(16, (31 - k) as nat)) % 16
}

/// How many hyphens stand before position `i` of a hyphenated UUID.
pub open spec fn hyphens_before(i: int) -> int {
    if i < 8 {
        0
    } else if i < 13 {
        1
    } else if i < 18 {
        2
    } else if i < 23 {
        3
    } else {
        4
    }
}

/// The usual text of a UUID: its 32 hexadecimal digits in lower case, most
/// significant first, in groups of 8, 4, 4, 4 and 12 with hyphens between.
pub open spec fn hyphenated(id: u128) -> Seq<char> {
    Seq::new(
        36,
        |i: int|
            if i == 8 || i == 13 || i == 18 || i == 23 {
                '-'
            } else {
                hex_digit(nibble(id, i - hyphens_before(i)))
            },
    )
}

/// The character for one decimal digit.
pub open spec fn decimal_digit(value: int) -> char
    recommends
        0 <= value < 10,
{
    seq!['0', '1', '2', '3', '4', '5', '6', '7', '8', '9'][value]
}

/// A natural number in decimal, without leading zeros.
pub open spec fn decimal(value: nat) -> Seq<char>
    decreases value,
{
    if value < 10 {
        seq![decimal_digit(value as int)]
    } else {
        decimal(value / 10).push(decimal_digit((value % 10) as int))
    }
}

/// An integer in decimal, with a minus sign where it is negative.
pub open spec fn signed_decimal(value: int) -> Seq<char> {
    if value < 0 {
        seq!['-'] + decimal((-value) as nat)
    } else {
        decimal(value as nat)
    }
}

/// Calls `uuid::Uuid::from_u128` and then `to_string` on the result.
///
/// Trusted: the text is the hyphenated lower-case form of the UUID whose
/// sixteen bytes are `id`, most significant first.
#[verifier::external_body]
fn uuid_text(id: u128) -> (text: String)
    ensures
        text@ == hyphenated(id),
{
    uuid::Uuid::from_u128(id).to_string()
}

/// The text of one decimal digit.
fn digit_text(digit: u64) -> (text: &'static str)
    requires
        digit < 10,
    ensures
        text@ == seq![decimal_digit(digit as int)],
{
    proof {
        reveal_strlit("0");
        reveal_strlit("1");
        reveal_strlit("2");
        reveal_strlit("3");
        reveal_strlit("4");
        reveal_strlit("5");
        reveal_strlit("6");
        reveal_strlit("7");
        reveal_strlit("8");
        reveal_strlit("9");
    }
    if digit == 0 {
        "0"
    } else if digit == 1 {
        "1"
    } else if digit == 2 {
        "2"
    } else if digit == 3 {
        "3"
    } else if digit == 4 {
        "4"
    } else if digit == 5 {
        "5"
    } else if digit == 6 {
        "6"
    } else if digit == 7 {
        "7"
    } else if digit == 8 {
        "8"
    } else {
        "9"
    }
}

/// Writes a natural number in decimal.
fn natural_text(value: u64) -> (text: String)
    ensures
        text@ == decimal(value as nat),
    decreases value,
{
    if value < 10 {
        String::from_str(digit_text(value))
    } else {
        let mut text = natural_text(value / 10);
        text.append(digit_text(value % 10));
        text
    }
}

/// Writes an integer in decimal, as the payload of a message carries its
/// numbers.
fn decimal_text(value: i64) -> (text: String)
    ensures
        text@ == signed_decimal(value as int),
{
    if value < 0 {
        let magnitude: u64 = if value == i64::MIN {
            9223372036854775808
        } else {
            (-value) as u64
        };
        let mut text = String::from_str("-");
        proof {
            reveal_strlit("-");
        }
        text.append(natural_text(magnitude).as_str());
        text
    } else {
        natural_text(value as u64)
    }
}

/// One message to the push service.
///
/// `data` lists the payload's fields in the order in which they were set;
/// each field is a pair of key and value.
#[derive(Clone, Debug, PartialEq, Eq)]
pub struct PushMessage {
    pub parent: String,
    pub topic: String,
    pub data: Vec<(String, String)>,
    pub collapse_key: String,
    pub ttl_seconds: i64,
}

/// A `PushMessage` with its texts as sequences of characters.
pub struct PushMessageView {
    pub parent: Seq<char>,
    pub topic: Seq<char>,
    pub data: Seq<(Seq<char>, Seq<char>)>,
    pub collapse_key: Seq<char>,
    pub ttl_seconds: i64,
}

impl View for PushMessage {
    type V = PushMessageView;

    open spec fn view(&self) -> PushMessageView {
        PushMessageView {
            parent: self.parent@,
            topic: self.topic@,
            data: Seq::new(self.data@.len(), |i: int| (self.data@[i].0@, self.data@[i].1@)),
            collapse_key: self.collapse_key@,
            ttl_seconds: self.ttl_seconds,
        }
    }
}

/// The message that announces `status` for the station with `external_id`,
/// observed at `now` (seconds since the epoch).
///
/// It goes to the station's own topic and carries the external id, the three
/// counts and the time, all as text. Messages for one station replace each
/// other on a device: the collapse key is the external id.
pub open spec fn message_for(
    external_id: u128,
    status: StationStatus,
    now: i64,
) -> PushMessageView {
    PushMessageView {
        parent: parent_text(),
        topic: topic_prefix() + hyphenated(external_id),
        data: seq![
            ("i"@, hyphenated(external_id)),
            ("b"@, signed_decimal(status.num_bikes_available as int)),
            ("e"@, signed_decimal(status.num_ebikes_available as int)),
            ("a"@, signed_decimal(status.num_docks_available as int)),
            ("u"@, signed_decimal(now as int)),
        ],
        collapse_key: hyphenated(external_id),
        ttl_seconds: TTL_SECONDS,
    }
}

/// Builds the message that announces a station's new status.
pub fn push_message(external_id: u128, status: StationStatus, now: i64) -> (message: PushMessage)
    ensures
        message@ == message_for(external_id, status, now),
{
    let id_text = uuid_text(external_id);
    let mut topic = String::from_str("v1status_");
    topic.append(id_text.as_str());
    let mut data: Vec<(String, String)> = Vec::new();
    data.push((String::from_str("i"), id_text.clone()));
    data.push((String::from_str("b"), decimal_text(status.num_bikes_available as i64)));
    data.push((String::from_str("e"), decimal_text(status.num_ebikes_available as i64)));
    data.push((String::from_str("a"), decimal_text(status.num_docks_available as i64)));
    data.push((String::from_str("u"), decimal_text(now)));
    let message = PushMessage {
        parent: String::from_str("projects/bix-brother"),
        topic,
        data,
        collapse_key: id_text,
        ttl_seconds: TTL_SECONDS,
    };
    assert(message@.data =~= message_for(external_id, status, now).data);
    message
}

/// What the push service's client reports of an attempt that failed: that
/// the service refused the request, with the numeric code of its answer if it
/// holds one, or anything else.
#[derive(Clone, Copy, Debug, PartialEq, Eq)]
pub enum PushFailure {
    BadRequest { code: Option<i64> },
    Other,
}

/// How one attempt to deliver a message ended.
#[derive(Clone, Copy, Debug, PartialEq, Eq, Structural)]
pub enum Attempt {
    Delivered,
    Transient,
    Permanent,
}

/// What to do after an attempt.
#[derive(Clone, Copy, Debug, PartialEq, Eq, Structural)]
pub enum Verdict {
    /// The message is delivered.
    Done,
    /// Wait this long, then try again.
    RetryAfter { seconds: u64 },
    /// The message will not be delivered: hand the failure on.
    GiveUp,
}

/// The code with which the push service reports a failure on its own side.
pub const SERVER_ERROR: i64 = 500;

/// The longest pause after which another attempt is still made.
pub const BACKOFF_LIMIT: usize = 300;

/// A failure is worth another attempt exactly when the service refused the
/// request with the code of a failure on its own side.
pub open spec fn is_transient(failure: PushFailure) -> bool {
    failure == (PushFailure::BadRequest { code: Some(SERVER_ERROR) })
}

/// Tells a failure that is worth another attempt from one that is not.
pub fn classify(failure: &PushFailure) -> (attempt: Attempt)
    ensures
        attempt == if is_transient(*failure) {
            Attempt::Transient
        } else {
            Attempt::Permanent
        },
{
    match failure {
        PushFailure::BadRequest { code: Some(code) } => {
            if *code == SERVER_ERROR {
                Attempt::Transient
            } else {
                Attempt::Permanent
            }
        },
        _ => Attempt::Permanent,
    }
}

/// What follows an attempt that ended in `outcome` while the pause stood at
/// `seconds`.
pub open spec fn verdict_of(seconds: nat, outcome: Attempt) -> Verdict {
    match outcome {
        Attempt::Delivered => Verdict::Done,
        Attempt::Permanent => Verdict::GiveUp,
        Attempt::Transient => if seconds > BACKOFF_LIMIT {
            Verdict::GiveUp
        } else {
            Verdict::RetryAfter { seconds: seconds as u64 }
        },
    }
}

/// The pause after an attempt that ended in `outcome` while the pause stood
/// at `seconds`: twice as long where the attempt is retried, else unchanged.
pub open spec fn pause_after(seconds: nat, outcome: Attempt) -> nat {
    if outcome == Attempt::Transient && seconds <= BACKOFF_LIMIT {
        2 * seconds
    } else {
        seconds
    }
}

/// The retry state of one message: the pause before the next retry.
pub struct Backoff {
    seconds: usize,
}

impl View for Backoff {
    type V = nat;

    /// The pause before the next retry, in seconds.
    closed spec fn view(&self) -> nat {
        self.seconds as nat
    }
}

impl Backoff {
    /// The state before the first attempt: the first pause is one second.
    pub fn new() -> (backoff: Self)
        ensures
            backoff@ == 1,
    {
        Self { seconds: 1 }
    }

    /// Takes the outcome of an attempt and says what to do next.
    pub fn on_attempt(&mut self, outcome: Attempt) -> (verdict: Verdict)
        ensures
            verdict == verdict_of(old(self)@, outcome),
            final(self)@ == pause_after(old(self)@, outcome),
    {
        match outcome {
            Attempt::Delivered => Verdict::Done,
            Attempt::Permanent => Verdict::GiveUp,
            Attempt::Transient => {
                if self.seconds > BACKOFF_LIMIT {
                    Verdict::GiveUp
                } else {
                    let seconds: u64 = self.seconds as u64;
                    self.seconds = self.seconds * 2;
                    Verdict::RetryAfter { seconds }
                }
            },
        }
    }
}

/// The course of one delivery: how many attempts were made, the pauses
/// between them in seconds, and whether the message was delivered.
pub struct Delivery {
    pub attempts: nat,
    pub sleeps: Seq<nat>,
    pub delivered: bool,
}

/// The course of a delivery that starts with the pause at `seconds` and
/// whose attempts end as `outcomes` say, one after the other. `None` where
/// the outcomes run out before the delivery has ended.
pub open spec fn deliver(seconds: nat, outcomes: Seq<Attempt>) -> Option<Delivery>
    decreases outcomes.len(),
{
    if outcomes.len() == 0 {
        None
    } else {
        match verdict_of(seconds, outcomes[0]) {
            Verdict::Done => Some(Delivery { attempts: 1, sleeps: Seq::empty(), delivered: true }),
            Verdict::GiveUp => Some(
                Delivery { attempts: 1, sleeps: Seq::empty(), delivered: false },
            ),
            Verdict::RetryAfter { seconds: pause } => match deliver(
                pause_after(seconds, outcomes[0]),
                outcomes.skip(1),
            ) {
                Some(rest) => Some(
                    Delivery {
                        attempts: rest.attempts + 1,
                        sleeps: seq![pause as nat] + rest.sleeps,
                        delivered: rest.delivered,
                    },
                ),
                None => None,
            },
        }
    }
}

/// Two to the power of `n`.
pub open spec fn two_to(n: nat) -> nat
    decreases n,
{
    if n == 0 {
        1
    } else {
        2 * two_to((n - 1) as nat)
    }
}

/// The pauses `2^from, 2^(from + 1), ...`, `count` of them.
pub open spec fn doubling(from: nat, count: nat) -> Seq<nat> {
    Seq::new(count, |i: int| two_to((from + i) as nat))
}

/// `failures` transient failures, then a success.
pub open spec fn failures_then_success(failures: nat) -> Seq<Attempt> {
    Seq::new(failures, |i: int| Attempt::Transient).push(Attempt::Delivered)
}

/// The schedule of a delivery whose pause has been doubled `doublings` times
/// already.
proof fn lemma_schedule_from(doublings: nat, failures: nat)
    requires
        doublings <= 9,
    ensures
        deliver(two_to(doublings), failures_then_success(failures)) == Some(
            if doublings + failures <= 9 {
                Delivery {
                    attempts: failures + 1,
                    sleeps: doubling(doublings, failures),
                    delivered: true,
                }
            } else {
                Delivery {
                    attempts: (10 - doublings) as nat,
                    sleeps: doubling(doublings, (9 - doublings) as nat),
                    delivered: false,
                }
            },
        ),
    decreases failures,
{
    reveal_with_fuel(two_to, 10);
    let outcomes = failures_then_success(failures);
    let seconds = two_to(doublings);
    if failures == 0 {
        assert(doubling(doublings, 0) =~= Seq::empty());
    } else if doublings == 9 {
        assert(doubling(9, 0) =~= Seq::empty());
    } else {
        assert(outcomes.skip(1) =~= failures_then_success((failures - 1) as nat));
        lemma_schedule_from(doublings + 1, (failures - 1) as nat);
        if doublings + failures <= 9 {
            assert(seq![seconds] + doubling(doublings + 1, (failures - 1) as nat) =~= doubling(
                doublings,
                failures,
            ));
        } else {
            assert(seq![seconds] + doubling(doublings + 1, (8 - doublings) as nat) =~= doubling(
                doublings,
                (9 - doublings) as nat,
            ));
        }
    }
}

/// A message whose first `failures` attempts fail transiently and whose next
/// attempt succeeds is delivered after `failures + 1` attempts, with pauses of
/// 1, 2, 4, ... seconds between them, as long as there are at most nine
/// failures. The tenth failure in a row finds the pause at 512 seconds, which
/// is over the limit: the delivery is given up after ten attempts and the
/// nine pauses from 1 to 256 seconds.
pub proof fn lemma_retry_schedule(failures: nat)
    ensures
        deliver(1, failures_then_success(failures)) == Some(
            if failures <= 9 {
                Delivery { attempts: failures + 1, sleeps: doubling(0, failures), delivered: true }
            } else {
                Delivery { attempts: 10, sleeps: doubling(0, 9), delivered: false }
            },
        ),
{
    lemma_schedule_from(0, failures);
}

} // verus!
