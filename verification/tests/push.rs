use bikeshare_server::fcm::{
    classify, push_message, Attempt, Backoff, PushFailure, PushMessage, Verdict, BACKOFF_LIMIT,
    SERVER_ERROR, TTL_SECONDS,
};
use bikeshare_server::station::StationStatus;

fn status(bikes: u16, ebikes: u16, docks: u16) -> StationStatus {
    StationStatus { num_bikes_available: bikes, num_ebikes_available: ebikes, num_docks_available: docks }
}

fn pair(key: &str, value: &str) -> (String, String) {
    (key.to_string(), value.to_string())
}

#[test]
fn push_message_has_topic_payload_collapse_key_and_ttl() {
    let id: u128 = 0x67e55044_10b1_426f_9247_bb680e5fe0c8;
    let message = push_message(id, status(3, 12, 0), 1_718_000_000);
    assert_eq!(
        message,
        PushMessage {
            parent: "projects/bix-brother".to_string(),
            topic: "v1status_67e55044-10b1-426f-9247-bb680e5fe0c8".to_string(),
            data: vec![
                pair("i", "67e55044-10b1-426f-9247-bb680e5fe0c8"),
                pair("b", "3"),
                pair("e", "12"),
                pair("a", "0"),
                pair("u", "1718000000"),
            ],
            collapse_key: "67e55044-10b1-426f-9247-bb680e5fe0c8".to_string(),
            ttl_seconds: 3600,
        }
    );
    assert_eq!(TTL_SECONDS, 3600);
}

#[test]
fn external_id_is_written_as_a_hyphenated_lower_case_uuid() {
    let nil = push_message(0, status(0, 0, 0), 0);
    assert_eq!(nil.collapse_key, "00000000-0000-0000-0000-000000000000");
    assert_eq!(nil.topic, "v1status_00000000-0000-0000-0000-000000000000");
    let max = push_message(u128::MAX, status(0, 0, 0), 0);
    assert_eq!(max.collapse_key, "ffffffff-ffff-ffff-ffff-ffffffffffff");
    let mixed = push_message(0x0123_4567_89AB_CDEF_FEDC_BA98_7654_3210, status(0, 0, 0), 0);
    assert_eq!(mixed.collapse_key, "01234567-89ab-cdef-fedc-ba9876543210");
    assert_eq!(mixed.data[0], pair("i", "01234567-89ab-cdef-fedc-ba9876543210"));
    let one = push_message(1, status(0, 0, 0), 0);
    assert_eq!(one.collapse_key, "00000000-0000-0000-0000-000000000001");
}

#[test]
fn external_id_text_is_what_the_uuid_parses_back_to() {
    for id in [0u128, 1, 0xa1, u128::MAX, 0x67e55044_10b1_426f_9247_bb680e5fe0c8, 1 << 127] {
        let message = push_message(id, status(0, 0, 0), 0);
        let parsed = uuid::Uuid::parse_str(&message.collapse_key).unwrap();
        assert_eq!(parsed.as_u128(), id);
        assert_eq!(message.collapse_key.len(), 36);
    }
}

#[test]
fn counts_and_time_are_written_in_decimal() {
    let message = push_message(7, status(u16::MAX, 10, 100), -1);
    assert_eq!(message.data[1], pair("b", "65535"));
    assert_eq!(message.data[2], pair("e", "10"));
    assert_eq!(message.data[3], pair("a", "100"));
    assert_eq!(message.data[4], pair("u", "-1"));
    assert_eq!(push_message(7, status(0, 0, 0), i64::MAX).data[4], pair("u", "9223372036854775807"));
    assert_eq!(push_message(7, status(0, 0, 0), i64::MIN).data[4], pair("u", "-9223372036854775808"));
    assert_eq!(push_message(7, status(0, 0, 0), 0).data[4], pair("u", "0"));
}

#[test]
fn only_a_refusal_with_the_server_error_code_is_transient() {
    assert_eq!(SERVER_ERROR, 500);
    assert_eq!(classify(&PushFailure::BadRequest { code: Some(500) }), Attempt::Transient);
    assert_eq!(classify(&PushFailure::BadRequest { code: Some(400) }), Attempt::Permanent);
    assert_eq!(classify(&PushFailure::BadRequest { code: Some(503) }), Attempt::Permanent);
    assert_eq!(classify(&PushFailure::BadRequest { code: Some(-500) }), Attempt::Permanent);
    assert_eq!(classify(&PushFailure::BadRequest { code: None }), Attempt::Permanent);
    assert_eq!(classify(&PushFailure::Other), Attempt::Permanent);
}

/// Plays `failures` transient failures and then a success against the policy.
fn play(failures: usize) -> (usize, Vec<u64>, bool) {
    let mut backoff = Backoff::new();
    let mut attempts = 0;
    let mut sleeps = Vec::new();
    loop {
        let outcome = if attempts < failures { Attempt::Transient } else { Attempt::Delivered };
        attempts += 1;
        match backoff.on_attempt(outcome) {
            Verdict::Done => return (attempts, sleeps, true),
            Verdict::GiveUp => return (attempts, sleeps, false),
            Verdict::RetryAfter { seconds } => sleeps.push(seconds),
        }
    }
}

#[test]
fn a_first_attempt_that_succeeds_sleeps_never() {
    assert_eq!(play(0), (1, vec![], true));
}

#[test]
fn failures_then_success_doubles_the_pause_each_time() {
    assert_eq!(play(1), (2, vec![1], true));
    assert_eq!(play(3), (4, vec![1, 2, 4], true));
    for failures in 0..=9usize {
        let (attempts, sleeps, delivered) = play(failures);
        assert_eq!(attempts, failures + 1);
        assert!(delivered);
        let expected: Vec<u64> = (0..failures).map(|i| 1u64 << i).collect();
        assert_eq!(sleeps, expected);
    }
    assert_eq!(play(9), (10, vec![1, 2, 4, 8, 16, 32, 64, 128, 256], true));
}

#[test]
fn the_tenth_failure_in_a_row_is_given_up() {
    assert_eq!(BACKOFF_LIMIT, 300);
    for failures in [10usize, 11, 50] {
        assert_eq!(play(failures), (10, vec![1, 2, 4, 8, 16, 32, 64, 128, 256], false));
    }
}

#[test]
fn a_permanent_failure_is_given_up_at_once() {
    let mut backoff = Backoff::new();
    assert_eq!(backoff.on_attempt(Attempt::Permanent), Verdict::GiveUp);
    let mut backoff = Backoff::new();
    assert_eq!(backoff.on_attempt(Attempt::Transient), Verdict::RetryAfter { seconds: 1 });
    assert_eq!(backoff.on_attempt(Attempt::Transient), Verdict::RetryAfter { seconds: 2 });
    assert_eq!(backoff.on_attempt(Attempt::Permanent), Verdict::GiveUp);
}
