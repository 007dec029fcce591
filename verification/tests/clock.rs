use argonath::clock::{expires_at, MAX_SPAN_SECONDS};

#[test]
fn expiry_is_the_lifetime_after_now() {
    assert_eq!(expires_at(100, 10), Some(110));
    assert_eq!(expires_at(1_700_000_000, 28_800), Some(1_700_028_800));
    assert_eq!(expires_at(0, 0), Some(0));
    assert_eq!(expires_at(100, -100), Some(0));
    assert_eq!(expires_at(-86_400, 86_400), Some(0));
    assert_eq!(expires_at(0, -1), Some(-1));
}

#[test]
fn lifetime_beyond_the_longest_span_has_no_expiry() {
    assert_eq!(MAX_SPAN_SECONDS, i64::MAX / 1_000);
    assert_eq!(expires_at(0, MAX_SPAN_SECONDS + 1), None);
    assert_eq!(expires_at(0, -MAX_SPAN_SECONDS - 1), None);
    assert_eq!(expires_at(0, i64::MAX), None);
    assert_eq!(expires_at(0, i64::MIN), None);
}

#[test]
fn expiry_beyond_the_calendar_is_none() {
    assert_eq!(expires_at(0, MAX_SPAN_SECONDS), None);
    assert_eq!(expires_at(0, -MAX_SPAN_SECONDS), None);
    assert_eq!(expires_at(i64::MAX, 0), None);
    assert_eq!(expires_at(i64::MIN, 0), None);
    assert_eq!(expires_at(8_210_266_876_799, 1), None);
}

#[test]
fn expiry_at_the_end_of_the_calendar_is_kept() {
    assert_eq!(expires_at(8_210_266_876_798, 1), Some(8_210_266_876_799));
    assert_eq!(expires_at(0, 8_210_266_876_799), Some(8_210_266_876_799));
}
