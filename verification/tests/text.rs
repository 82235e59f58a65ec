use cosmic_ext_applet_spotify::text::{fmt_duration, joined, numeral_text, same_text, truncate};

#[test]
fn durations_show_minutes_and_seconds() {
    assert_eq!(fmt_duration(0), "0:00");
    assert_eq!(fmt_duration(999_999), "0:00");
    assert_eq!(fmt_duration(1_000_000), "0:01");
    assert_eq!(fmt_duration(59_999_999), "0:59");
    assert_eq!(fmt_duration(60_000_000), "1:00");
    assert_eq!(fmt_duration(187_000_000), "3:07");
    assert_eq!(fmt_duration(3_600_000_000), "60:00");
}

#[test]
fn negative_durations_show_the_start() {
    assert_eq!(fmt_duration(-1), "0:00");
    assert_eq!(fmt_duration(-5_000_000), "0:00");
    assert_eq!(fmt_duration(i64::MIN), "0:00");
}

#[test]
fn longest_duration_is_shown() {
    assert_eq!(fmt_duration(i64::MAX), "153722867280:54");
}

#[test]
fn durations_look_alike_only_within_a_second() {
    assert_eq!(fmt_duration(61_000_000), fmt_duration(61_999_999));
    assert_ne!(fmt_duration(61_000_000), fmt_duration(62_000_000));
    assert_ne!(fmt_duration(61_000_000), fmt_duration(601_000_000));
}

#[test]
fn short_texts_are_kept() {
    assert_eq!(truncate("Hello", 5), "Hello");
    assert_eq!(truncate("Hello", 40), "Hello");
    assert_eq!(truncate("", 1), "");
}

#[test]
fn no_limit_keeps_everything() {
    let long = "x".repeat(500);
    assert_eq!(truncate(&long, 0), long);
}

#[test]
fn long_texts_end_in_an_ellipsis() {
    assert_eq!(truncate("Hello", 4), "Hel…");
    assert_eq!(truncate("Hello", 1), "…");
    assert_eq!(truncate("äöüß€", 3), "äö…");
}

#[test]
fn truncation_is_idempotent_and_fits() {
    let cut = truncate("The quick brown fox", 8);
    assert_eq!(cut, "The qui…");
    assert_eq!(cut.chars().count(), 8);
    assert_eq!(truncate(&cut, 8), cut);
}

#[test]
fn truncation_to_a_smaller_limit_takes_one_step() {
    let text = "The quick brown fox";
    assert_eq!(truncate(&truncate(text, 10), 5), truncate(text, 5));
    assert_eq!(truncate(&truncate(text, 10), 5), "The …");
    assert_eq!(truncate(&truncate(text, 40), 1), "…");
}

#[test]
fn numerals_in_ten_and_sixteen() {
    assert_eq!(numeral_text(0, 10), "0");
    assert_eq!(numeral_text(1234567890, 10), "1234567890");
    assert_eq!(numeral_text(u64::MAX, 10), u64::MAX.to_string());
    assert_eq!(numeral_text(0xdead_beef, 16), "deadbeef");
    assert_eq!(numeral_text(u64::MAX, 16), format!("{:x}", u64::MAX));
    assert_ne!(numeral_text(16, 16), numeral_text(1, 16));
}

#[test]
fn texts_compare_and_join() {
    assert!(same_text("spotify", "spotify"));
    assert!(!same_text("spotify", "Spotify"));
    assert_eq!(joined("a – ", "b"), "a – b");
}
