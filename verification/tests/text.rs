use conspectus::text::{decimal, truncate_to_date, yes_no};

#[test]
fn truncate_to_date_cuts_at_the_time_separator() {
    assert_eq!(truncate_to_date("2024-01-02T10:00:00Z"), "2024-01-02");
}

#[test]
fn truncate_to_date_cuts_at_the_first_separator_only() {
    assert_eq!(truncate_to_date("2024T01T02"), "2024");
}

#[test]
fn truncate_to_date_keeps_a_text_without_separator() {
    assert_eq!(truncate_to_date("2024-01-02"), "2024-01-02");
    assert_eq!(truncate_to_date("2024-01-02t10:00"), "2024-01-02t10:00");
}

#[test]
fn truncate_to_date_of_nothing_is_nothing() {
    assert_eq!(truncate_to_date(""), "");
}

#[test]
fn truncate_to_date_with_leading_separator_is_empty() {
    assert_eq!(truncate_to_date("T10:00:00Z"), "");
    assert_eq!(truncate_to_date("T"), "");
}

#[test]
fn truncate_to_date_counts_characters_not_bytes() {
    assert_eq!(truncate_to_date("années-Tôt"), "années-");
    assert_eq!(truncate_to_date("日本T語"), "日本");
}

#[test]
fn truncate_to_date_is_idempotent() {
    for text in ["2024-01-02T10:00:00Z", "2024-01-02", "", "T", "aTbTc", "日本T語"] {
        let once = truncate_to_date(text);
        let twice = truncate_to_date(&once);
        assert_eq!(twice, once);
    }
}

#[test]
fn yes_no_words() {
    assert_eq!(yes_no(true), "Yes");
    assert_eq!(yes_no(false), "No");
}

#[test]
fn decimal_of_small_numbers() {
    assert_eq!(decimal(0), "0");
    assert_eq!(decimal(7), "7");
    assert_eq!(decimal(9), "9");
    assert_eq!(decimal(10), "10");
    assert_eq!(decimal(42), "42");
    assert_eq!(decimal(100), "100");
    assert_eq!(decimal(1234567890), "1234567890");
}

#[test]
fn decimal_beyond_sixteen_bits() {
    assert_eq!(decimal(65535), "65535");
    assert_eq!(decimal(65536), "65536");
    assert_eq!(decimal(usize::MAX), format!("{}", usize::MAX));
}
