use teamder::api::mailer::{code_email_html, code_email_text};
use teamder::clock::{format_utc_date, format_utc_display, millis_checked, parse_rfc3339_millis, stored_date_to_millis, StoredDate};

#[test]
fn stored_millis_are_read_as_they_are() {
    assert_eq!(stored_date_to_millis(StoredDate::Millis(1_714_564_800_000)), Ok(1_714_564_800_000));
    assert_eq!(millis_checked(0), Ok(0));
}

#[test]
fn stored_millis_out_of_chrono_range_are_refused() {
    let r = millis_checked(i64::MAX);
    assert_eq!(r, Err("invalid millisecond timestamp".to_string()));
}

#[test]
fn stored_number_long_text_is_parsed() {
    assert_eq!(stored_date_to_millis(StoredDate::NumberLong("1714564800000".to_string())), Ok(1_714_564_800_000));
    assert!(stored_date_to_millis(StoredDate::NumberLong("12ab".to_string())).is_err());
}

#[test]
fn stored_rfc3339_text_is_parsed() {
    assert_eq!(stored_date_to_millis(StoredDate::Text("2024-05-01T12:00:00Z".to_string())), Ok(1_714_564_800_000));
    assert_eq!(parse_rfc3339_millis("2024-05-01T14:00:00.250+02:00"), Ok(1_714_564_800_250));
    assert!(parse_rfc3339_millis("yesterday").is_err());
}

#[test]
fn utc_formats() {
    assert_eq!(format_utc_date(1_714_564_800_000), "2024-05-01");
    assert_eq!(format_utc_display(1_714_564_800_000), "2024-05-01 12:00:00 UTC");
}

#[test]
fn code_email_bodies() {
    let text = code_email_text("123456", "verify your email", "http://x/verify");
    assert_eq!(
        text,
        "Your Teamder verification code is: 123456\n\nIt expires in 10 minutes. Enter it to verify your email.\n\nOr open this link: http://x/verify\n\nIf you didn't request this, you can ignore this email."
    );
    let html = code_email_html("123456", "sign in", "http://x/verify");
    assert!(html.contains("Your verification code to sign in:</p>"));
    assert!(html.contains(">123456</p>"));
    assert!(html.contains("<a href=\"http://x/verify\""));
}
