use teamder::api::auth::{claims_at, floor_seconds, TOKEN_VALID_DAYS, SECONDS_PER_DAY};
use teamder::api::mailer::{app_base_url, mail_action, smtp_settings, trim_trailing_slashes, urlencode, verify_link};
use teamder::api::routes::auth::{
    code_for, generate_code, is_valid_email, normalize_email, placeholder_name, register_domain_allowed,
    register_domain_from,
};
use teamder::clock::utc_day_index;
use teamder::text::{
    decimal_string, eq_ignore_ascii_case, find_last_occurrence, pad_zeros, render_digits,
};

#[test]
fn urlencode_keeps_unreserved_and_escapes_the_rest() {
    assert_eq!(urlencode("abc-XYZ_0.9~"), "abc-XYZ_0.9~");
    assert_eq!(urlencode("a@b.c"), "a%40b.c");
    assert_eq!(urlencode("a+b c"), "a%2Bb%20c");
    assert_eq!(urlencode("\u{e9}"), "%E9");
    assert_eq!(urlencode(""), "");
}

#[test]
fn trailing_slashes_are_trimmed() {
    assert_eq!(trim_trailing_slashes("http://x///"), "http://x");
    assert_eq!(trim_trailing_slashes("///"), "");
    assert_eq!(trim_trailing_slashes("a/b"), "a/b");
}

#[test]
fn verification_link_format() {
    assert_eq!(
        verify_link("http://localhost:3000/", "me@x.io", "012345", "login"),
        "http://localhost:3000/verify?email=me%40x.io&code=012345&purpose=login"
    );
}

#[test]
fn mail_actions_by_purpose() {
    assert_eq!(mail_action("register"), "complete your Teamder sign-up");
    assert_eq!(mail_action("delete"), "confirm deleting your Teamder account");
    assert_eq!(mail_action("login"), "sign in to Teamder");
}

#[test]
fn smtp_settings_defaults_and_dev_mode() {
    assert!(smtp_settings(None, None, None, None, None).is_none());
    assert!(smtp_settings(Some("   "), None, None, None, None).is_none());
    let s = smtp_settings(Some("smtp.x"), None, Some("me"), Some("pw"), None).unwrap();
    assert_eq!(s.host, "smtp.x");
    assert_eq!(s.port, 587);
    assert_eq!(s.from, "me");
    assert!(!s.implicit_tls);
    let t = smtp_settings(Some("smtp.x"), Some("465"), None, None, Some("bot@x")).unwrap();
    assert_eq!(t.port, 465);
    assert!(t.implicit_tls);
    assert_eq!(t.username, "");
    assert_eq!(t.from, "bot@x");
    let u = smtp_settings(Some("smtp.x"), Some("not a port"), None, None, None).unwrap();
    assert_eq!(u.port, 587);
    assert_eq!(app_base_url(None), "http://localhost:3000");
    assert_eq!(app_base_url(Some("https://t.io")), "https://t.io");
}

#[test]
fn email_validity() {
    assert!(is_valid_email("a@b.co"));
    assert!(!is_valid_email("ab.co"));
    assert!(!is_valid_email("@b.co"));
    assert!(!is_valid_email("a@@b.co"));
    assert!(!is_valid_email("a@bco"));
    assert!(!is_valid_email("a@.bco"));
    assert!(!is_valid_email("a@bco."));
}

#[test]
fn register_domains() {
    let fju = Some("cloud.fju.edu.tw".to_string());
    assert!(register_domain_allowed("s1@cloud.fju.edu.tw", &fju));
    assert!(!register_domain_allowed("s1@gmail.com", &fju));
    assert!(register_domain_allowed("anyone@gmail.com", &None));
    assert_eq!(register_domain_from(None), Some("cloud.fju.edu.tw".to_string()));
    assert_eq!(register_domain_from(Some("  *  ")), None);
    assert_eq!(register_domain_from(Some("  ")), None);
    assert_eq!(register_domain_from(Some(" Example.COM ")), Some("example.com".to_string()));
}

#[test]
fn emails_are_normalized() {
    assert_eq!(normalize_email("  Me@Example.COM "), "me@example.com");
    assert_eq!(placeholder_name("jane.doe@x.io"), "jane.doe");
    assert_eq!(placeholder_name("nobody"), "nobody");
}

#[test]
fn codes_have_six_digits() {
    assert_eq!(code_for(42), "000042");
    assert_eq!(code_for(1_234_567), "234567");
    let c = generate_code();
    assert_eq!(c.len(), 6);
    assert!(c.chars().all(|ch| ch.is_ascii_digit()));
}

#[test]
fn digits_and_padding() {
    assert_eq!(decimal_string(0), "0");
    assert_eq!(decimal_string(1234), "1234");
    assert_eq!(render_digits(255, 16), "FF");
    assert_eq!(pad_zeros("7", 3), "007");
    assert_eq!(pad_zeros("1234", 3), "1234");

}

#[test]
fn ascii_case_insensitive_equality() {
    assert!(eq_ignore_ascii_case("ReAct", "react"));
    assert!(!eq_ignore_ascii_case("react", "reacts"));
    assert!(!eq_ignore_ascii_case("\u{c9}", "\u{e9}"));
}

#[test]
fn last_occurrence_of_a_pattern() {
    let s: Vec<char> = "a</x>b</x>c".chars().collect();
    let t: Vec<char> = "</x>".chars().collect();
    assert_eq!(find_last_occurrence(&s, &t), Some(6));
    let none: Vec<char> = "zz".chars().collect();
    assert_eq!(find_last_occurrence(&none, &t), None);
    assert_eq!(find_last_occurrence(&none, &[]), Some(2));
}

#[test]
fn days_and_seconds_round_down() {
    assert_eq!(utc_day_index(0), 0);
    assert_eq!(utc_day_index(86_399_999), 0);
    assert_eq!(utc_day_index(86_400_000), 1);
    assert_eq!(utc_day_index(-1), -1);
    assert_eq!(floor_seconds(1999), 1);
    assert_eq!(floor_seconds(-1), -1);
    assert_eq!(floor_seconds(-1000), -1);
}

#[test]
fn token_claims_last_thirty_days() {
    let c = claims_at("u1", "a@b.c", true, 1_700_000_000_500);
    assert_eq!(c.sub, "u1");
    assert!(c.is_admin);
    assert_eq!(c.iat, 1_700_000_000);
    assert_eq!(c.exp, 1_700_000_000 + TOKEN_VALID_DAYS * SECONDS_PER_DAY);
}
