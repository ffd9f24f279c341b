use newsletter_intake::domain::{is_valid_email, is_valid_name, parse_email, parse_name, ValidationError};

#[test]
fn empty_and_whitespace_only_names_are_rejected() {
    assert!(!is_valid_name(""));
    assert!(!is_valid_name(" "));
    assert!(!is_valid_name("   \t\n  "));
    assert!(!is_valid_name("\u{a0}\u{2003}"));
}

#[test]
fn a_256_grapheme_long_name_is_valid() {
    let name = "a".repeat(256);
    assert!(is_valid_name(&name));
}

#[test]
fn a_name_longer_than_256_graphemes_is_rejected() {
    let name = "a".repeat(257);
    assert!(!is_valid_name(&name));
}

#[test]
fn length_is_counted_in_graphemes_not_code_points() {
    // 256 copies of e + combining acute accent: 512 code points but only
    // 256 user-perceived characters, so the name is within the limit.
    let name = "e\u{301}".repeat(256);
    assert_eq!(name.chars().count(), 512);
    assert!(is_valid_name(&name));
    let long = "e\u{301}".repeat(257);
    assert!(!is_valid_name(&long));
}

#[test]
fn names_containing_a_forbidden_character_are_rejected() {
    for c in ['/', '(', ')', '"', '<', '>', '\\', '{', '}'] {
        let at_start = format!("{}Ursula", c);
        let in_middle = format!("Urs{}ula", c);
        let at_end = format!("Ursula{}", c);
        assert!(!is_valid_name(&at_start));
        assert!(!is_valid_name(&in_middle));
        assert!(!is_valid_name(&at_end));
    }
}

#[test]
fn ordinary_names_are_accepted() {
    assert!(is_valid_name("le guin"));
    assert!(is_valid_name("Ursula"));
    assert!(is_valid_name("Ursula K. Le Guin"));
}

#[test]
fn parse_name_reports_an_invalid_name() {
    assert_eq!(parse_name(String::from("")).unwrap_err(), ValidationError::InvalidName);
    assert_eq!(parse_name(String::from("(name)")).unwrap_err(), ValidationError::InvalidName);
    assert!(parse_name(String::from("le guin")).is_ok());
}

#[test]
fn parse_name_keeps_the_string_unchanged() {
    let name = parse_name(String::from("le guin")).unwrap();
    assert_eq!(name.as_str(), "le guin");
}

#[test]
fn the_empty_string_is_not_a_valid_email() {
    assert!(!is_valid_email(""));
}

#[test]
fn strings_without_an_at_delimited_structure_are_rejected() {
    assert!(!is_valid_email("definitely-not-an-email"));
    assert!(!is_valid_email("ursula_le_guin.gmail.com"));
    assert!(!is_valid_email("@gmail.com"));
    assert!(!is_valid_email("ursula@"));
    assert!(!is_valid_email("ursula@@gmail.com"));
    assert!(!is_valid_email("ursula@gmail..com"));
    assert!(!is_valid_email("ursula@.gmail.com"));
    assert!(!is_valid_email("ursula@gmail.com."));
    assert!(!is_valid_email("ursula le guin@gmail.com"));
}

#[test]
fn ordinary_addresses_are_accepted() {
    assert!(is_valid_email("ursula_le_guin@gmail.com"));
    assert!(is_valid_email("a@b.c"));
    assert!(is_valid_email("first.last+tag@sub.example-host.org"));
}

#[test]
fn parse_email_reports_an_invalid_email() {
    assert_eq!(
        parse_email(String::from("definitely-not-an-email")).unwrap_err(),
        ValidationError::InvalidEmail
    );
    assert_eq!(parse_email(String::from("")).unwrap_err(), ValidationError::InvalidEmail);
    assert!(parse_email(String::from("ursula_le_guin@gmail.com")).is_ok());
}

#[test]
fn parse_email_keeps_the_string_unchanged() {
    let email = parse_email(String::from("ursula_le_guin@gmail.com")).unwrap();
    assert_eq!(email.as_str(), "ursula_le_guin@gmail.com");
}

#[test]
fn new_subscriber_round_trips_name_and_email() {
    let form = newsletter_intake::intake::FormData {
        email: String::from("ursula_le_guin@gmail.com"),
        name: String::from("le guin"),
    };
    let subscriber = form.try_into().unwrap();
    assert_eq!(subscriber.name.as_str(), "le guin");
    assert_eq!(subscriber.email.as_str(), "ursula_le_guin@gmail.com");
}

#[test]
fn conversion_reports_the_first_failing_field() {
    let bad_name = newsletter_intake::intake::FormData {
        email: String::from("ursula_le_guin@gmail.com"),
        name: String::from(""),
    };
    assert_eq!(bad_name.try_into().unwrap_err(), ValidationError::InvalidName);
    let bad_email = newsletter_intake::intake::FormData {
        email: String::from("definitely-not-an-email"),
        name: String::from("Ursula"),
    };
    assert_eq!(bad_email.try_into().unwrap_err(), ValidationError::InvalidEmail);
    let both_bad = newsletter_intake::intake::FormData {
        email: String::from(""),
        name: String::from(""),
    };
    assert_eq!(both_bad.try_into().unwrap_err(), ValidationError::InvalidName);
}
