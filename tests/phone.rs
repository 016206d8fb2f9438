use twilio_client::Phone;

#[test]
fn empty_string_is_rejected() {
    let phone = "";
    assert!(Phone::parse(phone, "KE").is_err());
}

#[test]
fn number_with_invalid_chars_is_rejected() {
    assert!(Phone::parse("2547ji@89898", "KE").is_err());
}

#[test]
fn number_with_length_not_in_range_is_rejected() {
    let test_cases = vec!["25470234323", "254723435456523"];

    for number in test_cases {
        assert!(Phone::parse(number, "KE").is_err());
    }
}

#[test]
fn empty_string_is_rejected_without_country() {
    assert!(Phone::parse_with_no_country("").is_err());
}

#[test]
fn empty_string_is_rejected_under_any_hint() {
    for hint in ["KE", "US", "GB", "XX", ""] {
        assert!(Phone::parse("", hint).is_err());
    }
}

#[test]
fn national_number_is_normalised_to_e164() {
    let phone = Phone::parse("0700782326", "KE").unwrap();
    assert_eq!(phone.e164_number(), "+254700782326");
    assert_eq!(phone.country_iso(), "KE");
}

#[test]
fn country_hint_is_case_insensitive() {
    let upper = Phone::parse("0700782326", "KE").unwrap();
    let lower = Phone::parse("0700782326", "ke").unwrap();
    assert!(upper == lower);
}

#[test]
fn international_number_parses_without_country() {
    let phone = Phone::parse_with_no_country("+254700123456").unwrap();
    assert_eq!(phone.e164_number(), "+254700123456");
    assert_eq!(phone.country_iso(), "KE");
}

#[test]
fn e164_text_parses_back_to_an_equal_phone() {
    for (number, hint) in [("0700782326", "KE"), ("0700123456", "KE"), ("+254712345678", "KE")] {
        let phone = Phone::parse(number, hint).unwrap();
        let again = Phone::parse_with_no_country(&phone.e164_number()).unwrap();
        assert!(again == phone);
        assert_eq!(again.e164_number(), phone.e164_number());
        assert_eq!(phone.e164_number(), phone.e164_number());
    }
}

#[test]
fn kenyan_number_with_a_digit_removed_or_digits_added_is_rejected() {
    assert!(Phone::parse("+254700782326", "KE").is_ok());
    assert!(Phone::parse("+25470078232", "KE").is_err());
    assert!(Phone::parse("+2547007823261234", "KE").is_err());
}

#[test]
fn number_with_letters_and_symbols_is_rejected() {
    assert!(Phone::parse("hello@world", "KE").is_err());
    assert!(Phone::parse_with_no_country("hello@world").is_err());
}

#[test]
fn unknown_region_is_rejected_with_its_code() {
    let err = Phone::parse("0700782326", "xx").unwrap_err();
    assert_eq!(err.message(), "XX is not a valid or known phone country code");
}

#[test]
fn national_number_without_country_is_rejected() {
    assert!(Phone::parse_with_no_country("0700782326").is_err());
}

#[test]
fn invalid_number_message_names_the_input() {
    let err = Phone::parse("25470234323", "KE").unwrap_err();
    assert_eq!(err.message(), "25470234323 is not a valid phone number.");
}

#[test]
fn e164_text_starts_with_a_nonzero_digit() {
    let phone = Phone::parse("0700782326", "KE").unwrap();
    let text = phone.e164_number();
    assert!(text.starts_with('+'));
    assert_ne!(&text[1..2], "0");
    assert!(text[1..].chars().all(|c| c.is_ascii_digit()));
}

#[test]
fn unreadable_text_names_the_input() {
    let err = Phone::parse("hello", "KE").unwrap_err();
    assert_eq!(err.message(), "error while parsing phone number hello");
    let err = Phone::parse_with_no_country("hello").unwrap_err();
    assert_eq!(err.message(), "error while parsing phone number hello.");
}

#[test]
fn phones_are_equal_exactly_when_their_e164_texts_are() {
    let a = Phone::parse("0700782326", "KE").unwrap();
    let b = Phone::parse("+254 700 782 326", "KE").unwrap();
    let c = Phone::parse("0700123456", "KE").unwrap();
    assert!(a == b);
    assert!(a != c);
    assert!(a.clone() == a);
}
