use callscreen::phone::{PhoneNumber, PhoneRejection};

fn canonical(input: &str) -> String {
    PhoneNumber::parse_north_american(input).unwrap().as_str().to_string()
}

fn rejection(input: &str) -> PhoneRejection {
    PhoneNumber::parse_north_american(input).unwrap_err().reason
}

#[test]
fn four_formats_give_one_canonical_form() {
    assert_eq!(canonical("555-234-5678"), "+15552345678");
    assert_eq!(canonical("(555) 234-5678"), "+15552345678");
    assert_eq!(canonical("5552345678"), "+15552345678");
    assert_eq!(canonical("+15552345678"), "+15552345678");
}

#[test]
fn other_separators_are_ignored() {
    assert_eq!(canonical("1 (212) 555.0199"), "+12125550199");
    assert_eq!(canonical("tel: 212 555 0199 "), "+12125550199");
}

#[test]
fn wrong_digit_counts_name_the_count() {
    assert_eq!(rejection(""), PhoneRejection::DigitCount(0));
    assert_eq!(rejection("555-2345"), PhoneRejection::DigitCount(7));
    assert_eq!(rejection("555234567"), PhoneRejection::DigitCount(9));
    assert_eq!(rejection("25552345678"), PhoneRejection::DigitCount(11));
    assert_eq!(rejection("+1 555 234 56789"), PhoneRejection::DigitCount(12));
    assert_eq!(rejection("no digits here"), PhoneRejection::DigitCount(0));
}

#[test]
fn digit_count_message_names_the_count() {
    let e = PhoneNumber::parse_north_american("555-2345").unwrap_err();
    assert_eq!(e.message(), "invalid phone number: expected 10-digit NANP number, got 7 digits");
}

#[test]
fn area_code_starting_with_0_or_1_is_rejected() {
    assert_eq!(rejection("055-234-5678"), PhoneRejection::AreaCode);
    assert_eq!(rejection("155-234-5678"), PhoneRejection::AreaCode);
    assert_eq!(rejection("1-155-234-5678"), PhoneRejection::AreaCode);
    let e = PhoneNumber::parse_north_american("123-456-7890").unwrap_err();
    assert_eq!(e.message(), "invalid phone number: area code must start with 2-9");
}

#[test]
fn exchange_starting_with_0_or_1_is_rejected() {
    assert_eq!(rejection("555-034-5678"), PhoneRejection::Exchange);
    assert_eq!(rejection("555-134-5678"), PhoneRejection::Exchange);
    let e = PhoneNumber::parse_north_american("(555) 123-4567").unwrap_err();
    assert_eq!(e.message(), "invalid phone number: exchange must start with 2-9");
}

#[test]
fn area_code_is_checked_before_exchange() {
    assert_eq!(rejection("011-011-0000"), PhoneRejection::AreaCode);
}

#[test]
fn leading_country_code_is_dropped_only_when_it_is_1() {
    assert_eq!(canonical("1-555-234-5678"), "+15552345678");
    assert_eq!(canonical("+1 (800) 555-0100"), "+18005550100");
}

#[test]
fn non_ascii_text_does_not_panic() {
    assert_eq!(canonical("☎ 555–234–5678"), "+15552345678");
    assert_eq!(rejection("٥٥٥"), PhoneRejection::DigitCount(0));
}
