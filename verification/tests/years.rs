use transibase::cli::validate_year;
use transibase::error::ConversionError;
use transibase::year::date_in_year;
use transibase::year::is_valid_year;

#[test]
fn four_ascii_digits_are_a_year() {
    assert!(is_valid_year("2023"));
    assert!(is_valid_year("0000"));
    assert!(is_valid_year("9999"));
}

#[test]
fn anything_else_is_not_a_year() {
    assert!(!is_valid_year(""));
    assert!(!is_valid_year("202"));
    assert!(!is_valid_year("20233"));
    assert!(!is_valid_year("20a3"));
    assert!(!is_valid_year(" 2023"));
    assert!(!is_valid_year("2023 "));
    assert!(!is_valid_year("2023\n"));
    assert!(!is_valid_year("-023"));
    assert!(!is_valid_year("+023"));
    assert!(!is_valid_year("2O23"));
}

#[test]
fn digits_of_other_scripts_are_not_a_year() {
    assert!(!is_valid_year("２０２３"));
    assert!(!is_valid_year("٢٠٢٣"));
    assert!(!is_valid_year("202५"));
}

#[test]
fn validate_year_accepts_a_year_and_the_absence_of_one() {
    assert_eq!(validate_year(&None), Ok(()));
    assert_eq!(validate_year(&Some("2023".to_string())), Ok(()));
}

#[test]
fn validate_year_refuses_what_is_no_year() {
    assert_eq!(validate_year(&Some("23".to_string())), Err(ConversionError::InvalidYearFormat));
    assert_eq!(validate_year(&Some("deux mille".to_string())), Err(ConversionError::InvalidYearFormat));
    assert_eq!(validate_year(&Some(String::new())), Err(ConversionError::InvalidYearFormat));
}

#[test]
fn date_lies_in_the_year_of_its_first_four_characters() {
    assert!(date_in_year("2023-05-10", "2023"));
    assert!(date_in_year("2023", "2023"));
    assert!(date_in_year("2023 et le reste", "2023"));
    assert!(!date_in_year("2023-05-10", "2024"));
    assert!(!date_in_year("2024-05-10", "2023"));
    assert!(!date_in_year("12023-05-10", "2023"));
    assert!(!date_in_year("+2023-05-10", "2023"));
}

#[test]
fn short_date_lies_in_no_year() {
    assert!(!date_in_year("", "2023"));
    assert!(!date_in_year("2", "2023"));
    assert!(!date_in_year("202", "2023"));
    assert!(!date_in_year("202", "202"));
    assert!(!date_in_year("", ""));
}

#[test]
fn year_of_another_length_holds_no_date() {
    assert!(!date_in_year("2023-05-10", "202"));
    assert!(!date_in_year("2023-05-10", "2023-"));
    assert!(!date_in_year("2023-05-10", ""));
}

#[test]
fn years_are_compared_as_text() {
    assert!(!date_in_year("02023", "2023"));
    assert!(date_in_year("abcd-ef", "abcd"));
    assert!(!date_in_year("２０２３-05-10", "2023"));
    assert!(date_in_year("２０２３-05-10", "２０２３"));
    assert!(date_in_year("été!-hiver", "été!"));
    assert!(!date_in_year("été", "été"));
}
