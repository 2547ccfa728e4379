use transibase::cli::answer_is_yes;
use transibase::cli::confirms_overwrite;
use transibase::cli::parse_arguments;
use transibase::cli::Invocation;
use transibase::error::ConversionError;
use transibase::process::exit_code;
use transibase::process::Outcome;

fn args(list: &[&str]) -> Vec<String> {
    list.iter().map(|s| s.to_string()).collect()
}

#[test]
fn fewer_than_two_files_is_a_usage_error() {
    assert_eq!(parse_arguments(&args(&[])), Err(ConversionError::Usage));
    assert_eq!(parse_arguments(&args(&["prog"])), Err(ConversionError::Usage));
    assert_eq!(parse_arguments(&args(&["prog", "in.json"])), Err(ConversionError::Usage));
}

#[test]
fn two_files_are_input_and_output() {
    assert_eq!(
        parse_arguments(&args(&["prog", "in.json", "out.csv"])),
        Ok(Invocation {
            input_file: "in.json".to_string(),
            output_file: "out.csv".to_string(),
            filter_year: None,
        })
    );
}

#[test]
fn third_argument_is_the_year_as_it_stands() {
    assert_eq!(
        parse_arguments(&args(&["prog", "in.json", "out.csv", "2023"])),
        Ok(Invocation {
            input_file: "in.json".to_string(),
            output_file: "out.csv".to_string(),
            filter_year: Some("2023".to_string()),
        })
    );
    assert_eq!(
        parse_arguments(&args(&["prog", "a", "b", "pas une année"])).unwrap().filter_year,
        Some("pas une année".to_string())
    );
}

#[test]
fn further_arguments_are_not_read() {
    assert_eq!(
        parse_arguments(&args(&["prog", "in.json", "out.csv", "2023", "2024", "x"])),
        Ok(Invocation {
            input_file: "in.json".to_string(),
            output_file: "out.csv".to_string(),
            filter_year: Some("2023".to_string()),
        })
    );
}

#[test]
fn o_in_either_case_confirms() {
    assert!(confirms_overwrite("o"));
    assert!(confirms_overwrite("O"));
    assert!(confirms_overwrite("o\n"));
    assert!(confirms_overwrite("O\r\n"));
    assert!(confirms_overwrite("  o \t\n"));
    assert!(confirms_overwrite("\u{a0}O\u{3000}"));
}

#[test]
fn any_other_answer_declines() {
    assert!(!confirms_overwrite(""));
    assert!(!confirms_overwrite("\n"));
    assert!(!confirms_overwrite("n"));
    assert!(!confirms_overwrite("oui"));
    assert!(!confirms_overwrite("oo"));
    assert!(!confirms_overwrite("o o"));
    assert!(!confirms_overwrite("0"));
    assert!(!confirms_overwrite("y"));
    assert!(!confirms_overwrite("ο"));
    assert!(!confirms_overwrite("Ｏ"));
}

#[test]
fn answer_is_yes_only_for_a_lone_small_o() {
    assert!(answer_is_yes("o"));
    assert!(!answer_is_yes("O"));
    assert!(!answer_is_yes(" o"));
    assert!(!answer_is_yes("o\n"));
    assert!(!answer_is_yes(""));
    assert!(!answer_is_yes("ô"));
}

#[test]
fn every_error_ends_with_code_one() {
    for error in [
        ConversionError::Usage,
        ConversionError::MissingFile("in.json".to_string()),
        ConversionError::InvalidYearFormat,
        ConversionError::MalformedInput("expected value at line 1 column 1".to_string()),
        ConversionError::IoFailure("permission denied".to_string()),
    ] {
        assert_eq!(error.exit_code(), 1);
        assert_eq!(exit_code(&Err(error)), 1);
    }
}

#[test]
fn every_outcome_ends_with_code_zero() {
    assert_eq!(exit_code(&Ok(Outcome::NoMatchingRecords)), 0);
    assert_eq!(exit_code(&Ok(Outcome::Converted { csv: b"\"a\"\n".to_vec(), rows: 1 })), 0);
}
