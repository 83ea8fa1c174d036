use katvan_homepage::cli::{parse_out_dir, usage_message};
use katvan_homepage::errors::ErrorKind;

#[test]
fn missing_argument_is_a_usage_error() {
    let args: Vec<String> = vec![];
    assert_eq!(parse_out_dir(&args), Err(ErrorKind::Usage));
}

#[test]
fn one_argument_is_the_output_directory() {
    let args = vec![String::from("public")];
    assert_eq!(parse_out_dir(&args), Ok(String::from("public")));
}

#[test]
fn extra_arguments_are_a_usage_error() {
    let args = vec![String::from("public"), String::from("extra")];
    assert_eq!(parse_out_dir(&args), Err(ErrorKind::Usage));
}

#[test]
fn flag_like_argument_is_a_usage_error() {
    let args = vec![String::from("--help")];
    assert_eq!(parse_out_dir(&args), Err(ErrorKind::Usage));
}

#[test]
fn usage_message_names_the_expected_argument() {
    assert_eq!(usage_message(), "Usage: katvan-homepage <output directory>");
}
