use rawbit::error::ParseError;
use rawbit::error::ParseErrorType;
use rawbit::parse::FilenameFormat;

#[test]
fn message_underlines_unknown_key() {
    let err = FilenameFormat::parse("{bogus}").unwrap_err();
    assert_eq!(
        err.message(),
        "invalid variable expansion: {bogus}\n> {bogus}\n> ^~~~~~~\n"
    );
}

#[test]
fn message_underlines_unterminated_expansion() {
    let err = FilenameFormat::parse("{camera.make").unwrap_err();
    assert_eq!(
        err.message(),
        "unterminated variable expansion: {camera.make\n> {camera.make\n> ^~~~~~~~~~~~\n"
    );
}

#[test]
fn message_pads_to_the_offending_span() {
    let err = FilenameFormat::parse("ab{nope}").unwrap_err();
    assert_eq!(
        err.message(),
        "invalid variable expansion: {nope}\n> ab{nope}\n>   ^~~~~~\n"
    );
}

#[test]
fn constructors_record_kind_and_span() {
    let e = ParseError::new(2, 3, "abcdef", ParseErrorType::Unknown);
    assert!(matches!(e.err_ty, ParseErrorType::Unknown));
    assert_eq!(e.original, "abcdef");
    assert_eq!(e.start, 2);
    assert_eq!(e.width, 3);

    let u = ParseError::unterminated_expansion(1, 2, "abc");
    assert!(matches!(u.err_ty, ParseErrorType::UnterminatedExpansion));

    let i = ParseError::invalid_expansion(0, 1, "abc");
    assert!(matches!(i.err_ty, ParseErrorType::InvalidExpansion));
}

#[test]
fn print_error_details_reports_three_lines() {
    let e = ParseError::new(0, 3, "abc", ParseErrorType::Unknown);
    assert_eq!(e.print_error_details("oops"), "oops\n> abc\n> ^~~\n");
}

#[test]
fn unknown_error_message_names_unknown() {
    let err = FilenameFormat::parse("{").unwrap_err();
    assert!(matches!(err.err_ty, ParseErrorType::Unknown));
    assert_eq!(err.message(), "unknown error: {\n> {\n> ^\n");
}
