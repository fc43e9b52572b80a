use inference_bridge::extract::parse_py_output;
use inference_bridge::extract::read_output;
use inference_bridge::extract::ParseErrorKind;
use inference_bridge::extract::Prediction;

fn kind_of(output: &str) -> ParseErrorKind {
    parse_py_output(output).unwrap_err().kind
}

#[test]
fn extracts_token_from_array_repr() {
    let parsed = parse_py_output("array(['HELLO'], dtype='<U5')").unwrap();
    assert_eq!(parsed.text(), "HELLO");
}

#[test]
fn extracts_token_between_words() {
    let parsed = parse_py_output("Result: 'A1' done").unwrap();
    assert_eq!(parsed.text(), "A1");
}

#[test]
fn newlines_only_is_no_result_line() {
    let error = parse_py_output("\n\n\n").unwrap_err();
    assert_eq!(error.kind, ParseErrorKind::NoResultLine);
    assert_eq!(error.raw_output, "\n\n\n");
}

#[test]
fn empty_output_is_no_result_line() {
    assert_eq!(kind_of(""), ParseErrorKind::NoResultLine);
}

#[test]
fn takes_the_last_non_empty_line() {
    let output = "loading model\nwarning: 'ignored'\n['WORLD']\n\n\n";
    assert_eq!(parse_py_output(output).unwrap().text(), "WORLD");
}

#[test]
fn earlier_lines_are_not_searched() {
    let output = "first 'A' line\nno quotes here\n";
    let error = parse_py_output(output).unwrap_err();
    assert_eq!(error.kind, ParseErrorKind::MalformedQuoting);
    assert_eq!(error.raw_output, output);
}

#[test]
fn line_without_quotes_is_malformed() {
    assert_eq!(kind_of("HELLO"), ParseErrorKind::MalformedQuoting);
}

#[test]
fn line_with_one_quote_is_malformed() {
    assert_eq!(kind_of("it's broken"), ParseErrorKind::MalformedQuoting);
    assert_eq!(kind_of("'"), ParseErrorKind::MalformedQuoting);
    assert_eq!(kind_of("tail'"), ParseErrorKind::MalformedQuoting);
}

#[test]
fn empty_token_is_rejected() {
    assert_eq!(kind_of("''"), ParseErrorKind::EmptyPrediction);
    assert_eq!(kind_of("x = '' then 'Y'"), ParseErrorKind::EmptyPrediction);
}

#[test]
fn first_pair_of_quotes_wins() {
    assert_eq!(parse_py_output("'a' 'b' 'c'").unwrap().text(), "a");
    assert_eq!(parse_py_output("'a'b'").unwrap().text(), "a");
}

#[test]
fn carriage_return_is_part_of_the_line() {
    assert_eq!(parse_py_output("'X'\r\n").unwrap().text(), "X");
    assert_eq!(kind_of("'X'\n\r\n"), ParseErrorKind::MalformedQuoting);
}

#[test]
fn token_may_hold_characters_beyond_ascii() {
    let parsed = parse_py_output("préfixe 'héllo wörld ✓' suffixe").unwrap();
    assert_eq!(parsed.text(), "héllo wörld ✓");
    assert_eq!(parsed.into_text(), String::from("héllo wörld ✓"));
}

#[test]
fn prediction_is_never_empty() {
    assert_eq!(Prediction::new(String::new()), None);
    let made = Prediction::new(String::from("A")).unwrap();
    assert_eq!(made.text(), "A");
    assert_eq!(parse_py_output("'A'").unwrap(), made);
}

#[test]
fn bytes_are_read_as_utf8() {
    let parsed = read_output("log\n('Grüße',)\n".as_bytes()).unwrap();
    assert_eq!(parsed.text(), "Grüße");
}

#[test]
fn bytes_that_are_no_text_are_rejected() {
    let stdout: Vec<u8> = vec![b'\'', 0xff, b'A', b'\''];
    let error = read_output(&stdout).unwrap_err();
    assert_eq!(error.kind, ParseErrorKind::InvalidEncoding);
    assert_eq!(error.raw_output, "'\u{fffd}A'");
}

#[test]
fn errors_of_bytes_carry_the_text() {
    let error = read_output(b"nothing quoted\n").unwrap_err();
    assert_eq!(error.kind, ParseErrorKind::MalformedQuoting);
    assert_eq!(error.raw_output, "nothing quoted\n");
}
