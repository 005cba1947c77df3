//! Tests of the argument grammar, the version-requirement reader, and the
//! toolchain probe's text parsing.

use const_fn::token::{Delim, Spacing, Token};
use const_fn::utils::{parse_as_empty, ErrorKind};
use const_fn::version::{parse_rustc_version, parse_version_req, Version, VersionReq};
use const_fn::{parse_arg, Arg};

fn id(span: usize, name: &str) -> Token {
    Token::Ident { span, name: name.to_string() }
}

fn pu(span: usize, ch: char, joint: bool) -> Token {
    Token::Punct {
        span,
        ch,
        spacing: if joint { Spacing::Joint } else { Spacing::Alone },
    }
}

fn li(span: usize, repr: &str) -> Token {
    Token::Literal { span, repr: repr.to_string() }
}

fn gr(span: usize, delim: Delim, toks: Vec<Token>) -> Token {
    Token::Group { span, delim, toks }
}

#[test]
fn nightly_form_parses() {
    let r = parse_arg(&vec![id(1, "nightly")], 0).unwrap();
    assert_eq!(r, Arg::Nightly);
}

#[test]
fn nightly_with_trailing_token_fails() {
    let err = parse_arg(&vec![id(1, "nightly"), id(2, "nightly")], 0).unwrap_err();
    assert_eq!(err.kind, ErrorKind::ArgumentParse);
    assert_eq!(err.span, 2);
    assert_eq!(err.msg, "unexpected token: nightly");
}

#[test]
fn version_literal_with_trailing_token_fails() {
    let err = parse_arg(&vec![li(1, "\"1.31\""), id(2, "x")], 0).unwrap_err();
    assert_eq!(err.span, 2);
    assert_eq!(err.msg, "unexpected token: x");
}

#[test]
fn trailing_tokens_are_spelled_out_in_the_message() {
    // A parenthesized group, spaced as source text.
    let g = gr(
        7,
        Delim::Paren,
        vec![id(1, "a"), pu(2, ',', false), id(3, "b")],
    );
    let err = parse_as_empty(&vec![g], 0).unwrap_err();
    assert_eq!(err.msg, "unexpected token: (a , b)");
    // A joined punctuation pair keeps its two characters adjacent.
    let arrow = gr(
        8,
        Delim::Paren,
        vec![pu(1, '-', true), pu(2, '>', false), id(3, "T")],
    );
    let err = parse_as_empty(&vec![arrow], 0).unwrap_err();
    assert_eq!(err.msg, "unexpected token: (-> T)");
    // Braces are padded inside, even when empty.
    let err = parse_as_empty(&vec![gr(9, Delim::Brace, vec![])], 0).unwrap_err();
    assert_eq!(err.msg, "unexpected token: { }");
    let err = parse_as_empty(&vec![gr(9, Delim::Brace, vec![id(1, "x")])], 0).unwrap_err();
    assert_eq!(err.msg, "unexpected token: { x }");
    let err = parse_as_empty(&vec![gr(9, Delim::Bracket, vec![id(1, "x")])], 0).unwrap_err();
    assert_eq!(err.msg, "unexpected token: [x]");
    // A literal is spelled as written.
    let err = parse_as_empty(&vec![li(4, "\"z\"")], 0).unwrap_err();
    assert_eq!(err.msg, "unexpected token: \"z\"");
}

#[test]
fn cfg_form_captures_the_group_contents() {
    let args = vec![
        id(1, "cfg"),
        gr(2, Delim::Paren, vec![id(3, "any"), gr(4, Delim::Paren, vec![])]),
    ];
    let r = parse_arg(&args, 0).unwrap();
    assert_eq!(r, Arg::Cfg(vec![id(3, "any"), gr(4, Delim::Paren, vec![])]));
}

#[test]
fn cfg_without_a_paren_group_fails() {
    let err = parse_arg(&vec![id(1, "cfg"), gr(2, Delim::Bracket, vec![])], 0).unwrap_err();
    assert_eq!(err.span, 2);
    assert_eq!(err.msg, "expected `(`");
    let err2 = parse_arg(&vec![id(1, "cfg")], 9).unwrap_err();
    assert_eq!(err2.span, 9);
    assert_eq!(err2.msg, "expected `(`");
}

#[test]
fn cfg_with_trailing_token_fails() {
    let args = vec![id(1, "cfg"), gr(2, Delim::Paren, vec![]), id(3, "x")];
    let err = parse_arg(&args, 0).unwrap_err();
    assert_eq!(err.span, 3);
    assert_eq!(err.msg, "expected nothing after the closing parenthesis");
}

#[test]
fn feature_form_captures_the_whole_argument() {
    let args = vec![id(1, "feature"), pu(2, '=', false), li(3, "\"foo\"")];
    let r = parse_arg(&args, 0).unwrap();
    assert_eq!(r, Arg::Feature(args));
}

#[test]
fn feature_without_equals_fails() {
    let err = parse_arg(&vec![id(1, "feature"), id(2, "foo")], 0).unwrap_err();
    assert_eq!(err.span, 2);
    assert_eq!(err.msg, "expected `=`");
}

#[test]
fn feature_with_a_nonstring_literal_fails() {
    let args = vec![id(1, "feature"), pu(2, '=', false), li(3, "1")];
    let err = parse_arg(&args, 0).unwrap_err();
    assert_eq!(err.span, 3);
    assert_eq!(err.msg, "expected `=`");
}

#[test]
fn version_literal_parses() {
    let r = parse_arg(&vec![li(1, "\"1.31\"")], 0).unwrap();
    assert_eq!(r, Arg::Version(VersionReq { major: 1, minor: 31 }));
}

#[test]
fn unrecognized_leading_identifier_fails_with_the_forms_message() {
    let err = parse_arg(&vec![id(1, "stable")], 0).unwrap_err();
    assert_eq!(err.span, 1);
    assert_eq!(
        err.msg,
        "expected one of: nightly, cfg(...), feature = \"...\", or a version string literal"
    );
}

#[test]
fn a_nonstring_literal_fails_with_the_forms_message() {
    let err = parse_arg(&vec![li(1, "31")], 0).unwrap_err();
    assert_eq!(err.span, 1);
    assert_eq!(
        err.msg,
        "expected one of: nightly, cfg(...), feature = \"...\", or a version string literal"
    );
}

#[test]
fn version_req_accepts_two_numerals() {
    assert_eq!(parse_version_req("1.31"), Ok(VersionReq { major: 1, minor: 31 }));
    assert_eq!(parse_version_req("012.001"), Ok(VersionReq { major: 12, minor: 1 }));
}

#[test]
fn version_req_rejects_an_empty_string() {
    assert_eq!(
        parse_version_req(""),
        Err("cannot parse integer from empty string".to_string())
    );
}

#[test]
fn version_req_rejects_a_missing_minor() {
    assert_eq!(
        parse_version_req("1"),
        Err("need to specify the minor version".to_string())
    );
}

#[test]
fn version_req_rejects_nondigits() {
    assert_eq!(
        parse_version_req("x.1"),
        Err("invalid digit found in string".to_string())
    );
    assert_eq!(
        parse_version_req("1.-3"),
        Err("invalid digit found in string".to_string())
    );
}

#[test]
fn version_req_rejects_an_overlarge_numeral() {
    assert_eq!(
        parse_version_req("70000.1"),
        Err("number too large to fit in target type".to_string())
    );
}

#[test]
fn version_req_rejects_a_third_segment_and_names_it() {
    assert_eq!(parse_version_req("1.2.3"), Err("unexpected input: 3".to_string()));
    // Only the segment up to the next dot is named.
    assert_eq!(parse_version_req("1.2.3.4"), Err("unexpected input: 3".to_string()));
    assert_eq!(parse_version_req("1.2."), Err("unexpected input: ".to_string()));
}

#[test]
fn version_req_reports_the_first_violation_left_to_right() {
    // The value passes the sixteen-bit cap before the scan reaches the
    // non-digit, so the overflow is reported.
    assert_eq!(
        parse_version_req("70000x.1"),
        Err("number too large to fit in target type".to_string())
    );
    // Here the non-digit comes first.
    assert_eq!(
        parse_version_req("7x000.1"),
        Err("invalid digit found in string".to_string())
    );
}

#[test]
fn probe_reads_a_stable_release_line() {
    let text = "rustc 1.46.0 (04488afe3 2020-08-24)\nbinary: rustc\ncommit-hash: 04488af\nhost: x86_64-unknown-linux-gnu\nrelease: 1.46.0\nLLVM version: 10.0";
    assert_eq!(parse_rustc_version(text), Some(Version { minor: 46, nightly: false }));
}

#[test]
fn probe_flags_nightly_and_dev_channels() {
    assert_eq!(
        parse_rustc_version("release: 1.83.0-nightly\n"),
        Some(Version { minor: 83, nightly: true })
    );
    assert_eq!(
        parse_rustc_version("release: 1.99.0-dev"),
        Some(Version { minor: 99, nightly: true })
    );
    assert_eq!(
        parse_rustc_version("release: 1.83.0-beta.2"),
        Some(Version { minor: 83, nightly: false })
    );
}

#[test]
fn probe_requires_major_version_one() {
    assert_eq!(parse_rustc_version("release: 2.0.0"), None);
}

#[test]
fn probe_fails_without_a_release_line() {
    assert_eq!(parse_rustc_version("rustc 1.46.0\nhost: x\n"), None);
    assert_eq!(parse_rustc_version(""), None);
}

#[test]
fn probe_defaults_a_missing_patch_and_rejects_a_bad_one() {
    assert_eq!(
        parse_rustc_version("release: 1.46"),
        Some(Version { minor: 46, nightly: false })
    );
    assert_eq!(parse_rustc_version("release: 1.46.x"), None);
    assert_eq!(parse_rustc_version("release: 1..0"), None);
}

#[test]
fn probe_strips_a_carriage_return() {
    assert_eq!(
        parse_rustc_version("release: 1.50.0\r\nhost: x"),
        Some(Version { minor: 50, nightly: false })
    );
}

#[test]
fn probe_matches_the_prefix_only_at_a_line_start() {
    let text = "xrelease: 9.9.9\nrelease: 1.46.0";
    assert_eq!(parse_rustc_version(text), Some(Version { minor: 46, nightly: false }));
}
