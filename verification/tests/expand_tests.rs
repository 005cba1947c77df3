//! End-to-end tests of the rewrite over the token model.

use const_fn::token::{Delim, Spacing, Token};
use const_fn::utils::{error_tokens, tt_span, Error, ErrorKind};
use const_fn::version::Version;
use const_fn::{const_fn, expand};

fn id(span: usize, name: &str) -> Token {
    Token::Ident { span, name: name.to_string() }
}

fn pu(span: usize, ch: char, joint: bool) -> Token {
    Token::Punct {
        span,
        ch,
        spacing: if joint { Spacing::Joint } else { Spacing::Alone },
    }
}

fn li(span: usize, repr: &str) -> Token {
    Token::Literal { span, repr: repr.to_string() }
}

fn gr(span: usize, delim: Delim, toks: Vec<Token>) -> Token {
    Token::Group { span, delim, toks }
}

/// Tokens of `const fn f<T>(x: T) -> T { x }`.
fn generic_identity_fn() -> Vec<Token> {
    vec![
        id(1, "const"),
        id(2, "fn"),
        id(3, "f"),
        pu(4, '<', false),
        id(5, "T"),
        pu(6, '>', false),
        gr(7, Delim::Paren, vec![id(8, "x"), pu(9, ':', false), id(10, "T")]),
        pu(11, '-', true),
        pu(12, '>', false),
        id(13, "T"),
        gr(14, Delim::Brace, vec![id(15, "x")]),
    ]
}

/// The same declaration with the constancy qualifier absent.
fn generic_identity_fn_nonconst() -> Vec<Token> {
    let mut v = generic_identity_fn();
    v.remove(0);
    v
}

fn stable(minor: u32) -> Version {
    Version { minor, nightly: false }
}

#[test]
fn version_satisfied_keeps_declaration_unchanged() {
    let args = vec![li(20, "\"1.31\"")];
    let input = generic_identity_fn();
    let out = expand(&args, &input, &stable(46), 0).unwrap();
    assert_eq!(out, generic_identity_fn());
}

#[test]
fn version_unsatisfied_strips_qualifier() {
    let args = vec![li(20, "\"1.31\"")];
    let input = generic_identity_fn();
    let out = expand(&args, &input, &stable(20), 0).unwrap();
    assert_eq!(out, generic_identity_fn_nonconst());
}

#[test]
fn version_major_other_than_one_strips_qualifier() {
    let args = vec![li(20, "\"2.31\"")];
    let input = generic_identity_fn();
    let out = expand(&args, &input, &stable(46), 0).unwrap();
    assert_eq!(out, generic_identity_fn_nonconst());
}

#[test]
fn version_boundary_equal_minor_is_satisfied() {
    let args = vec![li(20, "\"1.31\"")];
    let input = generic_identity_fn();
    let out = expand(&args, &input, &stable(31), 0).unwrap();
    assert_eq!(out, generic_identity_fn());
}

#[test]
fn nightly_toggles_with_probed_flag() {
    let args = vec![id(21, "nightly")];
    let input = generic_identity_fn();
    let on = expand(&args, &input, &Version { minor: 46, nightly: true }, 0).unwrap();
    assert_eq!(on, generic_identity_fn());
    let off = expand(&args, &input, &Version { minor: 46, nightly: false }, 0).unwrap();
    assert_eq!(off, generic_identity_fn_nonconst());
}

#[test]
fn cfg_emits_two_guarded_copies() {
    // `cfg(feature_x)` on `const fn g() {}`.
    let args = vec![id(30, "cfg"), gr(31, Delim::Paren, vec![id(32, "feature_x")])];
    let input = vec![
        id(40, "const"),
        id(41, "fn"),
        id(42, "g"),
        gr(43, Delim::Paren, vec![]),
        gr(44, Delim::Brace, vec![]),
    ];
    let out = expand(&args, &input, &stable(46), 0).unwrap();
    let expected = vec![
        // #[cfg(feature_x)] const fn g() {}
        pu(0, '#', false),
        gr(
            0,
            Delim::Bracket,
            vec![id(0, "cfg"), gr(0, Delim::Paren, vec![id(32, "feature_x")])],
        ),
        id(40, "const"),
        id(41, "fn"),
        id(42, "g"),
        gr(43, Delim::Paren, vec![]),
        gr(44, Delim::Brace, vec![]),
        // #[cfg(not(feature_x))] fn g() {}
        pu(0, '#', false),
        gr(
            0,
            Delim::Bracket,
            vec![
                id(0, "cfg"),
                gr(
                    0,
                    Delim::Paren,
                    vec![id(0, "not"), gr(0, Delim::Paren, vec![id(32, "feature_x")])],
                ),
            ],
        ),
        id(41, "fn"),
        id(42, "g"),
        gr(43, Delim::Paren, vec![]),
        gr(44, Delim::Brace, vec![]),
    ];
    assert_eq!(out, expected);
}

#[test]
fn feature_emits_two_copies_with_verbatim_condition() {
    let args = vec![id(50, "feature"), pu(51, '=', false), li(52, "\"foo\"")];
    let input = vec![
        id(60, "const"),
        id(61, "fn"),
        id(62, "g"),
        gr(63, Delim::Paren, vec![]),
        gr(64, Delim::Brace, vec![]),
    ];
    let out = expand(&args, &input, &stable(46), 0).unwrap();
    let cond = || vec![id(50, "feature"), pu(51, '=', false), li(52, "\"foo\"")];
    let expected = vec![
        pu(0, '#', false),
        gr(
            0,
            Delim::Bracket,
            vec![id(0, "cfg"), gr(0, Delim::Paren, cond())],
        ),
        id(60, "const"),
        id(61, "fn"),
        id(62, "g"),
        gr(63, Delim::Paren, vec![]),
        gr(64, Delim::Brace, vec![]),
        pu(0, '#', false),
        gr(
            0,
            Delim::Bracket,
            vec![
                id(0, "cfg"),
                gr(
                    0,
                    Delim::Paren,
                    vec![id(0, "not"), gr(0, Delim::Paren, cond())],
                ),
            ],
        ),
        id(61, "fn"),
        id(62, "g"),
        gr(63, Delim::Paren, vec![]),
        gr(64, Delim::Brace, vec![]),
    ];
    assert_eq!(out, expected);
}

#[test]
fn guard_keeps_existing_attributes_in_place() {
    // `cfg(c)` on `#[inline] const fn g() {}`: the first copy carries the
    // guard ahead of the existing attribute; the second keeps the existing
    // attribute first and gains the negated guard after it.
    let args = vec![id(30, "cfg"), gr(31, Delim::Paren, vec![id(32, "c")])];
    let input = vec![
        pu(45, '#', false),
        gr(46, Delim::Bracket, vec![id(47, "inline")]),
        id(40, "const"),
        id(41, "fn"),
        id(42, "g"),
        gr(43, Delim::Paren, vec![]),
        gr(44, Delim::Brace, vec![]),
    ];
    let out = expand(&args, &input, &stable(46), 0).unwrap();
    let expected = vec![
        pu(0, '#', false),
        gr(0, Delim::Bracket, vec![id(0, "cfg"), gr(0, Delim::Paren, vec![id(32, "c")])]),
        pu(45, '#', false),
        gr(46, Delim::Bracket, vec![id(47, "inline")]),
        id(40, "const"),
        id(41, "fn"),
        id(42, "g"),
        gr(43, Delim::Paren, vec![]),
        gr(44, Delim::Brace, vec![]),
        pu(45, '#', false),
        gr(46, Delim::Bracket, vec![id(47, "inline")]),
        pu(0, '#', false),
        gr(
            0,
            Delim::Bracket,
            vec![
                id(0, "cfg"),
                gr(
                    0,
                    Delim::Paren,
                    vec![id(0, "not"), gr(0, Delim::Paren, vec![id(32, "c")])],
                ),
            ],
        ),
        id(41, "fn"),
        id(42, "g"),
        gr(43, Delim::Paren, vec![]),
        gr(44, Delim::Brace, vec![]),
    ];
    assert_eq!(out, expected);
}

#[test]
fn guard_form_on_nonconst_declaration_fails() {
    let args = vec![id(30, "cfg"), gr(31, Delim::Paren, vec![id(32, "feature_x")])];
    let input = vec![
        id(41, "fn"),
        id(42, "g"),
        gr(43, Delim::Paren, vec![]),
        gr(44, Delim::Brace, vec![]),
    ];
    let err = expand(&args, &input, &stable(46), 0).unwrap_err();
    assert_eq!(err.kind, ErrorKind::DeclarationShape);
    assert_eq!(err.span, 41);
    assert_eq!(err.msg, "this attribute may only be used on const functions");
}

#[test]
fn feature_form_on_nonconst_declaration_fails() {
    let args = vec![id(50, "feature"), pu(51, '=', false), li(52, "\"foo\"")];
    let input = vec![
        id(70, "pub"),
        id(71, "fn"),
        id(72, "g"),
        gr(73, Delim::Paren, vec![]),
        gr(74, Delim::Brace, vec![]),
    ];
    let err = expand(&args, &input, &stable(46), 0).unwrap_err();
    assert_eq!(err.kind, ErrorKind::DeclarationShape);
    assert_eq!(err.span, 70);
}

#[test]
fn empty_argument_fails_whatever_the_declaration() {
    let v = stable(46);
    let err = expand(&vec![], &generic_identity_fn(), &v, 7).unwrap_err();
    assert_eq!(err.kind, ErrorKind::ArgumentParse);
    assert_eq!(err.span, 7);
    assert_eq!(
        err.msg,
        "expected one of: nightly, cfg(...), feature = \"...\", or a version string literal"
    );
    let other = vec![id(1, "not_a_function_at_all")];
    let err2 = expand(&vec![], &other, &v, 7).unwrap_err();
    assert_eq!(err.kind, err2.kind);
    assert_eq!(err.msg, err2.msg);
}

#[test]
fn diagnostics_render_as_compile_error_tokens() {
    let v = stable(46);
    let out = const_fn(&vec![], &generic_identity_fn(), &v, 9);
    assert_eq!(out.len(), 3);
    assert_eq!(out[0], id(9, "compile_error"));
    assert_eq!(out[1], pu(9, '!', false));
    let expected_lit = li(
        9,
        "\"expected one of: nightly, cfg(...), feature = \\\"...\\\", or a version string literal\"",
    );
    assert_eq!(out[2], gr(9, Delim::Brace, vec![expected_lit]));
}

#[test]
fn error_messages_are_escaped_into_the_literal() {
    let e = Error { kind: ErrorKind::ArgumentParse, span: 5, msg: "a\"b\\".to_string() };
    let out = error_tokens(&e);
    assert_eq!(out[0], id(5, "compile_error"));
    assert_eq!(out[2], gr(5, Delim::Brace, vec![li(5, "\"a\\\"b\\\\\"")]));
}

#[test]
fn tt_span_falls_back_to_the_invocation_span() {
    let t = id(3, "x");
    assert_eq!(tt_span(Some(&t), 9), 3);
    assert_eq!(tt_span(None, 9), 9);
}

#[test]
fn bad_version_string_is_reported_at_the_literal() {
    let args = vec![li(20, "\"1.2.3\"")];
    let err = expand(&args, &generic_identity_fn(), &stable(46), 0).unwrap_err();
    assert_eq!(err.kind, ErrorKind::ArgumentParse);
    assert_eq!(err.span, 20);
    assert_eq!(err.msg, "unexpected input: 3");
}
