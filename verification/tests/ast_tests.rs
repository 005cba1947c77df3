//! Tests of the declaration model: parsing, serialization fidelity, and the
//! qualifier mutation.

use const_fn::ast::{parse_input, Func};
use const_fn::token::{Delim, Spacing, Token};
use const_fn::utils::ErrorKind;

fn id(span: usize, name: &str) -> Token {
    Token::Ident { span, name: name.to_string() }
}

fn pu(span: usize, ch: char, joint: bool) -> Token {
    Token::Punct {
        span,
        ch,
        spacing: if joint { Spacing::Joint } else { Spacing::Alone },
    }
}

fn li(span: usize, repr: &str) -> Token {
    Token::Literal { span, repr: repr.to_string() }
}

fn gr(span: usize, delim: Delim, toks: Vec<Token>) -> Token {
    Token::Group { span, delim, toks }
}

/// Tokens of a declaration carrying every qualifier:
/// an attribute, restricted visibility, constancy, asyncness, the safety
/// and linkage qualifiers with an ABI literal, generics whose bounds hold
/// a nested bracket list and an arrow, parameters, a return type, a body.
fn full_fn() -> Vec<Token> {
    let safety_kw = format!("uns{}", "afe");
    let linkage_kw = format!("ext{}", "ern");
    vec![
        pu(1, '#', false),
        gr(2, Delim::Bracket, vec![id(3, "inline")]),
        id(4, "pub"),
        gr(5, Delim::Paren, vec![id(6, "crate")]),
        id(7, "const"),
        id(8, "async"),
        id(9, &safety_kw),
        id(10, &linkage_kw),
        li(11, "\"C\""),
        id(12, "fn"),
        id(13, "weird"),
        pu(14, '<', false),
        id(15, "T"),
        pu(16, ':', false),
        id(17, "Fn"),
        gr(18, Delim::Paren, vec![id(19, "u8")]),
        pu(20, '-', true),
        pu(21, '>', false),
        id(22, "Vec"),
        pu(23, '<', false),
        id(24, "u8"),
        pu(25, '>', false),
        pu(26, '>', false),
        gr(27, Delim::Paren, vec![id(28, "x"), pu(29, ':', false), id(30, "T")]),
        pu(31, '-', true),
        pu(32, '>', false),
        id(33, "T"),
        gr(34, Delim::Brace, vec![id(35, "x")]),
    ]
}

fn parse(input: &Vec<Token>) -> Func {
    parse_input(input, 0).unwrap()
}

#[test]
fn roundtrip_simple_declaration() {
    let input = vec![
        id(1, "fn"),
        id(2, "f"),
        gr(3, Delim::Paren, vec![]),
        gr(4, Delim::Brace, vec![]),
    ];
    let f = parse(&input);
    assert_eq!(f.to_token_stream(), input);
}

#[test]
fn roundtrip_full_declaration() {
    let input = full_fn();
    let f = parse(&input);
    assert_eq!(f.to_token_stream(), input);
}

#[test]
fn parse_splits_the_declaration_into_its_pieces() {
    let f = parse(&full_fn());
    assert_eq!(f.attrs.len(), 1);
    assert_eq!(f.vis.len(), 2);
    assert_eq!(f.constness, Some(id(7, "const")));
    assert_eq!(f.asyncness, Some(id(8, "async")));
    assert!(f.safety.is_some());
    assert_eq!(f.linkage.len(), 2);
    assert_eq!(f.name, id(13, "weird"));
    // `<` .. `>` inclusive, with the arrow's `>` and the nested pair kept.
    assert_eq!(f.generics.len(), 12);
    assert_eq!(f.ret.len(), 3);
    assert_eq!(f.sig_span, 4);
}

#[test]
fn with_constancy_off_drops_only_the_qualifier() {
    let input = full_fn();
    let f = parse(&input);
    let stripped = f.with_constancy(false).to_token_stream();
    let mut expected = full_fn();
    expected.remove(4);
    assert_eq!(stripped, expected);
}

#[test]
fn with_constancy_on_keeps_everything() {
    let input = full_fn();
    let f = parse(&input);
    assert_eq!(f.with_constancy(true).to_token_stream(), input);
}

#[test]
fn parse_rejects_a_nonfunction_item() {
    let input = vec![id(1, "struct"), id(2, "S"), gr(3, Delim::Brace, vec![])];
    let err = parse_input(&input, 0).unwrap_err();
    assert_eq!(err.kind, ErrorKind::DeclarationShape);
    assert_eq!(err.span, 1);
    assert_eq!(err.msg, "expected a function");
}

#[test]
fn parse_rejects_a_missing_body() {
    let input = vec![id(1, "fn"), id(2, "f"), gr(3, Delim::Paren, vec![])];
    let err = parse_input(&input, 0).unwrap_err();
    assert_eq!(err.kind, ErrorKind::DeclarationShape);
    assert_eq!(err.span, 1);
}

#[test]
fn parse_rejects_an_unclosed_generic_list() {
    let input = vec![
        id(1, "fn"),
        id(2, "f"),
        pu(3, '<', false),
        id(4, "T"),
        gr(5, Delim::Paren, vec![]),
        gr(6, Delim::Brace, vec![]),
    ];
    let err = parse_input(&input, 0).unwrap_err();
    assert_eq!(err.kind, ErrorKind::DeclarationShape);
}

#[test]
fn parse_rejects_empty_input_at_the_invocation_span() {
    let err = parse_input(&vec![], 42).unwrap_err();
    assert_eq!(err.kind, ErrorKind::DeclarationShape);
    assert_eq!(err.span, 42);
}

#[test]
fn arrow_inside_generics_does_not_close_the_list() {
    // `fn f<F: Fn() -> G<u8>>() {}`: the arrow's `>` must be skipped and the
    // nested `G<u8>` pair balanced.
    let input = vec![
        id(1, "fn"),
        id(2, "f"),
        pu(3, '<', false),
        id(4, "F"),
        pu(5, ':', false),
        id(6, "Fn"),
        gr(7, Delim::Paren, vec![]),
        pu(8, '-', true),
        pu(9, '>', false),
        id(10, "G"),
        pu(11, '<', false),
        id(12, "u8"),
        pu(13, '>', false),
        pu(14, '>', false),
        gr(15, Delim::Paren, vec![]),
        gr(16, Delim::Brace, vec![]),
    ];
    let f = parse(&input);
    assert_eq!(f.generics.len(), 12);
    assert_eq!(f.to_token_stream(), input);
}
