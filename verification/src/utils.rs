//! Diagnostics: error values anchored at a span, and their rendering as a
//! `compile_error!` token sequence that surfaces the message at the offending
//! source location instead of crashing the rewrite.

use vstd::prelude::*;

verus! {

use crate::token::{Delim, Spacing, TokView, Token, lemma_toks_view, render_into, tok_source,
    toks_view, tv_span};

/// Which stage of the rewrite rejected the input.
#[derive(Clone, Copy, PartialEq, Eq, Structural, Debug)]
pub enum ErrorKind {
    /// The attribute argument does not match any accepted predicate form.
    ArgumentParse,
    /// The annotated item is not a function declaration of the shape the
    /// rewriter handles, or lacks a qualifier that the chosen form requires.
    DeclarationShape,
}

/// A diagnostic: a kind, the span identifier of the offending token (or of
/// the whole invocation when nothing more precise exists), and a message.
#[derive(Debug, PartialEq)]
pub struct Error {
    /// Which stage rejected the input.
    pub kind: ErrorKind,
    /// Span identifier the diagnostic is anchored at.
    pub span: usize,
    /// Human-readable message.
    pub msg: String,
}

/// Ghost mirror of [`Error`].
#[verifier::ext_equal]
pub struct ErrView {
    /// Mirror of [`Error::kind`].
    pub kind: ErrorKind,
    /// Mirror of [`Error::span`].
    pub span: nat,
    /// Mirror of [`Error::msg`].
    pub msg: Seq<char>,
}

impl View for Error {
    type V = ErrView;

    open spec fn view(&self) -> ErrView {
        ErrView { kind: self.kind, span: self.span as nat, msg: self.msg@ }
    }
}

/// An argument-parse diagnostic at `span`.
pub open spec fn arg_err(span: nat, msg: Seq<char>) -> ErrView {
    ErrView { kind: ErrorKind::ArgumentParse, span, msg }
}

/// A declaration-shape diagnostic at `span`.
pub open spec fn decl_err(span: nat, msg: Seq<char>) -> ErrView {
    ErrView { kind: ErrorKind::DeclarationShape, span, msg }
}

/// The span of `tt` when present, and the fallback `site` otherwise.
pub open spec fn spec_tt_span(tt: Option<TokView>, site: nat) -> nat {
    match tt {
        Some(t) => tv_span(t),
        None => site,
    }
}

/// The span of `tt` when present, and the whole-invocation span `site`
/// otherwise.
pub fn tt_span(tt: Option<&Token>, site: usize) -> (s: usize)
    ensures
        s as nat == spec_tt_span(match tt {
            Some(t) => Some(t@),
            None => None,
        }, site as nat),
{
    match tt {
        Some(t) => t.span(),
        None => site,
    }
}

/// The trailing-token message, spelling out the offending token.
pub open spec fn msg_unexpected_token(t: TokView) -> Seq<char> {
    "unexpected token: "@ + tok_source(t)
}

/// Succeeds exactly when `ts` holds no token at or after position `from`;
/// otherwise reports the first trailing token, spelled out in the message.
pub open spec fn spec_parse_as_empty(ts: Seq<TokView>, from: int) -> Result<(), ErrView> {
    if from < ts.len() {
        Err(arg_err(tv_span(ts[from]), msg_unexpected_token(ts[from])))
    } else {
        Ok(())
    }
}

/// Rejects trailing tokens: fails on the first token at or after `from`.
pub fn parse_as_empty(ts: &Vec<Token>, from: usize) -> (r: Result<(), Error>)
    ensures
        match r {
            Ok(()) => spec_parse_as_empty(toks_view(ts@), from as int) is Ok,
            Err(e) => spec_parse_as_empty(toks_view(ts@), from as int) == Err::<(), ErrView>(e@),
        },
{
    proof {
        lemma_toks_view(ts@);
    }
    if from < ts.len() {
        let mut msg = String::from_str("unexpected token: ");
        render_into(&mut msg, &ts[from]);
        Err(Error { kind: ErrorKind::ArgumentParse, span: ts[from].span(), msg })
    } else {
        Ok(())
    }
}

/// The spelling of `c` inside a double-quoted literal: quotes and backslashes
/// gain a backslash, every other character stands for itself.
pub open spec fn esc_char(c: char) -> Seq<char> {
    if c == '"' {
        "\\\""@
    } else if c == '\\' {
        "\\\\"@
    } else {
        seq![c]
    }
}

/// The message characters spelled for a double-quoted literal.
pub open spec fn escaped(msg: Seq<char>) -> Seq<char>
    decreases msg.len(),
{
    if msg.len() == 0 {
        Seq::empty()
    } else {
        escaped(msg.drop_last()) + esc_char(msg.last())
    }
}

/// The source spelling of `msg` as a double-quoted string literal.
pub open spec fn quoted_repr(msg: Seq<char>) -> Seq<char> {
    "\""@ + escaped(msg) + "\""@
}

/// The token sequence `compile_error ! { "msg" }`, every token carrying the
/// diagnostic's span.
pub open spec fn err_toks_view(e: ErrView) -> Seq<TokView> {
    seq![
        TokView::Ident { span: e.span, name: "compile_error"@ },
        TokView::Punct { span: e.span, ch: '!', spacing: Spacing::Alone },
        TokView::Group {
            span: e.span,
            delim: Delim::Brace,
            inner: seq![TokView::Literal { span: e.span, repr: quoted_repr(e.msg) }],
        },
    ]
}

/// Spells `msg` as a double-quoted string literal.
fn quote_msg(msg: &String) -> (r: String)
    ensures
        r@ == quoted_repr(msg@),
{
    let s = msg.as_str();
    let n = s.unicode_len();
    let mut acc = String::from_str("\"");
    let mut i: usize = 0;
    while i < n
        invariant
            i <= n,
            n as nat == msg@.len(),
            s@ == msg@,
            acc@ == "\""@ + escaped(msg@.subrange(0, i as int)),
        decreases n - i,
    {
        let c = s.get_char(i);
        if c == '"' {
            acc.append("\\\"");
        } else if c == '\\' {
            acc.append("\\\\");
        } else {
            acc.append(s.substring_char(i, i + 1));
        }
        proof {
            let pre = msg@.subrange(0, i as int);
            let cur = msg@.subrange(0, i + 1int);
            assert(cur.drop_last() =~= pre);
            assert(cur.last() == msg@[i as int]);
            assert(s@.subrange(i as int, i + 1int) =~= seq![msg@[i as int]]);
        }
        i += 1;
    }
    proof {
        assert(msg@.subrange(0, msg@.len() as int) =~= msg@);
    }
    acc.append("\"");
    acc
}

/// Renders a diagnostic as the tokens of `compile_error ! { "msg" }`, so that
/// substituting them for the expected output surfaces the message as a
/// compile failure at the diagnostic's span.
pub fn error_tokens(e: &Error) -> (out: Vec<Token>)
    ensures
        toks_view(out@) == err_toks_view(e@),
{
    let lit = Token::Literal { span: e.span, repr: quote_msg(&e.msg) };
    let mut inner: Vec<Token> = Vec::new();
    inner.push(lit);
    let mut out: Vec<Token> = Vec::new();
    out.push(Token::Ident { span: e.span, name: String::from_str("compile_error") });
    out.push(Token::Punct { span: e.span, ch: '!', spacing: Spacing::Alone });
    out.push(Token::Group { span: e.span, delim: Delim::Brace, toks: inner });
    proof {
        lemma_toks_view(out@);
        lemma_toks_view(out@[2]->Group_toks@);
        assert(toks_view(out@[2]->Group_toks@) =~= err_toks_view(e@)[2]->Group_inner);
        assert(toks_view(out@) =~= err_toks_view(e@));
    }
    out
}

} // verus!
