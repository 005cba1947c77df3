//! An attribute-style source rewriter that toggles the constancy qualifier on
//! a function declaration according to a compile-time predicate.
//!
//! The attribute's argument selects one of four predicate forms: a version
//! requirement written as a string literal, the bare identifier `nightly`, a
//! `cfg(...)` compilation condition, or a named `feature = "..."` toggle.
//! For the two version-testing forms the probed toolchain version decides
//! once whether the qualifier is kept, and a single copy of the declaration
//! is emitted.  For the two compilation-condition forms, two copies are
//! emitted under complementary guards: the original first under the guard,
//! then a copy with the qualifier stripped under the guard's negation.
//!
//! The rewriter works on the token model of [`token`]; a caller converts a
//! real token stream into that model, hands the argument tokens, the item
//! tokens, the probed [`version::Version`] and a fallback span identifier to
//! [`const_fn`], and converts the result back.

use vstd::prelude::*;

pub mod ast;
pub mod token;
pub mod utils;
pub mod version;

verus! {

use crate::token::{Delim, Spacing, TokView, Token, dup_toks, is_punct_ch, lemma_toks_view,
    toks_view, tv_span};
use crate::utils::{ErrView, Error, ErrorKind, arg_err, decl_err, err_toks_view, error_tokens,
    parse_as_empty, spec_parse_as_empty, spec_tt_span, tt_span};
use crate::ast::{Attr, AttrView, Func, FuncView, append_attr, parse_input, push_all, push_tok,
    ser_func, spec_parse_input, strip_const};
use crate::version::{Version, VersionReq, parse_version_req, spec_parse_version_req};

/// The parsed attribute argument: one of the four predicate forms.
#[derive(Debug, PartialEq)]
pub enum Arg {
    /// `"MAJOR.MINOR"`: keep the qualifier when the probed toolchain
    /// satisfies the requirement.
    Version(VersionReq),
    /// `nightly`: keep the qualifier on nightly and dev toolchains.
    Nightly,
    /// `cfg(...)`: emit two guarded copies under the condition's tokens.
    Cfg(Vec<Token>),
    /// `feature = "..."`: emit two guarded copies under the whole argument
    /// token sequence.
    Feature(Vec<Token>),
}

/// Ghost mirror of [`Arg`].
#[verifier::ext_equal]
pub enum ArgView {
    /// Mirror of [`Arg::Version`].
    Version(VersionReq),
    /// Mirror of [`Arg::Nightly`].
    Nightly,
    /// Mirror of [`Arg::Cfg`].
    Cfg(Seq<TokView>),
    /// Mirror of [`Arg::Feature`].
    Feature(Seq<TokView>),
}

/// The view of a parsed argument.
pub open spec fn arg_view(a: Arg) -> ArgView {
    match a {
        Arg::Version(r) => ArgView::Version(r),
        Arg::Nightly => ArgView::Nightly,
        Arg::Cfg(v) => ArgView::Cfg(toks_view(v@)),
        Arg::Feature(v) => ArgView::Feature(toks_view(v@)),
    }
}

impl View for Arg {
    type V = ArgView;

    open spec fn view(&self) -> ArgView {
        arg_view(*self)
    }
}

/// The message that lists the accepted argument forms.
pub open spec fn msg_forms() -> Seq<char> {
    "expected one of: nightly, cfg(...), feature = \"...\", or a version string literal"@
}

/// True when `repr` spells a double-quoted string literal.
pub open spec fn is_str_lit(repr: Seq<char>) -> bool {
    repr.len() >= 2 && repr[0] == '"' && repr[repr.len() - 1] == '"'
}

/// The characters between the quotes of a string literal's spelling.
pub open spec fn lit_value(repr: Seq<char>) -> Seq<char> {
    repr.subrange(1, repr.len() - 1)
}

/// Reading the attribute argument, trying the four forms in priority order:
/// the bare identifier `nightly`; `cfg` with a parenthesized group;
/// `feature`, `=` and a string literal; a single string literal holding a
/// version requirement.  Anything else fails with a message that lists the
/// accepted forms, anchored at the first offending token (or at `site` when
/// the argument is empty).
pub open spec fn spec_parse_arg(ts: Seq<TokView>, site: nat) -> Result<ArgView, ErrView> {
    if ts.len() == 0 {
        Err(arg_err(site, msg_forms()))
    } else {
        match ts[0] {
            TokView::Ident { name, .. } => if name == "nightly"@ {
                match spec_parse_as_empty(ts, 1) {
                    Err(e) => Err(e),
                    Ok(_) => Ok(ArgView::Nightly),
                }
            } else if name == "cfg"@ {
                if ts.len() >= 2 && ts[1] matches TokView::Group { delim: Delim::Paren, .. } {
                    if ts.len() > 2 {
                        Err(arg_err(tv_span(ts[2]), "expected nothing after the closing parenthesis"@))
                    } else {
                        Ok(ArgView::Cfg(ts[1]->Group_inner))
                    }
                } else {
                    Err(
                        arg_err(
                            spec_tt_span(
                                if ts.len() >= 2 {
                                    Some(ts[1])
                                } else {
                                    None
                                },
                                site,
                            ),
                            "expected `(`"@,
                        ),
                    )
                }
            } else if name == "feature"@ {
                if ts.len() >= 2 && is_punct_ch(ts[1], '=') {
                    if ts.len() >= 3 && (ts[2] matches TokView::Literal { repr, .. } && repr.len()
                        >= 1 && repr[0] == '"') {
                        match spec_parse_as_empty(ts, 3) {
                            Err(e) => Err(e),
                            Ok(_) => Ok(ArgView::Feature(ts)),
                        }
                    } else {
                        Err(
                            arg_err(
                                spec_tt_span(
                                    if ts.len() >= 3 {
                                        Some(ts[2])
                                    } else {
                                        None
                                    },
                                    site,
                                ),
                                "expected `=`"@,
                            ),
                        )
                    }
                } else {
                    Err(
                        arg_err(
                            spec_tt_span(
                                if ts.len() >= 2 {
                                    Some(ts[1])
                                } else {
                                    None
                                },
                                site,
                            ),
                            "expected `=`"@,
                        ),
                    )
                }
            } else {
                Err(arg_err(tv_span(ts[0]), msg_forms()))
            },
            TokView::Literal { span, repr } => if is_str_lit(repr) {
                match spec_parse_as_empty(ts, 1) {
                    Err(e) => Err(e),
                    Ok(_) => match spec_parse_version_req(lit_value(repr)) {
                        Ok(req) => Ok(ArgView::Version(req)),
                        Err(m) => Err(arg_err(span, m)),
                    },
                }
            } else {
                Err(arg_err(tv_span(ts[0]), msg_forms()))
            },
            _ => Err(arg_err(tv_span(ts[0]), msg_forms())),
        }
    }
}

/// The argument-form diagnostic at `span`.
fn mk_forms_err(span: usize) -> (e: Error)
    ensures
        e@ == arg_err(span as nat, msg_forms()),
{
    Error {
        kind: ErrorKind::ArgumentParse,
        span,
        msg: String::from_str(
            "expected one of: nightly, cfg(...), feature = \"...\", or a version string literal",
        ),
    }
}

/// Parses the attribute argument into an [`Arg`], or reports the first
/// offending token.
pub fn parse_arg(args: &Vec<Token>, site: usize) -> (r: Result<Arg, Error>)
    ensures
        match r {
            Ok(a) => spec_parse_arg(toks_view(args@), site as nat) == Ok::<ArgView, ErrView>(a@),
            Err(e) => spec_parse_arg(toks_view(args@), site as nat) == Err::<ArgView, ErrView>(e@),
        },
{
    proof {
        lemma_toks_view(args@);
    }
    let n = args.len();
    if n == 0 {
        return Err(mk_forms_err(site));
    }
    match &args[0] {
        Token::Ident { name, .. } => {
            if name.eq(&"nightly".to_owned()) {
                match parse_as_empty(args, 1) {
                    Err(e) => Err(e),
                    Ok(()) => Ok(Arg::Nightly),
                }
            } else if name.eq(&"cfg".to_owned()) {
                if n >= 2 {
                    match &args[1] {
                        Token::Group { delim: Delim::Paren, toks, .. } => {
                            if n > 2 {
                                Err(
                                    Error {
                                        kind: ErrorKind::ArgumentParse,
                                        span: args[2].span(),
                                        msg: String::from_str(
                                            "expected nothing after the closing parenthesis",
                                        ),
                                    },
                                )
                            } else {
                                Ok(Arg::Cfg(dup_toks(toks)))
                            }
                        },
                        _ => Err(
                            Error {
                                kind: ErrorKind::ArgumentParse,
                                span: args[1].span(),
                                msg: String::from_str("expected `(`"),
                            },
                        ),
                    }
                } else {
                    Err(
                        Error {
                            kind: ErrorKind::ArgumentParse,
                            span: site,
                            msg: String::from_str("expected `(`"),
                        },
                    )
                }
            } else if name.eq(&"feature".to_owned()) {
                if n >= 2 && is_eq_punct(&args[1]) {
                    if n >= 3 && lit_starts_quoted(&args[2]) {
                        match parse_as_empty(args, 3) {
                            Err(e) => Err(e),
                            Ok(()) => Ok(Arg::Feature(dup_toks(args))),
                        }
                    } else {
                        let span = tt_span(
                            if n >= 3 {
                                Some(&args[2])
                            } else {
                                None
                            },
                            site,
                        );
                        Err(
                            Error {
                                kind: ErrorKind::ArgumentParse,
                                span,
                                msg: String::from_str("expected `=`"),
                            },
                        )
                    }
                } else {
                    let span = tt_span(
                        if n >= 2 {
                            Some(&args[1])
                        } else {
                            None
                        },
                        site,
                    );
                    Err(
                        Error {
                            kind: ErrorKind::ArgumentParse,
                            span,
                            msg: String::from_str("expected `=`"),
                        },
                    )
                }
            } else {
                Err(mk_forms_err(args[0].span()))
            }
        },
        Token::Literal { span, repr } => {
            let rs = repr.as_str();
            let ln = rs.unicode_len();
            if ln >= 2 && rs.get_char(0) == '"' && rs.get_char(ln - 1) == '"' {
                match parse_as_empty(args, 1) {
                    Err(e) => Err(e),
                    Ok(()) => {
                        let inner = rs.substring_char(1, ln - 1);
                        match parse_version_req(inner) {
                            Ok(req) => Ok(Arg::Version(req)),
                            Err(m) => Err(
                                Error { kind: ErrorKind::ArgumentParse, span: *span, msg: m },
                            ),
                        }
                    },
                }
            } else {
                Err(mk_forms_err(args[0].span()))
            }
        },
        _ => Err(mk_forms_err(args[0].span())),
    }
}

/// True when `t` is the punctuation `=`.
fn is_eq_punct(t: &Token) -> (r: bool)
    ensures
        r == is_punct_ch(t@, '='),
{
    match t {
        Token::Punct { ch, .. } => *ch == '=',
        _ => false,
    }
}

/// True when `t` is a literal whose spelling opens with a double quote.
fn lit_starts_quoted(t: &Token) -> (r: bool)
    ensures
        r == (t@ matches TokView::Literal { repr, .. } && repr.len() >= 1 && repr[0] == '"'),
{
    match t {
        Token::Literal { repr, .. } => {
            let rs = repr.as_str();
            let ln = rs.unicode_len();
            ln >= 1 && rs.get_char(0) == '"'
        },
        _ => false,
    }
}

/// The guard attribute `#[cfg(<g>)]`, every synthesized token carrying the
/// invocation span `site`.
pub open spec fn cfg_attr(g: Seq<TokView>, site: nat) -> AttrView {
    AttrView {
        pound: TokView::Punct { span: site, ch: '#', spacing: Spacing::Alone },
        group: TokView::Group {
            span: site,
            delim: Delim::Bracket,
            inner: seq![
                TokView::Ident { span: site, name: "cfg"@ },
                TokView::Group { span: site, delim: Delim::Paren, inner: g },
            ],
        },
    }
}

/// The negated guard condition `not(<g>)`.
pub open spec fn not_guard(g: Seq<TokView>, site: nat) -> Seq<TokView> {
    seq![
        TokView::Ident { span: site, name: "not"@ },
        TokView::Group { span: site, delim: Delim::Paren, inner: g },
    ]
}

/// The two-copy output for a guard condition `g`: the original declaration
/// behind `#[cfg(g)]` emitted first, then a copy with the constancy
/// qualifier stripped and `#[cfg(not(g))]` appended to its attribute list.
pub open spec fn guarded_output(f: FuncView, g: Seq<TokView>, site: nat) -> Seq<TokView> {
    seq![cfg_attr(g, site).pound, cfg_attr(g, site).group] + ser_func(f) + ser_func(
        append_attr(strip_const(f), cfg_attr(not_guard(g, site), site)),
    )
}

/// The diagnostic for a guard-form predicate on a declaration without the
/// constancy qualifier.
pub open spec fn const_required_err(f: FuncView) -> ErrView {
    decl_err(f.sig_span, "this attribute may only be used on const functions"@)
}

/// The whole rewrite, as a value: parse the argument, parse the declaration,
/// and emit.  A version requirement keeps the declaration unchanged exactly
/// when its major is 1 and its minor is at most the probed minor, and
/// otherwise strips the qualifier; `nightly` keeps it exactly on nightly
/// toolchains; the two guard forms demand the qualifier and emit the two
/// guarded copies.  The first failure wins: a bad argument is reported before
/// the declaration is looked at.
pub open spec fn spec_expand(
    args: Seq<TokView>,
    input: Seq<TokView>,
    v: Version,
    site: nat,
) -> Result<Seq<TokView>, ErrView> {
    match spec_parse_arg(args, site) {
        Err(e) => Err(e),
        Ok(arg) => match spec_parse_input(input, site) {
            Err(e) => Err(e),
            Ok(f) => match arg {
                ArgView::Version(req) => Ok(
                    ser_func(
                        if req.major == 1 && req.minor <= v.minor {
                            f
                        } else {
                            strip_const(f)
                        },
                    ),
                ),
                ArgView::Nightly => Ok(
                    ser_func(
                        if v.nightly {
                            f
                        } else {
                            strip_const(f)
                        },
                    ),
                ),
                ArgView::Cfg(g) => if f.constness is None {
                    Err(const_required_err(f))
                } else {
                    Ok(guarded_output(f, g, site))
                },
                ArgView::Feature(g) => if f.constness is None {
                    Err(const_required_err(f))
                } else {
                    Ok(guarded_output(f, g, site))
                },
            },
        },
    }
}

/// Builds the guard attribute `#[cfg(<g>)]` from the condition tokens.
fn mk_cfg_attr(g: Vec<Token>, site: usize) -> (a: Attr)
    ensures
        a@ == cfg_attr(toks_view(g@), site as nat),
{
    let ghost gv = toks_view(g@);
    let mut inner: Vec<Token> = Vec::new();
    inner.push(Token::Ident { span: site, name: String::from_str("cfg") });
    inner.push(Token::Group { span: site, delim: Delim::Paren, toks: g });
    let a = Attr {
        pound: Token::Punct { span: site, ch: '#', spacing: Spacing::Alone },
        group: Token::Group { span: site, delim: Delim::Bracket, toks: inner },
    };
    proof {
        lemma_toks_view(inner@);
        assert(toks_view(inner@) =~= cfg_attr(gv, site as nat).group->Group_inner);
        assert(a@ =~= cfg_attr(gv, site as nat));
    }
    a
}

/// Builds the negated condition tokens `not(<g>)`.
fn mk_not_guard(g: Vec<Token>, site: usize) -> (v: Vec<Token>)
    ensures
        toks_view(v@) == not_guard(toks_view(g@), site as nat),
{
    let ghost gv = toks_view(g@);
    let mut v: Vec<Token> = Vec::new();
    v.push(Token::Ident { span: site, name: String::from_str("not") });
    v.push(Token::Group { span: site, delim: Delim::Paren, toks: g });
    proof {
        lemma_toks_view(v@);
        assert(toks_view(v@) =~= not_guard(gv, site as nat));
    }
    v
}

/// Emits the two guarded copies for a guard condition, or the qualifier
/// diagnostic when the declaration is not const.
fn expand_guarded(func: &Func, g: Vec<Token>, site: usize) -> (r: Result<Vec<Token>, Error>)
    ensures
        match r {
            Ok(out) => func@.constness is Some && toks_view(out@) == guarded_output(
                func@,
                toks_view(g@),
                site as nat,
            ),
            Err(e) => func@.constness is None && e@ == const_required_err(func@),
        },
{
    let ghost gv = toks_view(g@);
    match &func.constness {
        None => Err(
            Error {
                kind: ErrorKind::DeclarationShape,
                span: func.sig_span,
                msg: String::from_str("this attribute may only be used on const functions"),
            },
        ),
        Some(_) => {
            let guard = mk_cfg_attr(dup_toks(&g), site);
            let not_inner = mk_not_guard(g, site);
            let neg_guard = mk_cfg_attr(not_inner, site);
            let mut out: Vec<Token> = Vec::new();
            push_tok(&mut out, &guard.pound);
            push_tok(&mut out, &guard.group);
            let const_copy = func.to_token_stream();
            push_all(&mut out, &const_copy);
            let mut alt = func.with_constancy(false);
            alt.push_attr(neg_guard);
            let alt_toks = alt.to_token_stream();
            push_all(&mut out, &alt_toks);
            proof {
                assert((Seq::<TokView>::empty() + seq![cfg_attr(gv, site as nat).pound] + seq![
                    cfg_attr(gv, site as nat).group,
                ]) =~= seq![cfg_attr(gv, site as nat).pound, cfg_attr(gv, site as nat).group]);
            }
            Ok(out)
        },
    }
}

/// Runs the whole rewrite and hands back the output tokens, or the
/// diagnostic when the argument or the declaration is rejected.
pub fn expand(args: &Vec<Token>, input: &Vec<Token>, version: &Version, site: usize) -> (r: Result<
    Vec<Token>,
    Error,
>)
    ensures
        match r {
            Ok(out) => spec_expand(toks_view(args@), toks_view(input@), *version, site as nat)
                == Ok::<Seq<TokView>, ErrView>(toks_view(out@)),
            Err(e) => spec_expand(toks_view(args@), toks_view(input@), *version, site as nat)
                == Err::<Seq<TokView>, ErrView>(e@),
        },
{
    let arg = match parse_arg(args, site) {
        Ok(a) => a,
        Err(e) => {
            return Err(e);
        },
    };
    let func = match parse_input(input, site) {
        Ok(f) => f,
        Err(e) => {
            return Err(e);
        },
    };
    match arg {
        Arg::Version(req) => {
            let keep = req.major == 1 && (req.minor as u32) <= version.minor;
            Ok(func.with_constancy(keep).to_token_stream())
        },
        Arg::Nightly => Ok(func.with_constancy(version.nightly).to_token_stream()),
        Arg::Cfg(g) => expand_guarded(&func, g, site),
        Arg::Feature(g) => expand_guarded(&func, g, site),
    }
}

/// What [`const_fn`] emits: the rewrite's output tokens, or the diagnostic
/// rendered as a `compile_error!` invocation in their place.
pub open spec fn spec_const_fn(
    args: Seq<TokView>,
    input: Seq<TokView>,
    v: Version,
    site: nat,
) -> Seq<TokView> {
    match spec_expand(args, input, v, site) {
        Ok(out) => out,
        Err(e) => err_toks_view(e),
    }
}

/// The attribute's entry point over the token model: rewrites the annotated
/// declaration according to the argument's predicate, substituting a
/// `compile_error!` invocation at the offending span when the argument or
/// the declaration is rejected.
pub fn const_fn(args: &Vec<Token>, input: &Vec<Token>, version: &Version, site: usize) -> (out:
    Vec<Token>)
    ensures
        toks_view(out@) == spec_const_fn(toks_view(args@), toks_view(input@), *version, site as nat),
{
    match expand(args, input, version, site) {
        Ok(out) => out,
        Err(e) => error_tokens(&e),
    }
}

/// A version-requirement predicate emits a single copy: the declaration
/// unchanged when its major is 1 and its minor is at most the probed minor,
/// and the declaration with the constancy qualifier stripped otherwise.
pub proof fn lemma_version_predicate(
    args: Seq<TokView>,
    input: Seq<TokView>,
    v: Version,
    site: nat,
    req: VersionReq,
    f: FuncView,
)
    requires
        spec_parse_arg(args, site) == Ok::<ArgView, ErrView>(ArgView::Version(req)),
        spec_parse_input(input, site) == Ok::<FuncView, ErrView>(f),
    ensures
        req.major == 1 && req.minor <= v.minor ==> spec_expand(args, input, v, site) == Ok::<
            Seq<TokView>,
            ErrView,
        >(ser_func(f)),
        !(req.major == 1 && req.minor <= v.minor) ==> spec_expand(args, input, v, site) == Ok::<
            Seq<TokView>,
            ErrView,
        >(ser_func(strip_const(f))),
{
}

/// The `nightly` predicate toggles symmetrically with the probed nightly
/// flag: the one emitted copy is the declaration unchanged on a nightly
/// toolchain, and the declaration with the qualifier stripped on any other.
pub proof fn lemma_nightly_predicate(
    args: Seq<TokView>,
    input: Seq<TokView>,
    site: nat,
    f: FuncView,
    v1: Version,
    v2: Version,
)
    requires
        spec_parse_arg(args, site) == Ok::<ArgView, ErrView>(ArgView::Nightly),
        spec_parse_input(input, site) == Ok::<FuncView, ErrView>(f),
        v1.nightly,
        !v2.nightly,
    ensures
        spec_expand(args, input, v1, site) == Ok::<Seq<TokView>, ErrView>(ser_func(f)),
        spec_expand(args, input, v2, site) == Ok::<Seq<TokView>, ErrView>(
            ser_func(strip_const(f)),
        ),
{
}

/// A guard-form predicate on a const declaration emits exactly two copies:
/// the original behind its guard, then a copy that differs from the original
/// only in the dropped constancy qualifier and in the one appended guard
/// attribute, whose condition wraps the first guard's condition in `not`.
pub proof fn lemma_guard_two_copies(
    args: Seq<TokView>,
    input: Seq<TokView>,
    v: Version,
    site: nat,
    g: Seq<TokView>,
    f: FuncView,
)
    requires
        spec_parse_arg(args, site) == Ok::<ArgView, ErrView>(ArgView::Cfg(g)) || spec_parse_arg(
            args,
            site,
        ) == Ok::<ArgView, ErrView>(ArgView::Feature(g)),
        spec_parse_input(input, site) == Ok::<FuncView, ErrView>(f),
        f.constness is Some,
    ensures
        ({
            let guard = cfg_attr(g, site);
            let neg = cfg_attr(not_guard(g, site), site);
            let alt = append_attr(strip_const(f), neg);
            &&& spec_expand(args, input, v, site) == Ok::<Seq<TokView>, ErrView>(
                seq![guard.pound, guard.group] + ser_func(f) + ser_func(alt),
            )
            &&& alt.attrs == f.attrs.push(neg)
            &&& alt.constness is None
            &&& alt.vis == f.vis
            &&& alt.asyncness == f.asyncness
            &&& alt.safety == f.safety
            &&& alt.linkage == f.linkage
            &&& alt.fn_token == f.fn_token
            &&& alt.name == f.name
            &&& alt.generics == f.generics
            &&& alt.params == f.params
            &&& alt.ret == f.ret
            &&& alt.body == f.body
            &&& guard.group->Group_inner == seq![
                TokView::Ident { span: site, name: "cfg"@ },
                TokView::Group { span: site, delim: Delim::Paren, inner: g },
            ]
            &&& neg.group->Group_inner == seq![
                TokView::Ident { span: site, name: "cfg"@ },
                TokView::Group {
                    span: site,
                    delim: Delim::Paren,
                    inner: seq![
                        TokView::Ident { span: site, name: "not"@ },
                        TokView::Group { span: site, delim: Delim::Paren, inner: g },
                    ],
                },
            ]
        }),
{
}

/// A guard-form predicate on a declaration that lacks the constancy
/// qualifier always fails with the declaration-shape diagnostic anchored at
/// the declaration's leading signature token; it never emits a single copy.
pub proof fn lemma_guard_requires_const(
    args: Seq<TokView>,
    input: Seq<TokView>,
    v: Version,
    site: nat,
    g: Seq<TokView>,
    f: FuncView,
)
    requires
        spec_parse_arg(args, site) == Ok::<ArgView, ErrView>(ArgView::Cfg(g)) || spec_parse_arg(
            args,
            site,
        ) == Ok::<ArgView, ErrView>(ArgView::Feature(g)),
        spec_parse_input(input, site) == Ok::<FuncView, ErrView>(f),
        f.constness is None,
    ensures
        spec_expand(args, input, v, site) == Err::<Seq<TokView>, ErrView>(const_required_err(f)),
        const_required_err(f).kind == ErrorKind::DeclarationShape,
        const_required_err(f).span == f.sig_span,
{
}

/// An empty attribute argument always fails with the argument-parse
/// diagnostic that lists the accepted forms, whatever the annotated
/// declaration holds.
pub proof fn lemma_empty_args(input: Seq<TokView>, v: Version, site: nat)
    ensures
        spec_expand(Seq::empty(), input, v, site) == Err::<Seq<TokView>, ErrView>(
            arg_err(site, msg_forms()),
        ),
        arg_err(site, msg_forms()).kind == ErrorKind::ArgumentParse,
{
}

} // verus!
