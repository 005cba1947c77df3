//! The declaration model: a structural representation of a function-like
//! item, rich enough to toggle its constancy qualifier and re-emit every
//! other token unchanged.
//!
//! A declaration is parsed into attributes, visibility, the qualifiers in
//! their canonical source order (constancy, asyncness, safety, linkage with
//! an optional ABI literal), the `fn` keyword, the name, the generic
//! parameter tokens, the parameter group, the tokens between the parameters
//! and the body (return type and bounds), and the body group.  Serialization
//! re-emits exactly these pieces in the same order, so a parse followed by a
//! serialization reproduces the input token for token.

use vstd::prelude::*;

verus! {

use crate::token::{
    Delim, Spacing, TokView, Token, dup_toks, is_group_delim, is_ident_named, is_punct_ch,
    lemma_toks_view, tok_view, toks_view, tv_span,
};
use crate::utils::{ErrView, Error, ErrorKind, decl_err};

/// One outer attribute: the `#` punctuation and the bracketed group after it.
#[derive(Debug)]
pub struct Attr {
    /// The `#` token.
    pub pound: Token,
    /// The bracketed group holding the attribute's path and arguments.
    pub group: Token,
}

/// Ghost mirror of [`Attr`].
#[verifier::ext_equal]
pub struct AttrView {
    /// Mirror of [`Attr::pound`].
    pub pound: TokView,
    /// Mirror of [`Attr::group`].
    pub group: TokView,
}

/// The view of an attribute.
pub open spec fn attr_view(a: Attr) -> AttrView {
    AttrView { pound: tok_view(a.pound), group: tok_view(a.group) }
}

impl View for Attr {
    type V = AttrView;

    open spec fn view(&self) -> AttrView {
        attr_view(*self)
    }
}

/// The views of a sequence of attributes.
pub open spec fn attrs_view(s: Seq<Attr>) -> Seq<AttrView> {
    Seq::new(s.len(), |i: int| attr_view(s[i]))
}

/// A function declaration, split into the pieces the rewriter must tell
/// apart.  Every token is kept verbatim; the constancy qualifier is the only
/// piece the rewriter ever changes.
#[derive(Debug)]
pub struct Func {
    /// The outer attributes, in source order.
    pub attrs: Vec<Attr>,
    /// The visibility tokens: empty, `pub`, or `pub` followed by a
    /// parenthesized restriction.
    pub vis: Vec<Token>,
    /// The constancy qualifier, when present.
    pub constness: Option<Token>,
    /// The asyncness qualifier, when present.
    pub asyncness: Option<Token>,
    /// The safety qualifier, when present.
    pub safety: Option<Token>,
    /// The linkage qualifier with its optional ABI literal: empty, one
    /// keyword token, or keyword plus literal.
    pub linkage: Vec<Token>,
    /// The `fn` keyword token.
    pub fn_token: Token,
    /// The function's name.
    pub name: Token,
    /// The generic parameter tokens, from `<` to the matching `>`; empty
    /// when the declaration has none.
    pub generics: Vec<Token>,
    /// The parenthesized parameter group.
    pub params: Token,
    /// The tokens between the parameter group and the body: return type and
    /// bounds, kept verbatim.
    pub ret: Vec<Token>,
    /// The braced body group.
    pub body: Token,
    /// The span of the first signature token (after the attributes), where
    /// diagnostics about the declaration's shape are anchored.
    pub sig_span: usize,
}

/// Ghost mirror of [`Func`].
#[verifier::ext_equal]
pub struct FuncView {
    /// Mirror of [`Func::attrs`].
    pub attrs: Seq<AttrView>,
    /// Mirror of [`Func::vis`].
    pub vis: Seq<TokView>,
    /// Mirror of [`Func::constness`].
    pub constness: Option<TokView>,
    /// Mirror of [`Func::asyncness`].
    pub asyncness: Option<TokView>,
    /// Mirror of [`Func::safety`].
    pub safety: Option<TokView>,
    /// Mirror of [`Func::linkage`].
    pub linkage: Seq<TokView>,
    /// Mirror of [`Func::fn_token`].
    pub fn_token: TokView,
    /// Mirror of [`Func::name`].
    pub name: TokView,
    /// Mirror of [`Func::generics`].
    pub generics: Seq<TokView>,
    /// Mirror of [`Func::params`].
    pub params: TokView,
    /// Mirror of [`Func::ret`].
    pub ret: Seq<TokView>,
    /// Mirror of [`Func::body`].
    pub body: TokView,
    /// Mirror of [`Func::sig_span`].
    pub sig_span: nat,
}

/// The view of an optional token.
pub open spec fn opt_view(o: Option<Token>) -> Option<TokView> {
    match o {
        Some(t) => Some(tok_view(t)),
        None => None,
    }
}

/// The view of a function declaration.
pub open spec fn func_view(f: Func) -> FuncView {
    FuncView {
        attrs: attrs_view(f.attrs@),
        vis: toks_view(f.vis@),
        constness: opt_view(f.constness),
        asyncness: opt_view(f.asyncness),
        safety: opt_view(f.safety),
        linkage: toks_view(f.linkage@),
        fn_token: tok_view(f.fn_token),
        name: tok_view(f.name),
        generics: toks_view(f.generics@),
        params: tok_view(f.params),
        ret: toks_view(f.ret@),
        body: tok_view(f.body),
        sig_span: f.sig_span as nat,
    }
}

impl View for Func {
    type V = FuncView;

    open spec fn view(&self) -> FuncView {
        func_view(*self)
    }
}

/// The spelling of the safety qualifier keyword.
pub open spec fn kw_safety() -> Seq<char> {
    seq!['u', 'n', 's', 'a', 'f', 'e']
}

/// The spelling of the linkage qualifier keyword.
pub open spec fn kw_linkage() -> Seq<char> {
    seq!['e', 'x', 't', 'e', 'r', 'n']
}

/// The position after the outer attributes that start at `i`: pairs of a `#`
/// punctuation and a bracketed group, taken greedily.
pub open spec fn attrs_end(ts: Seq<TokView>, i: int) -> int
    decreases ts.len() - i,
{
    if i + 2 <= ts.len() && is_punct_ch(ts[i], '#') && is_group_delim(ts[i + 1], Delim::Bracket) {
        attrs_end(ts, i + 2)
    } else {
        i
    }
}

/// The outer attributes that start at `i`.
pub open spec fn attrs_list(ts: Seq<TokView>, i: int) -> Seq<AttrView>
    decreases ts.len() - i,
{
    if i + 2 <= ts.len() && is_punct_ch(ts[i], '#') && is_group_delim(ts[i + 1], Delim::Bracket) {
        seq![AttrView { pound: ts[i], group: ts[i + 1] }] + attrs_list(ts, i + 2)
    } else {
        Seq::empty()
    }
}

/// The position after the visibility at `i`: nothing, `pub`, or `pub`
/// followed by a parenthesized restriction.
pub open spec fn vis_end(ts: Seq<TokView>, i: int) -> int {
    if i < ts.len() && is_ident_named(ts[i], "pub"@) {
        if i + 1 < ts.len() && is_group_delim(ts[i + 1], Delim::Paren) {
            i + 2
        } else {
            i + 1
        }
    } else {
        i
    }
}

/// The position after an optional single-keyword qualifier at `i`.
pub open spec fn opt_kw_end(ts: Seq<TokView>, i: int, kw: Seq<char>) -> int {
    if i < ts.len() && is_ident_named(ts[i], kw) {
        i + 1
    } else {
        i
    }
}

/// The position after the optional linkage qualifier at `i`: nothing, the
/// keyword alone, or the keyword with an ABI literal.
pub open spec fn linkage_end(ts: Seq<TokView>, i: int) -> int {
    if i < ts.len() && is_ident_named(ts[i], kw_linkage()) {
        if i + 1 < ts.len() && ts[i + 1] is Literal {
            i + 2
        } else {
            i + 1
        }
    } else {
        i
    }
}

/// The position after the generic parameter list whose opening `<` stands at
/// `i`.  `depth` counts unmatched `<`; `arrow` is true right after a joint
/// `-`, so that the `>` of an arrow does not close the list.
pub open spec fn generics_end(ts: Seq<TokView>, i: int, depth: int, arrow: bool) -> Option<int>
    decreases ts.len() - i,
{
    if i >= ts.len() {
        None
    } else {
        match ts[i] {
            TokView::Punct { ch, spacing, .. } => if ch == '<' {
                generics_end(ts, i + 1, depth + 1, false)
            } else if ch == '>' && arrow {
                generics_end(ts, i + 1, depth, false)
            } else if ch == '>' && depth == 1 {
                Some(i + 1)
            } else if ch == '>' {
                generics_end(ts, i + 1, depth - 1, false)
            } else if ch == '-' && spacing == Spacing::Joint {
                generics_end(ts, i + 1, depth, true)
            } else {
                generics_end(ts, i + 1, depth, false)
            },
            _ => generics_end(ts, i + 1, depth, false),
        }
    }
}

/// A found generic-list end lies inside the sequence, after its start.
pub proof fn lemma_generics_end_range(ts: Seq<TokView>, i: int, depth: int, arrow: bool)
    ensures
        generics_end(ts, i, depth, arrow) matches Some(g) ==> i < g <= ts.len(),
    decreases ts.len() - i,
{
    if i < ts.len() {
        match ts[i] {
            TokView::Punct { ch, spacing, .. } => if ch == '<' {
                lemma_generics_end_range(ts, i + 1, depth + 1, false);
            } else if ch == '>' && arrow {
                lemma_generics_end_range(ts, i + 1, depth, false);
            } else if ch == '>' && depth == 1 {
            } else if ch == '>' {
                lemma_generics_end_range(ts, i + 1, depth - 1, false);
            } else if ch == '-' && spacing == Spacing::Joint {
                lemma_generics_end_range(ts, i + 1, depth, true);
            } else {
                lemma_generics_end_range(ts, i + 1, depth, false);
            },
            _ => lemma_generics_end_range(ts, i + 1, depth, false),
        }
    }
}

/// The declaration-shape diagnostic, anchored at the item's leading token
/// (or at the whole invocation when the item is empty).
pub open spec fn shape_err(ts: Seq<TokView>, site: nat) -> ErrView {
    decl_err(
        if ts.len() == 0 {
            site
        } else {
            tv_span(ts[0])
        },
        "expected a function"@,
    )
}

/// Reading a declaration: attributes, visibility, qualifiers in canonical
/// order, `fn`, name, optional generics, the parameter group, the return
/// tokens, and a braced body closing the item.  Anything else is a shape
/// error at the item's leading token.
pub open spec fn spec_parse_input(ts: Seq<TokView>, site: nat) -> Result<FuncView, ErrView> {
    let a = attrs_end(ts, 0);
    let v = vis_end(ts, a);
    let c = opt_kw_end(ts, v, "const"@);
    let y = opt_kw_end(ts, c, "async"@);
    let u = opt_kw_end(ts, y, kw_safety());
    let x = linkage_end(ts, u);
    if !(x < ts.len() && is_ident_named(ts[x], "fn"@)) {
        Err(shape_err(ts, site))
    } else if !(x + 1 < ts.len() && ts[x + 1] is Ident) {
        Err(shape_err(ts, site))
    } else {
        let gs = x + 2;
        let ge = if gs < ts.len() && is_punct_ch(ts[gs], '<') {
            generics_end(ts, gs, 0, false)
        } else {
            Some(gs)
        };
        match ge {
            None => Err(shape_err(ts, site)),
            Some(g) => if !(g < ts.len() && is_group_delim(ts[g], Delim::Paren)) {
                Err(shape_err(ts, site))
            } else if !(g + 2 <= ts.len() && is_group_delim(ts[ts.len() - 1], Delim::Brace)) {
                Err(shape_err(ts, site))
            } else {
                Ok(
                    FuncView {
                        attrs: attrs_list(ts, 0),
                        vis: ts.subrange(a, v),
                        constness: if c > v {
                            Some(ts[v])
                        } else {
                            None
                        },
                        asyncness: if y > c {
                            Some(ts[c])
                        } else {
                            None
                        },
                        safety: if u > y {
                            Some(ts[y])
                        } else {
                            None
                        },
                        linkage: ts.subrange(u, x),
                        fn_token: ts[x],
                        name: ts[x + 1],
                        generics: ts.subrange(gs, g),
                        params: ts[g],
                        ret: ts.subrange(g + 1, ts.len() - 1),
                        body: ts[ts.len() - 1],
                        sig_span: tv_span(ts[a]),
                    },
                )
            },
        }
    }
}

/// The serialization of an attribute list: `#` and group for each attribute,
/// in order.
pub open spec fn ser_attrs(attrs: Seq<AttrView>) -> Seq<TokView>
    decreases attrs.len(),
{
    if attrs.len() == 0 {
        Seq::empty()
    } else {
        seq![attrs[0].pound, attrs[0].group] + ser_attrs(attrs.drop_first())
    }
}

/// The serialization of an optional qualifier token.
pub open spec fn opt_toks(o: Option<TokView>) -> Seq<TokView> {
    match o {
        Some(t) => seq![t],
        None => Seq::empty(),
    }
}

/// The serialization of a declaration: attributes, visibility, qualifiers in
/// canonical order, `fn`, name, generics, parameters, return tokens, body.
pub open spec fn ser_func(f: FuncView) -> Seq<TokView> {
    ser_attrs(f.attrs) + f.vis + opt_toks(f.constness) + opt_toks(f.asyncness) + opt_toks(f.safety)
        + f.linkage + seq![f.fn_token, f.name] + f.generics + seq![f.params] + f.ret + seq![f.body]
}

/// `f` with the constancy qualifier removed and all other pieces unchanged.
pub open spec fn strip_const(f: FuncView) -> FuncView {
    FuncView { constness: None, ..f }
}

/// `f` with one more attribute at the end of its attribute list and all
/// other pieces unchanged.
pub open spec fn append_attr(f: FuncView, a: AttrView) -> FuncView {
    FuncView { attrs: f.attrs.push(a), ..f }
}

/// The attributes read from position `i` occupy exactly the tokens up to
/// `attrs_end`, and serialize back to them.
pub proof fn lemma_attrs_roundtrip(ts: Seq<TokView>, i: int)
    requires
        0 <= i <= ts.len(),
    ensures
        i <= attrs_end(ts, i) <= ts.len(),
        ser_attrs(attrs_list(ts, i)) == ts.subrange(i, attrs_end(ts, i)),
    decreases ts.len() - i,
{
    if i + 2 <= ts.len() && is_punct_ch(ts[i], '#') && is_group_delim(ts[i + 1], Delim::Bracket) {
        lemma_attrs_roundtrip(ts, i + 2);
        let av = AttrView { pound: ts[i], group: ts[i + 1] };
        let l = attrs_list(ts, i + 2);
        let s = seq![av] + l;
        let e = attrs_end(ts, i + 2);
        assert(s[0] == av);
        assert(s.drop_first() =~= l);
        assert(ser_attrs(s) == seq![av.pound, av.group] + ser_attrs(l));
        assert(seq![av.pound, av.group] + ts.subrange(i + 2, e) =~= ts.subrange(i, e));
    } else {
        assert(ser_attrs(attrs_list(ts, i)) =~= ts.subrange(i, i));
    }
}

/// Serialization inverts parsing: a declaration read from `ts` and written
/// back without mutation reproduces `ts` token for token.
#[verifier::rlimit(100)]
pub proof fn lemma_parse_serialize_roundtrip(ts: Seq<TokView>, site: nat)
    ensures
        spec_parse_input(ts, site) matches Ok(f) ==> ser_func(f) == ts,
{
    if spec_parse_input(ts, site) is Ok {
        let f = spec_parse_input(ts, site)->Ok_0;
        let n = ts.len() as int;
        let a = attrs_end(ts, 0);
        let v = vis_end(ts, a);
        let c = opt_kw_end(ts, v, "const"@);
        let y = opt_kw_end(ts, c, "async"@);
        let u = opt_kw_end(ts, y, kw_safety());
        let x = linkage_end(ts, u);
        let gs = x + 2;
        lemma_attrs_roundtrip(ts, 0);
        let ge = if gs < ts.len() && is_punct_ch(ts[gs], '<') {
            generics_end(ts, gs, 0, false)
        } else {
            Some(gs)
        };
        lemma_generics_end_range(ts, gs, 0, false);
        let gg = ge->0;
        let w0 = ser_attrs(f.attrs);
        let w1 = w0 + f.vis;
        let w2 = w1 + opt_toks(f.constness);
        let w3 = w2 + opt_toks(f.asyncness);
        let w4 = w3 + opt_toks(f.safety);
        let w5 = w4 + f.linkage;
        let w6 = w5 + seq![f.fn_token, f.name];
        let w7 = w6 + f.generics;
        let w8 = w7 + seq![f.params];
        let w9 = w8 + f.ret;
        let w10 = w9 + seq![f.body];
        assert(ser_func(f) == w10);
        assert(w1 =~= ts.subrange(0, v));
        assert(w2 =~= ts.subrange(0, c));
        assert(w3 =~= ts.subrange(0, y));
        assert(w4 =~= ts.subrange(0, u));
        assert(w5 =~= ts.subrange(0, x));
        assert(w6 =~= ts.subrange(0, x + 2));
        assert(w7 =~= ts.subrange(0, gg));
        assert(w8 =~= ts.subrange(0, gg + 1));
        assert(w9 =~= ts.subrange(0, n - 1));
        assert(w10 =~= ts.subrange(0, n));
        assert(ts.subrange(0, n) =~= ts);
    }
}

/// True when `t` is the identifier spelled like `kw`.
fn is_ident_str(t: &Token, kw: &str) -> (r: bool)
    ensures
        r == is_ident_named(t@, kw@),
{
    match t {
        Token::Ident { name, .. } => name.eq(&kw.to_owned()),
        _ => false,
    }
}

/// True when `t` is the identifier spelled like the six given characters.
fn is_ident_chars6(t: &Token, c0: char, c1: char, c2: char, c3: char, c4: char, c5: char) -> (r:
    bool)
    ensures
        r == is_ident_named(t@, seq![c0, c1, c2, c3, c4, c5]),
{
    let ghost kw = seq![c0, c1, c2, c3, c4, c5];
    proof {
        assert(kw.len() == 6);
        assert(kw[0] == c0 && kw[1] == c1 && kw[2] == c2 && kw[3] == c3 && kw[4] == c4 && kw[5]
            == c5);
    }
    match t {
        Token::Ident { name, .. } => {
            let s = name.as_str();
            let n = s.unicode_len();
            if n != 6 {
                return false;
            }
            let r = s.get_char(0) == c0 && s.get_char(1) == c1 && s.get_char(2) == c2 && s.get_char(
                3,
            ) == c3 && s.get_char(4) == c4 && s.get_char(5) == c5;
            proof {
                if r {
                    assert(name@ =~= kw);
                }
            }
            r
        },
        _ => false,
    }
}

/// True when `t` is the punctuation character `c`, with any spacing.
fn is_punct_char(t: &Token, c: char) -> (r: bool)
    ensures
        r == is_punct_ch(t@, c),
{
    match t {
        Token::Punct { ch, .. } => *ch == c,
        _ => false,
    }
}

/// True when `t` is a group with delimiter `d`.
fn is_group_with(t: &Token, d: Delim) -> (r: bool)
    ensures
        r == is_group_delim(t@, d),
{
    match t {
        Token::Group { delim, .. } => *delim == d,
        _ => false,
    }
}

/// True when `t` is any identifier.
fn is_any_ident(t: &Token) -> (r: bool)
    ensures
        r == (t@ is Ident),
{
    match t {
        Token::Ident { .. } => true,
        _ => false,
    }
}

/// True when `t` is any literal.
fn is_any_literal(t: &Token) -> (r: bool)
    ensures
        r == (t@ is Literal),
{
    match t {
        Token::Literal { .. } => true,
        _ => false,
    }
}

/// The declaration-shape diagnostic for this input.
fn mk_shape_err(input: &Vec<Token>, site: usize) -> (e: Error)
    ensures
        e@ == shape_err(toks_view(input@), site as nat),
{
    proof {
        lemma_toks_view(input@);
    }
    let span = if input.len() == 0 {
        site
    } else {
        input[0].span()
    };
    Error { kind: ErrorKind::DeclarationShape, span, msg: String::from_str("expected a function") }
}

/// Scans a generic parameter list that starts with the `<` at `gs`, and
/// hands back its tokens together with the position after the closing `>`.
fn scan_generics(input: &Vec<Token>, gs: usize, site: usize) -> (r: Result<
    (Vec<Token>, usize),
    Error,
>)
    requires
        gs < input@.len(),
        is_punct_ch(toks_view(input@)[gs as int], '<'),
    ensures
        match r {
            Ok((toks, g)) => {
                &&& generics_end(toks_view(input@), gs as int, 0, false) == Some(g as int)
                &&& toks_view(toks@) == toks_view(input@).subrange(gs as int, g as int)
                &&& gs < g <= input@.len()
            },
            Err(e) => {
                &&& generics_end(toks_view(input@), gs as int, 0, false) is None
                &&& e@ == shape_err(toks_view(input@), site as nat)
            },
        },
{
    let ghost ts = toks_view(input@);
    proof {
        lemma_toks_view(input@);
    }
    let n = input.len();
    let mut out: Vec<Token> = Vec::new();
    let mut i: usize = gs;
    let mut depth: usize = 0;
    let mut arrow = false;
    loop
        invariant
            gs <= i <= n,
            n == input@.len(),
            ts == toks_view(input@),
            is_punct_ch(ts[gs as int], '<'),
            toks_view(input@).len() == n as nat,
            forall|j: int| 0 <= j < n ==> ts[j] == tok_view(input@[j]),
            depth as int <= i as int - gs as int,
            i == gs ==> depth == 0 && !arrow,
            i > gs ==> depth >= 1,
            generics_end(ts, gs as int, 0, false) == generics_end(ts, i as int, depth as int, arrow),
            out@.len() == i - gs,
            forall|j: int| 0 <= j < out@.len() ==> tok_view(out@[j]) == ts[gs + j],
        decreases n - i,
    {
        if i >= n {
            return Err(mk_shape_err(input, site));
        }
        let t = &input[i];
        match t {
            Token::Punct { ch, spacing, .. } => {
                if *ch == '<' {
                    depth = depth + 1;
                    arrow = false;
                } else if *ch == '>' && arrow {
                    arrow = false;
                } else if *ch == '>' && depth == 1 {
                    out.push(t.dup());
                    proof {
                        assert(toks_view(out@) =~= ts.subrange(gs as int, i + 1int)) by {
                            lemma_toks_view(out@);
                        }
                    }
                    return Ok((out, i + 1));
                } else if *ch == '>' {
                    depth = depth - 1;
                    arrow = false;
                } else if *ch == '-' && matches!(spacing, Spacing::Joint) {
                    arrow = true;
                } else {
                    arrow = false;
                }
            },
            _ => {
                arrow = false;
            },
        }
        out.push(t.dup());
        i = i + 1;
    }
}

/// Parses the attributes, visibility, and qualifiers that precede the `fn`
/// keyword, and hands back the pieces with the positions where the next
/// stage continues: the position after the qualifiers and the position of
/// the first signature token.
#[verifier::rlimit(100)]
fn parse_header(input: &Vec<Token>) -> (h: (
    Vec<Attr>,
    Vec<Token>,
    Option<Token>,
    Option<Token>,
    Option<Token>,
    Vec<Token>,
    usize,
    usize,
))
    ensures
        ({
            let ts = toks_view(input@);
            let a = attrs_end(ts, 0);
            let v = vis_end(ts, a);
            let c = opt_kw_end(ts, v, "const"@);
            let y = opt_kw_end(ts, c, "async"@);
            let u = opt_kw_end(ts, y, kw_safety());
            let x = linkage_end(ts, u);
            &&& attrs_view(h.0@) == attrs_list(ts, 0)
            &&& toks_view(h.1@) == ts.subrange(a, v)
            &&& opt_view(h.2) == (if c > v {
                Some(ts[v])
            } else {
                None::<TokView>
            })
            &&& opt_view(h.3) == (if y > c {
                Some(ts[c])
            } else {
                None::<TokView>
            })
            &&& opt_view(h.4) == (if u > y {
                Some(ts[y])
            } else {
                None::<TokView>
            })
            &&& toks_view(h.5@) == ts.subrange(u, x)
            &&& h.6 as int == x
            &&& h.7 as int == a
            &&& 0 <= a <= v <= c <= y <= u <= x <= ts.len()
        }),
{
    let ghost ts = toks_view(input@);
    proof {
        lemma_toks_view(input@);
    }
    let n = input.len();
    // Outer attributes.
    let mut attrs: Vec<Attr> = Vec::new();
    let mut i: usize = 0;
    while i < n && n - i >= 2 && is_punct_char(&input[i], '#') && is_group_with(
        &input[i + 1],
        Delim::Bracket,
    )
        invariant
            i <= n,
            n == input@.len(),
            ts == toks_view(input@),
            toks_view(input@).len() == n as nat,
            forall|j: int| 0 <= j < n ==> ts[j] == tok_view(input@[j]),
            attrs_end(ts, 0) == attrs_end(ts, i as int),
            attrs_list(ts, 0) == attrs_view(attrs@) + attrs_list(ts, i as int),
        decreases n - i,
    {
        let a = Attr { pound: input[i].dup(), group: input[i + 1].dup() };
        proof {
            let av = AttrView { pound: ts[i as int], group: ts[i + 1] };
            assert(attrs_view(attrs@.push(a)) =~= attrs_view(attrs@).push(av));
            assert(attrs_list(ts, i as int) == seq![av] + attrs_list(ts, i + 2));
            assert(attrs_view(attrs@).push(av) + attrs_list(ts, i + 2) =~= attrs_view(attrs@) + (
            seq![av] + attrs_list(ts, i + 2)));
        }
        attrs.push(a);
        i = i + 2;
    }
    let sig_i = i;
    let ghost a_end = i as int;
    proof {
        assert(attrs_end(ts, i as int) == i as int);
        assert(attrs_list(ts, i as int) =~= Seq::<AttrView>::empty());
        assert(attrs_view(attrs@) + Seq::<AttrView>::empty() =~= attrs_view(attrs@));
        assert(attrs_list(ts, 0) == attrs_view(attrs@));
    }
    // Visibility.
    let mut vis: Vec<Token> = Vec::new();
    if i < n && is_ident_str(&input[i], "pub") {
        vis.push(input[i].dup());
        i = i + 1;
        if i < n && is_group_with(&input[i], Delim::Paren) {
            vis.push(input[i].dup());
            i = i + 1;
        }
    }
    let ghost v_end = i as int;
    proof {
        lemma_toks_view(vis@);
        assert(vis_end(ts, a_end) == v_end);
        assert(toks_view(vis@) =~= ts.subrange(a_end, v_end));
    }
    // Qualifiers in canonical order.
    let constness: Option<Token> = if i < n && is_ident_str(&input[i], "const") {
        let t = input[i].dup();
        i = i + 1;
        Some(t)
    } else {
        None
    };
    let ghost c_end = i as int;
    proof {
        assert(opt_kw_end(ts, v_end, "const"@) == c_end);
    }
    let asyncness: Option<Token> = if i < n && is_ident_str(&input[i], "async") {
        let t = input[i].dup();
        i = i + 1;
        Some(t)
    } else {
        None
    };
    let ghost y_end = i as int;
    proof {
        assert(opt_kw_end(ts, c_end, "async"@) == y_end);
    }
    let safety: Option<Token> = if i < n && is_ident_chars6(
        &input[i],
        'u',
        'n',
        's',
        'a',
        'f',
        'e',
    ) {
        let t = input[i].dup();
        i = i + 1;
        Some(t)
    } else {
        None
    };
    let ghost u_end = i as int;
    proof {
        assert(opt_kw_end(ts, y_end, kw_safety()) == u_end);
    }
    let mut linkage: Vec<Token> = Vec::new();
    if i < n && is_ident_chars6(&input[i], 'e', 'x', 't', 'e', 'r', 'n') {
        linkage.push(input[i].dup());
        i = i + 1;
        if i < n && is_any_literal(&input[i]) {
            linkage.push(input[i].dup());
            i = i + 1;
        }
    }
    let ghost x_end = i as int;
    proof {
        lemma_toks_view(linkage@);
        assert(linkage_end(ts, u_end) == x_end);
        assert(toks_view(linkage@) =~= ts.subrange(u_end, x_end));
    }
    (attrs, vis, constness, asyncness, safety, linkage, i, sig_i)
}

/// Parses the annotated item into a [`Func`], or reports a shape diagnostic
/// at the item's leading token.  The returned declaration serializes back to
/// exactly the input tokens.
#[verifier::rlimit(100)]
pub fn parse_input(input: &Vec<Token>, site: usize) -> (r: Result<Func, Error>)
    ensures
        match r {
            Ok(f) => spec_parse_input(toks_view(input@), site as nat) == Ok::<FuncView, ErrView>(
                f@,
            ),
            Err(e) => spec_parse_input(toks_view(input@), site as nat) == Err::<FuncView, ErrView>(
                e@,
            ),
        },
{
    let ghost ts = toks_view(input@);
    proof {
        lemma_toks_view(input@);
    }
    let n = input.len();
    let (attrs, vis, constness, asyncness, safety, linkage, xi, sig_i) = parse_header(input);
    let mut i: usize = xi;
    let ghost a_end = attrs_end(ts, 0);
    let ghost v_end = vis_end(ts, a_end);
    let ghost c_end = opt_kw_end(ts, v_end, "const"@);
    let ghost y_end = opt_kw_end(ts, c_end, "async"@);
    let ghost u_end = opt_kw_end(ts, y_end, kw_safety());
    let ghost x_end = linkage_end(ts, u_end);
    // The `fn` keyword and the name.
    if !(i < n && is_ident_str(&input[i], "fn")) {
        return Err(mk_shape_err(input, site));
    }
    let ghost fn_at = i as int;
    let fn_token = input[i].dup();
    i = i + 1;
    if !(i < n && is_any_ident(&input[i])) {
        return Err(mk_shape_err(input, site));
    }
    let name = input[i].dup();
    i = i + 1;
    // Generics.
    let gs = i;
    let (generics, g): (Vec<Token>, usize) = if i < n && is_punct_char(&input[i], '<') {
        match scan_generics(input, gs, site) {
            Ok(p) => p,
            Err(e) => {
                return Err(e);
            },
        }
    } else {
        (Vec::new(), i)
    };
    proof {
        if g == gs {
            assert(toks_view(generics@) =~= ts.subrange(gs as int, g as int));
        }
    }
    i = g;
    // Parameters.
    if !(i < n && is_group_with(&input[i], Delim::Paren)) {
        return Err(mk_shape_err(input, site));
    }
    let params = input[i].dup();
    let ghost g_at = i as int;
    i = i + 1;
    // Return tokens and body.
    if !(i < n && is_group_with(&input[n - 1], Delim::Brace)) {
        return Err(mk_shape_err(input, site));
    }
    let mut ret: Vec<Token> = Vec::new();
    while i < n - 1
        invariant
            g_at + 1 <= i <= n - 1,
            n == input@.len(),
            ts == toks_view(input@),
            toks_view(input@).len() == n as nat,
            forall|j: int| 0 <= j < n ==> ts[j] == tok_view(input@[j]),
            ret@.len() == i - (g_at + 1),
            forall|j: int| 0 <= j < ret@.len() ==> tok_view(ret@[j]) == ts[g_at + 1 + j],
        decreases n - i,
    {
        ret.push(input[i].dup());
        i = i + 1;
    }
    proof {
        lemma_toks_view(ret@);
        assert(toks_view(ret@) =~= ts.subrange(g_at + 1, n as int - 1));
    }
    let body = input[n - 1].dup();
    let f = Func {
        attrs,
        vis,
        constness,
        asyncness,
        safety,
        linkage,
        fn_token,
        name,
        generics,
        params,
        ret,
        body,
        sig_span: input[sig_i].span(),
    };
    proof {
        let okv = spec_parse_input(ts, site as nat)->Ok_0;
        assert(sig_i as int == a_end);
        assert(f@ =~= okv);
    }
    Ok(f)
}

/// Appending an attribute serializes as the old list followed by the new
/// attribute's two tokens.
pub proof fn lemma_ser_attrs_push(s: Seq<AttrView>, a: AttrView)
    ensures
        ser_attrs(s.push(a)) == ser_attrs(s) + seq![a.pound, a.group],
    decreases s.len(),
{
    let t = s.push(a);
    if s.len() == 0 {
        assert(t[0] == a);
        assert(t.drop_first() =~= Seq::<AttrView>::empty());
        assert(ser_attrs(t.drop_first()) =~= Seq::<TokView>::empty());
        assert(ser_attrs(t) =~= ser_attrs(s) + seq![a.pound, a.group]);
    } else {
        assert(t[0] == s[0]);
        assert(t.drop_first() =~= s.drop_first().push(a));
        lemma_ser_attrs_push(s.drop_first(), a);
        assert(ser_attrs(t) == seq![s[0].pound, s[0].group] + (ser_attrs(s.drop_first()) + seq![
            a.pound,
            a.group,
        ]));
        assert(ser_attrs(s) == seq![s[0].pound, s[0].group] + ser_attrs(s.drop_first()));
        assert(seq![s[0].pound, s[0].group] + (ser_attrs(s.drop_first()) + seq![a.pound, a.group])
            =~= (seq![s[0].pound, s[0].group] + ser_attrs(s.drop_first())) + seq![
            a.pound,
            a.group,
        ]);
    }
}

/// Pushes a copy of `t` onto `out`.
pub(crate) fn push_tok(out: &mut Vec<Token>, t: &Token)
    ensures
        toks_view(final (out)@) == toks_view(old(out)@) + seq![t@],
{
    out.push(t.dup());
    proof {
        lemma_toks_view(out@);
        lemma_toks_view(old(out)@);
        assert(toks_view(out@) =~= toks_view(old(out)@) + seq![t@]);
    }
}

/// Pushes a copy of every token of `src` onto `out`.
pub(crate) fn push_all(out: &mut Vec<Token>, src: &Vec<Token>)
    ensures
        toks_view(final (out)@) == toks_view(old(out)@) + toks_view(src@),
{
    let mut i: usize = 0;
    while i < src.len()
        invariant
            i <= src.len(),
            out@.len() == old(out)@.len() + i as nat,
            forall|j: int|
                0 <= j < old(out)@.len() ==> tok_view(out@[j]) == tok_view(old(out)@[j]),
            forall|j: int|
                0 <= j < i ==> tok_view(out@[old(out)@.len() + j]) == tok_view(src@[j]),
        decreases src@.len() - i,
    {
        let t = src[i].dup();
        out.push(t);
        i += 1;
    }
    proof {
        lemma_toks_view(out@);
        lemma_toks_view(old(out)@);
        lemma_toks_view(src@);
        assert(toks_view(out@) =~= toks_view(old(out)@) + toks_view(src@));
    }
}

/// Pushes a copy of the optional qualifier token onto `out`.
pub(crate) fn push_opt(out: &mut Vec<Token>, o: &Option<Token>)
    ensures
        toks_view(final (out)@) == toks_view(old(out)@) + opt_toks(opt_view(*o)),
{
    match o {
        Some(t) => {
            push_tok(out, t);
        },
        None => {
            proof {
                assert(toks_view(out@) =~= toks_view(out@) + Seq::<TokView>::empty());
            }
        },
    }
}

/// A copy of an optional token, with the same view.
fn dup_opt(o: &Option<Token>) -> (r: Option<Token>)
    ensures
        opt_view(r) == opt_view(*o),
{
    match o {
        Some(t) => Some(t.dup()),
        None => None,
    }
}

/// A copy of an attribute list, with the same views.
fn dup_attrs(attrs: &Vec<Attr>) -> (r: Vec<Attr>)
    ensures
        attrs_view(r@) == attrs_view(attrs@),
{
    let mut v: Vec<Attr> = Vec::new();
    let mut i: usize = 0;
    while i < attrs.len()
        invariant
            i <= attrs.len(),
            v@.len() == i as nat,
            forall|j: int| 0 <= j < i ==> attr_view(v@[j]) == attr_view(attrs@[j]),
        decreases attrs@.len() - i,
    {
        let a = Attr { pound: attrs[i].pound.dup(), group: attrs[i].group.dup() };
        proof {
            assert(attr_view(a) =~= attr_view(attrs@[i as int]));
        }
        v.push(a);
        i += 1;
    }
    proof {
        assert(attrs_view(v@) =~= attrs_view(attrs@));
    }
    v
}

impl Func {
    /// A clone that keeps the constancy qualifier only when `on` is true and
    /// drops it otherwise; every other piece is unchanged, and a declaration
    /// that carries no qualifier never gains one.
    pub fn with_constancy(&self, on: bool) -> (r: Func)
        ensures
            r@ == if on {
                self@
            } else {
                strip_const(self@)
            },
    {
        let r = Func {
            attrs: dup_attrs(&self.attrs),
            vis: dup_toks(&self.vis),
            constness: if on {
                dup_opt(&self.constness)
            } else {
                None
            },
            asyncness: dup_opt(&self.asyncness),
            safety: dup_opt(&self.safety),
            linkage: dup_toks(&self.linkage),
            fn_token: self.fn_token.dup(),
            name: self.name.dup(),
            generics: dup_toks(&self.generics),
            params: self.params.dup(),
            ret: dup_toks(&self.ret),
            body: self.body.dup(),
            sig_span: self.sig_span,
        };
        proof {
            if on {
                assert(r@ =~= self@);
            } else {
                assert(r@ =~= strip_const(self@));
            }
        }
        r
    }

    /// Appends one attribute to the end of the attribute list, leaving every
    /// other piece unchanged.
    pub fn push_attr(&mut self, a: Attr)
        ensures
            final (self)@ == append_attr(old(self)@, a@),
    {
        let ghost av = attr_view(a);
        self.attrs.push(a);
        proof {
            assert(attrs_view(self.attrs@) =~= attrs_view(old(self).attrs@).push(av));
            assert(self@ =~= append_attr(old(self)@, av));
        }
    }

    /// Serializes the declaration back to tokens: attributes, visibility,
    /// qualifiers in canonical order, `fn`, name, generics, parameters,
    /// return tokens, body.
    pub fn to_token_stream(&self) -> (out: Vec<Token>)
        ensures
            toks_view(out@) == ser_func(self@),
    {
        let mut out: Vec<Token> = Vec::new();
        let mut i: usize = 0;
        while i < self.attrs.len()
            invariant
                i <= self.attrs@.len(),
                toks_view(out@) == ser_attrs(attrs_view(self.attrs@).subrange(0, i as int)),
            decreases self.attrs@.len() - i,
        {
            let ghost pre = attrs_view(self.attrs@).subrange(0, i as int);
            let ghost av = attrs_view(self.attrs@)[i as int];
            push_tok(&mut out, &self.attrs[i].pound);
            push_tok(&mut out, &self.attrs[i].group);
            proof {
                lemma_ser_attrs_push(pre, av);
                assert(attrs_view(self.attrs@).subrange(0, i + 1int) =~= pre.push(av));
                assert((ser_attrs(pre) + seq![av.pound]) + seq![av.group] =~= ser_attrs(pre) + seq![
                    av.pound,
                    av.group,
                ]);
            }
            i += 1;
        }
        proof {
            assert(attrs_view(self.attrs@).subrange(0, self.attrs@.len() as int) =~= attrs_view(
                self.attrs@,
            ));
        }
        push_all(&mut out, &self.vis);
        push_opt(&mut out, &self.constness);
        push_opt(&mut out, &self.asyncness);
        push_opt(&mut out, &self.safety);
        push_all(&mut out, &self.linkage);
        push_tok(&mut out, &self.fn_token);
        push_tok(&mut out, &self.name);
        push_all(&mut out, &self.generics);
        push_tok(&mut out, &self.params);
        push_all(&mut out, &self.ret);
        push_tok(&mut out, &self.body);
        proof {
            assert(toks_view(out@) =~= ser_func(self@));
        }
        out
    }
}

} // verus!
