//! A structural model of a source token sequence.
//!
//! The rewriter never works on raw source text: its input and output are
//! sequences of token trees, each carrying an opaque span identifier so that
//! diagnostics can point back at the token that caused them.  The model keeps
//! exactly what the rewriter reads: identifier names, punctuation characters
//! with their joining behaviour, literal spellings, and delimited groups.
//!
//! Specifications speak about tokens through [`TokView`], a ghost mirror of
//! [`Token`] in which strings become `Seq<char>` and vectors become `Seq`.

use vstd::prelude::*;

verus! {

/// The delimiter of a token group.
#[derive(Clone, Copy, PartialEq, Eq, Structural, Debug)]
pub enum Delim {
    /// `( ... )`
    Paren,
    /// `{ ... }`
    Brace,
    /// `[ ... ]`
    Bracket,
    /// An implicit grouping with no written delimiter.
    Invisible,
}

/// Whether a punctuation character is joined to the token after it
/// (as the `-` in `->`) or stands alone.
#[derive(Clone, Copy, PartialEq, Eq, Structural, Debug)]
pub enum Spacing {
    /// Not joined to the next token.
    Alone,
    /// Joined to the next token.
    Joint,
}

/// One token tree: an identifier, a punctuation character, a literal, or a
/// delimited group of further token trees.  `span` is an opaque identifier
/// that a caller can map back to a source location.
#[derive(Debug, PartialEq)]
pub enum Token {
    /// An identifier or keyword, spelled as `name`.
    Ident { span: usize, name: String },
    /// A single punctuation character.
    Punct { span: usize, ch: char, spacing: Spacing },
    /// A literal, kept as its source spelling `repr` (quotes and all).
    Literal { span: usize, repr: String },
    /// A delimited group of token trees.
    Group { span: usize, delim: Delim, toks: Vec<Token> },
}

/// Ghost mirror of [`Token`] used in specifications.
#[verifier::ext_equal]
pub enum TokView {
    /// Mirror of [`Token::Ident`].
    Ident { span: nat, name: Seq<char> },
    /// Mirror of [`Token::Punct`].
    Punct { span: nat, ch: char, spacing: Spacing },
    /// Mirror of [`Token::Literal`].
    Literal { span: nat, repr: Seq<char> },
    /// Mirror of [`Token::Group`].
    Group { span: nat, delim: Delim, inner: Seq<TokView> },
}

/// The view of a single token, applied recursively to group contents.
pub open spec fn tok_view(t: Token) -> TokView
    decreases t, 1int,
{
    match t {
        Token::Ident { span, name } => TokView::Ident { span: span as nat, name: name@ },
        Token::Punct { span, ch, spacing } => TokView::Punct { span: span as nat, ch, spacing },
        Token::Literal { span, repr } => TokView::Literal { span: span as nat, repr: repr@ },
        Token::Group { span, delim, toks } => TokView::Group {
            span: span as nat,
            delim,
            inner: toks_view(toks@),
        },
    }
}

/// The views of a sequence of tokens, element by element.
pub open spec fn toks_view(ts: Seq<Token>) -> Seq<TokView>
    decreases ts, 0int,
{
    if ts.len() == 0 {
        Seq::empty()
    } else {
        seq![tok_view(ts[0])] + toks_view(ts.drop_first())
    }
}

impl View for Token {
    type V = TokView;

    open spec fn view(&self) -> TokView {
        tok_view(*self)
    }
}

/// `toks_view` is the element-wise view: it keeps the length and views each
/// token in place.
pub proof fn lemma_toks_view(ts: Seq<Token>)
    ensures
        toks_view(ts).len() == ts.len(),
        forall|i: int| 0 <= i < ts.len() ==> #[trigger] toks_view(ts)[i] == tok_view(ts[i]),
    decreases ts,
{
    if ts.len() > 0 {
        lemma_toks_view(ts.drop_first());
    }
}

/// The span of a token view.
pub open spec fn tv_span(t: TokView) -> nat {
    match t {
        TokView::Ident { span, .. } => span,
        TokView::Punct { span, .. } => span,
        TokView::Literal { span, .. } => span,
        TokView::Group { span, .. } => span,
    }
}

/// True when `t` is the identifier spelled `name`.
pub open spec fn is_ident_named(t: TokView, name: Seq<char>) -> bool {
    t matches TokView::Ident { name: n, .. } && n == name
}

/// True when `t` is the punctuation character `c`, with any spacing.
pub open spec fn is_punct_ch(t: TokView, c: char) -> bool {
    t matches TokView::Punct { ch, .. } && ch == c
}

/// True when `t` is a group with delimiter `d`.
pub open spec fn is_group_delim(t: TokView, d: Delim) -> bool {
    t matches TokView::Group { delim, .. } && delim == d
}

impl Token {
    /// The span identifier carried by this token.
    pub fn span(&self) -> (s: usize)
        ensures
            s as nat == tv_span(self@),
    {
        match self {
            Token::Ident { span, .. } => *span,
            Token::Punct { span, .. } => *span,
            Token::Literal { span, .. } => *span,
            Token::Group { span, .. } => *span,
        }
    }

    /// A deep copy with the same view.
    pub fn dup(&self) -> (r: Token)
        ensures
            r@ == self@,
        decreases self,
    {
        match self {
            Token::Ident { span, name } => Token::Ident { span: *span, name: name.clone() },
            Token::Punct { span, ch, spacing } => Token::Punct {
                span: *span,
                ch: *ch,
                spacing: *spacing,
            },
            Token::Literal { span, repr } => Token::Literal { span: *span, repr: repr.clone() },
            Token::Group { span, delim, toks } => {
                let mut v: Vec<Token> = Vec::new();
                let mut i: usize = 0;
                while i < toks.len()
                    invariant
                        *self is Group,
                        self->Group_toks == *toks,
                        i <= toks.len(),
                        v@.len() == i as nat,
                        forall|j: int| 0 <= j < i ==> tok_view(v@[j]) == tok_view(toks@[j]),
                    decreases toks@.len() - i,
                {
                    proof {
                        assert(decreases_to!(*self => self->Group_toks));
                        assert(decreases_to!(self->Group_toks => toks@));
                        assert(decreases_to!(toks@ => toks@[i as int]));
                        assert(decreases_to!(*self => toks@[i as int]));
                    }
                    let t = toks[i].dup();
                    v.push(t);
                    i += 1;
                }
                let r = Token::Group { span: *span, delim: *delim, toks: v };
                proof {
                    lemma_toks_view(v@);
                    lemma_toks_view(toks@);
                    assert(tok_view(r)->Group_inner =~= tok_view(*self)->Group_inner);
                }
                r
            },
        }
    }
}

/// True when `t` is a punctuation character joined to the next token.
pub open spec fn joint_punct(t: TokView) -> bool {
    t matches TokView::Punct { spacing: Spacing::Joint, .. }
}

/// The opening spelling of a group delimiter.
pub open spec fn delim_open(d: Delim) -> Seq<char> {
    match d {
        Delim::Paren => "("@,
        Delim::Brace => "{ "@,
        Delim::Bracket => "["@,
        Delim::Invisible => Seq::empty(),
    }
}

/// The closing spelling of a group delimiter.
pub open spec fn delim_close(d: Delim) -> Seq<char> {
    match d {
        Delim::Paren => ")"@,
        Delim::Brace => "}"@,
        Delim::Bracket => "]"@,
        Delim::Invisible => Seq::empty(),
    }
}

/// The source spelling of one token: an identifier's name, a punctuation
/// character, a literal's spelling, or a delimited group around its
/// contents, with a brace group padded inside.
pub open spec fn tok_source(t: TokView) -> Seq<char>
    decreases t, 0int, 0int,
{
    match t {
        TokView::Ident { name, .. } => name,
        TokView::Punct { ch, .. } => seq![ch],
        TokView::Literal { repr, .. } => repr,
        TokView::Group { delim, inner, .. } => delim_open(delim) + stream_source_from(
            inner,
            0,
            true,
        ) + (if delim is Brace && inner.len() > 0 {
            " "@
        } else {
            Seq::<char>::empty()
        }) + delim_close(delim),
    }
}

/// The source spelling of the tokens of `ts` from position `i` on: tokens
/// separated by one space, except that nothing follows a joined punctuation
/// character.  `joint` is true at the start and right after such a
/// character, suppressing the separator.
pub open spec fn stream_source_from(ts: Seq<TokView>, i: int, joint: bool) -> Seq<char>
    decreases ts, 1int, ts.len() - i,
{
    if i < 0 || i >= ts.len() {
        Seq::empty()
    } else {
        (if joint {
            Seq::<char>::empty()
        } else {
            " "@
        }) + tok_source(ts[i]) + stream_source_from(ts, i + 1, joint_punct(ts[i]))
    }
}

/// Relies on `String::push`: appends exactly the one given character.
#[verifier::external_body]
fn push_char(s: &mut String, c: char)
    ensures
        final (s)@ == old(s)@.push(c),
{
    s.push(c);
}

/// Appends the source spelling of `t` to `out`.
pub fn render_into(out: &mut String, t: &Token)
    ensures
        final (out)@ == old(out)@ + tok_source(tok_view(*t)),
    decreases t,
{
    match t {
        Token::Ident { name, .. } => {
            out.append(name.as_str());
        },
        Token::Punct { ch, .. } => {
            push_char(out, *ch);
            proof {
                assert(final (out)@ =~= old(out)@ + seq![*ch]);
            }
        },
        Token::Literal { repr, .. } => {
            out.append(repr.as_str());
        },
        Token::Group { delim, toks, .. } => {
            let ghost tsv = toks_view(toks@);
            proof {
                lemma_toks_view(toks@);
            }
            match delim {
                Delim::Paren => out.append("("),
                Delim::Brace => out.append("{ "),
                Delim::Bracket => out.append("["),
                Delim::Invisible => {},
            }
            let ghost base = out@;
            let mut i: usize = 0;
            let mut joint = true;
            while i < toks.len()
                invariant
                    *t is Group,
                    t->Group_toks == *toks,
                    tsv == toks_view(toks@),
                    tsv.len() == toks@.len(),
                    forall|j: int| 0 <= j < toks@.len() ==> tsv[j] == tok_view(toks@[j]),
                    i <= toks.len(),
                    out@ + stream_source_from(tsv, i as int, joint) == base + stream_source_from(
                        tsv,
                        0,
                        true,
                    ),
                decreases toks@.len() - i,
            {
                proof {
                    assert(decreases_to!(*t => t->Group_toks));
                    assert(decreases_to!(t->Group_toks => toks@));
                    assert(decreases_to!(toks@ => toks@[i as int]));
                    assert(decreases_to!(*t => toks@[i as int]));
                }
                let ghost before = out@;
                let ghost sep: Seq<char> = if joint {
                    Seq::empty()
                } else {
                    " "@
                };
                if !joint {
                    out.append(" ");
                }
                render_into(out, &toks[i]);
                let next_joint = match &toks[i] {
                    Token::Punct { spacing: Spacing::Joint, .. } => true,
                    _ => false,
                };
                proof {
                    let rest = stream_source_from(tsv, i + 1int, joint_punct(tsv[i as int]));
                    assert(out@ =~= before + sep + tok_source(tsv[i as int]));
                    assert(out@ + rest =~= before + (sep + tok_source(tsv[i as int]) + rest));
                    assert(next_joint == joint_punct(tsv[i as int]));
                }
                joint = next_joint;
                i += 1;
            }
            proof {
                assert(out@ =~= base + stream_source_from(tsv, 0, true));
            }
            match delim {
                Delim::Brace => {
                    if toks.len() > 0 {
                        out.append(" ");
                    }
                    out.append("}");
                },
                Delim::Paren => out.append(")"),
                Delim::Bracket => out.append("]"),
                Delim::Invisible => {},
            }
            proof {
                assert(out@ =~= old(out)@ + tok_source(tok_view(*t)));
            }
        },
    }
}

/// A deep copy of a token sequence, with the same views.
pub fn dup_toks(ts: &Vec<Token>) -> (r: Vec<Token>)
    ensures
        toks_view(r@) == toks_view(ts@),
{
    let mut v: Vec<Token> = Vec::new();
    let mut i: usize = 0;
    while i < ts.len()
        invariant
            i <= ts.len(),
            v@.len() == i as nat,
            forall|j: int| 0 <= j < i ==> tok_view(v@[j]) == tok_view(ts@[j]),
        decreases ts@.len() - i,
    {
        let t = ts[i].dup();
        v.push(t);
        i += 1;
    }
    proof {
        lemma_toks_view(v@);
        lemma_toks_view(ts@);
        assert(toks_view(v@) =~= toks_view(ts@));
    }
    v
}

} // verus!
