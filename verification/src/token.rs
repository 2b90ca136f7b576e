//! The token model: identifiers, punctuation marks, literals and delimited
//! groups, together with the mathematical view that contracts speak of.

use vstd::prelude::*;
use vstd::string::StringExecFns;

verus! {

/// The kind of bracket that encloses a group.
#[derive(Clone, Copy, Debug, PartialEq, Eq, Structural)]
pub enum Delimiter {
    Parenthesis,
    Brace,
    Bracket,
    /// An invisible delimiter, as macro expansion may produce.
    Invisible,
}

/// One token of the source language.
#[derive(Debug, PartialEq, Eq)]
pub enum Token {
    /// An identifier or keyword, by its text.
    Ident(String),
    /// A punctuation mark; the flag says that another mark follows at once.
    Punct(char, bool),
    /// A literal, by its source text.
    Literal(String),
    /// A delimited group and the tokens inside it.
    Group(Delimiter, Vec<Token>),
}

/// The mathematical value of a token.
pub ghost enum TokenView {
    Ident(Seq<char>),
    Punct(char, bool),
    Literal(Seq<char>),
    Group(Delimiter, Seq<TokenView>),
}

/// The value of each token of a sequence, in order.
pub open spec fn view_tokens(s: Seq<Token>) -> Seq<TokenView>
    decreases s,
{
    Seq::new(
        s.len(),
        |i: int|
            if 0 <= i < s.len() {
                view_token(s[i])
            } else {
                TokenView::Punct(' ', false)
            },
    )
}

/// The value of one token.
pub open spec fn view_token(t: Token) -> TokenView
    decreases t,
{
    match t {
        Token::Ident(s) => TokenView::Ident(s@),
        Token::Punct(c, j) => TokenView::Punct(c, j),
        Token::Literal(s) => TokenView::Literal(s@),
        Token::Group(d, inner) => TokenView::Group(d, view_tokens(inner@)),
    }
}

impl View for Token {
    type V = TokenView;

    open spec fn view(&self) -> TokenView {
        view_token(*self)
    }
}

/// What kind of literal a source text is.
#[derive(Clone, Copy, Debug, PartialEq, Eq, Structural)]
pub enum LiteralKind {
    /// A plain string literal: text between double quotes.
    Str,
    /// Any other literal: a number, a character, a raw or byte string.
    Other,
}

/// The kind of the literal with the source text `text`.
pub open spec fn literal_kind(text: Seq<char>) -> LiteralKind {
    if text.len() >= 2 && text[0] == '"' && text[text.len() - 1] == '"' {
        LiteralKind::Str
    } else {
        LiteralKind::Other
    }
}

/// The tokens inside a group; empty for any other token.
pub open spec fn group_inner(t: TokenView) -> Seq<TokenView> {
    match t {
        TokenView::Group(_, inner) => inner,
        _ => Seq::empty(),
    }
}

/// Whether the token is the identifier `text`.
pub open spec fn is_ident(t: TokenView, text: Seq<char>) -> bool {
    t == TokenView::Ident(text)
}

/// Whether the token is the mark `c`, joint or not.
pub open spec fn is_punct(t: TokenView, c: char) -> bool {
    t matches TokenView::Punct(d, _) && d == c
}

/// Whether the token is a group with delimiter `d`.
pub open spec fn is_group(t: TokenView, d: Delimiter) -> bool {
    t matches TokenView::Group(e, _) && e == d
}

/// Whether the token at `p` exists and is the identifier `text`.
pub open spec fn ident_at(s: Seq<TokenView>, p: int, text: Seq<char>) -> bool {
    0 <= p < s.len() && is_ident(s[p], text)
}

/// Whether the token at `p` exists and is the mark `c`.
pub open spec fn punct_at(s: Seq<TokenView>, p: int, c: char) -> bool {
    0 <= p < s.len() && is_punct(s[p], c)
}

/// Whether the token at `p` exists and is a group with delimiter `d`.
pub open spec fn group_at(s: Seq<TokenView>, p: int, d: Delimiter) -> bool {
    0 <= p < s.len() && is_group(s[p], d)
}

/// The joint flag of a mark; `false` for any other token.
pub open spec fn joint_of(t: TokenView) -> bool {
    match t {
        TokenView::Punct(_, j) => j,
        _ => false,
    }
}

/// The text of an identifier or literal; empty for any other token.
pub open spec fn text_of(t: TokenView) -> Seq<char> {
    match t {
        TokenView::Ident(s) => s,
        TokenView::Literal(s) => s,
        _ => Seq::empty(),
    }
}

/// The number of tokens among the first `n` of `s`, those inside groups
/// included.
pub open spec fn tokens_size(s: Seq<TokenView>, n: int) -> nat
    decreases s, n,
{
    if n <= 0 || n > s.len() {
        0
    } else {
        tokens_size(s, n - 1) + token_weight(s[n - 1])
    }
}

/// The number of tokens that `t` is made of: itself and, for a group, those
/// inside it.
pub open spec fn token_weight(t: TokenView) -> nat
    decreases t,
{
    match t {
        TokenView::Group(_, inner) => 1 + tokens_size(inner, inner.len() as int),
        _ => 1,
    }
}

/// The number of tokens in `s`, those inside groups included.
pub open spec fn token_size(s: Seq<TokenView>) -> nat {
    tokens_size(s, s.len() as int)
}

/// No token of a sequence is made of more tokens than the sequence.
pub proof fn lemma_token_weight_bound(s: Seq<TokenView>, q: int, n: int)
    requires
        0 <= q < n <= s.len(),
    ensures
        token_weight(s[q]) <= tokens_size(s, n),
    decreases n,
{
    if q < n - 1 {
        lemma_token_weight_bound(s, q, n - 1);
    }
}

/// Viewing distributes over appending one token.
pub proof fn lemma_view_tokens_push(s: Seq<Token>, t: Token)
    ensures
        view_tokens(s.push(t)) == view_tokens(s).push(view_token(t)),
{
    assert(view_tokens(s.push(t)) =~= view_tokens(s).push(view_token(t)));
}

/// Whether `s` and `text` hold the same characters.
pub fn text_is(s: &String, text: &str) -> (r: bool)
    ensures
        r == (s@ == text@),
{
    let other = String::from_str(text);
    *s == other
}

impl Token {
    /// An identifier token with the given text.
    pub fn ident(text: &str) -> (r: Token)
        ensures
            r@ == TokenView::Ident(text@),
    {
        Token::Ident(String::from_str(text))
    }

    /// A mark that stands alone.
    pub fn alone(c: char) -> (r: Token)
        ensures
            r@ == TokenView::Punct(c, false),
    {
        Token::Punct(c, false)
    }

    /// A mark that is followed at once by another mark.
    pub fn joint(c: char) -> (r: Token)
        ensures
            r@ == TokenView::Punct(c, true),
    {
        Token::Punct(c, true)
    }

    /// A literal token with the given source text.
    pub fn literal(text: &str) -> (r: Token)
        ensures
            r@ == TokenView::Literal(text@),
    {
        Token::Literal(String::from_str(text))
    }

    /// A group around `inner`.
    pub fn group(delimiter: Delimiter, inner: Vec<Token>) -> (r: Token)
        ensures
            r@ == TokenView::Group(delimiter, view_tokens(inner@)),
    {
        Token::Group(delimiter, inner)
    }

    /// Whether this token is the identifier `text`.
    pub fn is_ident(&self, text: &str) -> (r: bool)
        ensures
            r == is_ident(self@, text@),
    {
        match self {
            Token::Ident(s) => text_is(s, text),
            _ => false,
        }
    }

    /// Whether this token is an identifier, whatever its text.
    pub fn is_any_ident(&self) -> (r: bool)
        ensures
            r == (self@ is Ident),
    {
        match self {
            Token::Ident(_) => true,
            _ => false,
        }
    }

    /// Whether this token is the mark `c`, joint or not.
    pub fn is_punct(&self, c: char) -> (r: bool)
        ensures
            r == is_punct(self@, c),
    {
        match self {
            Token::Punct(d, _) => *d == c,
            _ => false,
        }
    }

    /// Whether this token is a group with delimiter `d`.
    pub fn is_group(&self, d: Delimiter) -> (r: bool)
        ensures
            r == is_group(self@, d),
    {
        match self {
            Token::Group(e, _) => *e == d,
            _ => false,
        }
    }

    /// The kind of a literal; nothing for any other token.
    pub fn literal_kind(&self) -> (r: Option<LiteralKind>)
        ensures
            r == match self@ {
                TokenView::Literal(text) => Some(literal_kind(text)),
                _ => None,
            },
    {
        match self {
            Token::Literal(text) => {
                let s = text.as_str();
                let n = s.unicode_len();
                if n >= 2 && s.get_char(0) == '"' && s.get_char(n - 1) == '"' {
                    Some(LiteralKind::Str)
                } else {
                    Some(LiteralKind::Other)
                }
            },
            _ => None,
        }
    }

    /// The joint flag of a mark; `false` for any other token.
    pub fn joint_flag(&self) -> (r: bool)
        ensures
            r == joint_of(self@),
    {
        match self {
            Token::Punct(_, j) => *j,
            _ => false,
        }
    }

    /// A copy of this token, groups included.
    #[verifier::loop_isolation(false)]
    pub fn deep_clone(&self) -> (r: Token)
        ensures
            r@ == self@,
        decreases *self,
    {
        match self {
            Token::Ident(s) => Token::Ident(s.clone()),
            Token::Punct(c, j) => Token::Punct(*c, *j),
            Token::Literal(s) => Token::Literal(s.clone()),
            Token::Group(d, inner) => {
                let mut out: Vec<Token> = Vec::new();
                let mut i: usize = 0;
                while i < inner.len()
                    invariant
                        i <= inner.len(),
                        out.len() == i,
                        forall|k: int| 0 <= k < i ==> view_token(#[trigger] out@[k]) == view_token(inner@[k]),
                    decreases inner.len() - i,
                {
                    let t = inner[i].deep_clone();
                    out.push(t);
                    i += 1;
                }
                assert(view_tokens(out@) =~= view_tokens(inner@));
                Token::Group(*d, out)
            },
        }
    }
}

/// A copy of the tokens from `from` up to, not including, `to`.
pub fn clone_range(tokens: &Vec<Token>, from: usize, to: usize) -> (r: Vec<Token>)
    requires
        from <= to <= tokens.len(),
    ensures
        view_tokens(r@) == view_tokens(tokens@).subrange(from as int, to as int),
{
    let mut out: Vec<Token> = Vec::new();
    let mut i: usize = from;
    while i < to
        invariant
            from <= i <= to <= tokens.len(),
            out.len() == i - from,
            forall|k: int| 0 <= k < out.len() ==> view_token(#[trigger] out@[k]) == view_token(tokens@[from + k]),
        decreases to - i,
    {
        out.push(tokens[i].deep_clone());
        i += 1;
    }
    assert(view_tokens(out@) =~= view_tokens(tokens@).subrange(from as int, to as int));
    out
}

/// A copy of all the tokens.
pub fn clone_tokens(tokens: &Vec<Token>) -> (r: Vec<Token>)
    ensures
        view_tokens(r@) == view_tokens(tokens@),
{
    let r = clone_range(tokens, 0, tokens.len());
    assert(view_tokens(tokens@).subrange(0, tokens.len() as int) =~= view_tokens(tokens@));
    r
}

/// Appends a copy of `more` to `out`.
pub fn extend_tokens(out: &mut Vec<Token>, more: &Vec<Token>)
    ensures
        view_tokens(final(out)@) == view_tokens(old(out)@) + view_tokens(more@),
{
    let mut i: usize = 0;
    while i < more.len()
        invariant
            i <= more.len(),
            view_tokens(out@) == view_tokens(old(out)@) + view_tokens(more@).subrange(0, i as int),
        decreases more.len() - i,
    {
        let ghost before = out@;
        let t = more[i].deep_clone();
        out.push(t);
        proof {
            lemma_view_tokens_push(before, t);
            assert(view_tokens(more@).subrange(0, i + 1) =~= view_tokens(more@).subrange(
                0,
                i as int,
            ).push(view_token(more@[i as int])));
        }
        i += 1;
    }
    assert(view_tokens(more@).subrange(0, more.len() as int) =~= view_tokens(more@));
}

} // verus!
