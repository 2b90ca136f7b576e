//! Parsing primitives over a token sequence and a position in it: runs of
//! tokens up to a terminator, with `<…>` treated as one unit.
//!
//! Every primitive is a pure function of the sequence and the position. A
//! failed attempt leaves nothing behind: the caller still holds the position
//! it started from.

use crate::token::{
    is_group, is_ident, is_punct, joint_of, view_tokens, Delimiter, Token, TokenView,
};
use vstd::prelude::*;

verus! {

/// What ends a run of opaque tokens. An item ends at its body, a brace
/// group, or at `;` where it has none: the runs of an item's header go no
/// further than that.
#[derive(Clone, Copy, Debug, PartialEq, Eq, Structural)]
pub enum Stop {
    /// The mark `:`.
    Colon,
    /// The mark `,`.
    Comma,
    /// The mark `,` or a parenthesis group.
    CommaOrParen,
    /// The mark `:`, a brace group or the mark `;`.
    ColonOrEnd,
    /// The mark `,`, a brace group or the mark `;`.
    CommaOrEnd,
    /// The keyword `where`, a brace group or the mark `;`.
    WhereOrEnd,
    /// The keyword `for`, the keyword `where`, a brace group or the mark
    /// `;`.
    ForOrWhereOrEnd,
}

/// Whether `t` ends an item: a brace group, or the mark `;`.
pub open spec fn ends_item(t: TokenView) -> bool {
    is_group(t, Delimiter::Brace) || is_punct(t, ';')
}

/// Whether `t` ends a run that stops at `stop`.
pub open spec fn stops(stop: Stop, t: TokenView) -> bool {
    match stop {
        Stop::Colon => is_punct(t, ':'),
        Stop::Comma => is_punct(t, ','),
        Stop::CommaOrParen => is_punct(t, ',') || is_group(t, Delimiter::Parenthesis),
        Stop::ColonOrEnd => is_punct(t, ':') || ends_item(t),
        Stop::CommaOrEnd => is_punct(t, ',') || ends_item(t),
        Stop::WhereOrEnd => is_ident(t, "where"@) || ends_item(t),
        Stop::ForOrWhereOrEnd => is_ident(t, "for"@) || is_ident(t, "where"@) || ends_item(t),
    }
}

/// Where the unit that starts at `p` ends. A `<` with a matching `>` at the
/// same depth makes one unit with everything between them; any other token
/// is a unit by itself, and so is a `<` that is not closed before a `;`.
pub open spec fn angle_end(s: Seq<TokenView>, p: int) -> int
    decreases s.len() - p, 0int,
{
    if p < 0 || p >= s.len() {
        p
    } else if is_punct(s[p], '<') {
        let q = angle_close(s, p + 1);
        if q < s.len() {
            q + 1
        } else {
            p + 1
        }
    } else {
        p + 1
    }
}

/// Whether the arrow `->` stands at `q`.
pub open spec fn arrow_at(s: Seq<TokenView>, q: int) -> bool {
    0 <= q && q + 1 < s.len() && is_punct(s[q], '-') && joint_of(s[q]) && is_punct(s[q + 1], '>')
}

/// The position of the `>` that closes a `<…>` whose contents start at `q`,
/// or the length of the sequence where there is none. The `>` of an arrow
/// `->` closes nothing. A `;` at the same depth ends the search: no `<…>`
/// reaches over it.
pub open spec fn angle_close(s: Seq<TokenView>, q: int) -> int
    decreases s.len() - q, 1int,
{
    if q < 0 || q >= s.len() {
        s.len() as int
    } else if is_punct(s[q], '>') {
        q
    } else if is_punct(s[q], ';') {
        s.len() as int
    } else if arrow_at(s, q) {
        angle_close(s, q + 2)
    } else {
        let e = angle_end(s, q);
        if q < e <= s.len() {
            angle_close(s, e)
        } else {
            s.len() as int
        }
    }
}

/// Where a run of units that starts at `p` ends: at the first unit that
/// begins with a token that stops the run, or at the end of the sequence.
pub open spec fn verbatim_end(s: Seq<TokenView>, p: int, stop: Stop) -> int
    decreases s.len() - p,
{
    if p < 0 || p >= s.len() {
        p
    } else if stops(stop, s[p]) {
        p
    } else {
        let e = angle_end(s, p);
        if p < e <= s.len() {
            verbatim_end(s, e, stop)
        } else {
            p
        }
    }
}

/// A unit holds at least one token and ends inside the sequence; a closing
/// `>` that is found lies at or after the start, inside the sequence.
pub proof fn lemma_angle_bounds(s: Seq<TokenView>, p: int)
    requires
        0 <= p,
    ensures
        p < s.len() ==> p < angle_end(s, p) <= s.len(),
        p <= angle_close(s, p) <= s.len() || p > s.len(),
        angle_close(s, p) < s.len() ==> is_punct(s[angle_close(s, p)], '>'),
    decreases s.len() - p,
{
    if p < s.len() {
        lemma_angle_bounds(s, p + 1);
        if arrow_at(s, p) {
            lemma_angle_bounds(s, p + 2);
        } else if !is_punct(s[p], '>') {
            let e = angle_end(s, p);
            lemma_angle_bounds(s, e);
        }
    }
}

/// No unit reaches over a `;`: a unit that does not begin with one holds
/// none, and there is none up to a closing `>` that is found.
pub proof fn lemma_angle_terminator(s: Seq<TokenView>, p: int)
    requires
        0 <= p,
    ensures
        p < s.len() && !is_punct(s[p], ';') ==> forall|k: int|
            p <= k < angle_end(s, p) ==> !is_punct(#[trigger] s[k], ';'),
        angle_close(s, p) < s.len() ==> forall|k: int|
            p <= k <= angle_close(s, p) ==> !is_punct(#[trigger] s[k], ';'),
    decreases s.len() - p,
{
    if p < s.len() {
        lemma_angle_bounds(s, p);
        lemma_angle_bounds(s, p + 1);
        lemma_angle_terminator(s, p + 1);
        if arrow_at(s, p) {
            lemma_angle_bounds(s, p + 2);
            lemma_angle_terminator(s, p + 2);
        }
        if !is_punct(s[p], '>') && !is_punct(s[p], ';') {
            let e = angle_end(s, p);
            lemma_angle_bounds(s, e);
            lemma_angle_terminator(s, e);
        }
    }
}

/// A run that stops at `;` holds none.
pub proof fn lemma_run_terminator(s: Seq<TokenView>, p: int, stop: Stop)
    requires
        0 <= p <= s.len(),
        stop == Stop::ColonOrEnd || stop == Stop::CommaOrEnd || stop == Stop::WhereOrEnd || stop
            == Stop::ForOrWhereOrEnd,
    ensures
        forall|k: int| p <= k < verbatim_end(s, p, stop) ==> !is_punct(#[trigger] s[k], ';'),
    decreases s.len() - p,
{
    if p < s.len() {
        lemma_run_terminator(s, p + 1, stop);
        lemma_angle_bounds(s, p);
        if !stops(stop, s[p]) {
            lemma_angle_terminator(s, p);
            lemma_run_terminator(s, angle_end(s, p), stop);
        }
    }
}

/// A run ends between its start and the end of the sequence, at a token that
/// stops it unless the sequence is exhausted.
pub proof fn lemma_run_bounds(s: Seq<TokenView>, p: int, stop: Stop)
    requires
        0 <= p <= s.len(),
    ensures
        p <= verbatim_end(s, p, stop) <= s.len(),
        verbatim_end(s, p, stop) < s.len() ==> stops(stop, s[verbatim_end(s, p, stop)]),
    decreases s.len() - p,
{
    if p < s.len() {
        lemma_run_bounds(s, p + 1, stop);
        lemma_angle_bounds(s, p);
        if !stops(stop, s[p]) {
            lemma_run_bounds(s, angle_end(s, p), stop);
        }
    }
}

/// Whether `t` ends a run that stops at `stop`.
pub fn token_stops(stop: Stop, t: &Token) -> (r: bool)
    ensures
        r == stops(stop, t@),
{
    match stop {
        Stop::Colon => t.is_punct(':'),
        Stop::Comma => t.is_punct(','),
        Stop::CommaOrParen => t.is_punct(',') || t.is_group(Delimiter::Parenthesis),
        Stop::ColonOrEnd => t.is_punct(':') || token_ends_item(t),
        Stop::CommaOrEnd => t.is_punct(',') || token_ends_item(t),
        Stop::WhereOrEnd => t.is_ident("where") || token_ends_item(t),
        Stop::ForOrWhereOrEnd => t.is_ident("for") || t.is_ident("where") || token_ends_item(t),
    }
}

/// Whether `t` ends an item: a brace group, or the mark `;`.
pub fn token_ends_item(t: &Token) -> (r: bool)
    ensures
        r == ends_item(t@),
{
    t.is_group(Delimiter::Brace) || t.is_punct(';')
}

/// Scans one unit from `p` and returns where it ends.
pub fn scan_angle(tokens: &Vec<Token>, p: usize) -> (r: usize)
    requires
        p < tokens.len(),
    ensures
        r == angle_end(view_tokens(tokens@), p as int),
        p < r <= tokens.len(),
    decreases tokens.len() - p, 0int,
{
    proof {
        lemma_angle_bounds(view_tokens(tokens@), p as int);
    }
    if tokens[p].is_punct('<') {
        let q = scan_angle_close(tokens, p + 1);
        if q < tokens.len() {
            q + 1
        } else {
            p + 1
        }
    } else {
        p + 1
    }
}

/// Looks for the `>` that closes a `<…>` whose contents start at `q`, and
/// returns its position, or the number of tokens where there is none.
pub fn scan_angle_close(tokens: &Vec<Token>, q: usize) -> (r: usize)
    requires
        q <= tokens.len(),
    ensures
        r == angle_close(view_tokens(tokens@), q as int),
        q <= r <= tokens.len(),
    decreases tokens.len() - q, 1int,
{
    proof {
        lemma_angle_bounds(view_tokens(tokens@), q as int);
    }
    if q >= tokens.len() {
        tokens.len()
    } else if tokens[q].is_punct('>') {
        q
    } else if tokens[q].is_punct(';') {
        tokens.len()
    } else if tokens[q].is_punct('-') && tokens[q].joint_flag() && tokens.len() - q >= 2
        && tokens[q + 1].is_punct('>') {
        scan_angle_close(tokens, q + 2)
    } else {
        let e = scan_angle(tokens, q);
        scan_angle_close(tokens, e)
    }
}

/// Scans a run of units from `p` and returns where it ends.
pub fn scan_verbatim(tokens: &Vec<Token>, p: usize, stop: Stop) -> (r: usize)
    requires
        p <= tokens.len(),
    ensures
        r == verbatim_end(view_tokens(tokens@), p as int, stop),
        p <= r <= tokens.len(),
{
    let ghost s = view_tokens(tokens@);
    let mut q: usize = p;
    while q < tokens.len() && !token_stops(stop, &tokens[q])
        invariant
            p <= q <= tokens.len(),
            s == view_tokens(tokens@),
            verbatim_end(s, p as int, stop) == verbatim_end(s, q as int, stop),
        decreases tokens.len() - q,
    {
        q = scan_angle(tokens, q);
    }
    q
}

} // verus!
