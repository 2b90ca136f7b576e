//! The grammar, as functions of a token sequence and a position. A rule gives
//! what it recognises at that position and where it ends, or nothing.
//!
//! Rules are tried in a fixed order and never revisited: once an optional
//! part or an alternative has matched, what follows must match too.

use crate::combinators::{angle_close, verbatim_end, Stop};
use crate::syntax::{
    AttributeView, ExternSpecView, FnParamView, FnSigView, GenericsView, ImplBlockSigView,
    ModuleItemView, ModuleSigView, NamedParamView, ParamView, PatternFieldView, PatternParamView,
    PatternView, ReturnTypeView, SelfParam, TraitBoundsView, TraitSigView, VisibilityView,
    WhereClausePredicateView, WhereClausesView,
};
use crate::token::{
    group_at, group_inner, ident_at, joint_of, literal_kind, punct_at, text_of, Delimiter,
    LiteralKind, TokenView,
};
use vstd::prelude::*;

verus! {

/// Whether `text` is the source text of a plain string literal.
pub open spec fn is_string_literal(text: Seq<char>) -> bool {
    literal_kind(text) == LiteralKind::Str
}

/// What stands between the quotes of a plain string literal.
pub open spec fn string_content(text: Seq<char>) -> Seq<char> {
    text.subrange(1, text.len() - 1)
}

/// Whether the token at `p` exists and is a plain string literal.
pub open spec fn string_at(s: Seq<TokenView>, p: int) -> bool {
    0 <= p < s.len() && s[p] is Literal && is_string_literal(text_of(s[p]))
}

/// Whether the token at `p` exists and is an identifier.
pub open spec fn any_ident_at(s: Seq<TokenView>, p: int) -> bool {
    0 <= p < s.len() && s[p] is Ident
}

/// An attribute at `p`.
pub open spec fn attribute(s: Seq<TokenView>, p: int) -> Option<(AttributeView, int)> {
    if punct_at(s, p, '#') && group_at(s, p + 1, Delimiter::Bracket) {
        Some((AttributeView { joint: joint_of(s[p]), content: group_inner(s[p + 1]) }, p + 2))
    } else {
        None
    }
}

/// As many attributes as there are from `p` on.
pub open spec fn attributes(s: Seq<TokenView>, p: int) -> (Seq<AttributeView>, int)
    decreases s.len() - p,
{
    if punct_at(s, p, '#') && group_at(s, p + 1, Delimiter::Bracket) {
        let (rest, e) = attributes(s, p + 2);
        (seq![attribute(s, p).unwrap().0] + rest, e)
    } else {
        (Seq::empty(), p)
    }
}

/// An optional visibility at `p`: `pub` with a parenthesis group behind it,
/// or `pub` alone.
pub open spec fn visibility(s: Seq<TokenView>, p: int) -> (Option<VisibilityView>, int) {
    if ident_at(s, p, "pub"@) {
        if group_at(s, p + 1, Delimiter::Parenthesis) {
            (Some(VisibilityView::Restricted(group_inner(s[p + 1]))), p + 2)
        } else {
            (Some(VisibilityView::Public), p + 1)
        }
    } else {
        (None, p)
    }
}

/// An optional keyword at `p`.
pub open spec fn keyword(s: Seq<TokenView>, p: int, text: Seq<char>) -> (bool, int) {
    if ident_at(s, p, text) {
        (true, p + 1)
    } else {
        (false, p)
    }
}

/// An optional foreign-linkage marker at `p`: `extern` with a string literal
/// behind it, or `extern` alone.
pub open spec fn extern_spec(s: Seq<TokenView>, p: int) -> (Option<ExternSpecView>, int) {
    if ident_at(s, p, "extern"@) {
        if string_at(s, p + 1) {
            (Some(ExternSpecView::WithAbi(text_of(s[p + 1]))), p + 2)
        } else {
            (Some(ExternSpecView::Bare), p + 1)
        }
    } else {
        (None, p)
    }
}

/// Optional generics at `p`: a `<`, at least one token, and the `>` that
/// closes it at the same depth.
pub open spec fn generics(s: Seq<TokenView>, p: int) -> (Option<GenericsView>, int) {
    let q = angle_close(s, p + 1);
    if punct_at(s, p, '<') && p + 1 < q < s.len() {
        (
            Some(
                GenericsView {
                    lt_joint: joint_of(s[p]),
                    content: s.subrange(p + 1, q),
                    gt_joint: joint_of(s[q]),
                },
            ),
            q + 1,
        )
    } else {
        (None, p)
    }
}

/// An optional return type at `p`: `->` and at least one unit, up to
/// `where`, the body or a `;`.
pub open spec fn return_type(s: Seq<TokenView>, p: int) -> (Option<ReturnTypeView>, int) {
    let e = verbatim_end(s, p + 2, Stop::WhereOrEnd);
    if punct_at(s, p, '-') && joint_of(s[p]) && punct_at(s, p + 1, '>') && p + 2 < e <= s.len() {
        (
            Some(ReturnTypeView { gt_joint: joint_of(s[p + 1]), return_type: s.subrange(p + 2, e) }),
            e,
        )
    } else {
        (None, p)
    }
}

/// A predicate of a `where` clause at `p`, without the comma behind it, and
/// where it ends: at least one unit of subject, `:`, and at least one unit
/// of bounds up to the next comma, the body or a `;`.
pub open spec fn predicate(s: Seq<TokenView>, p: int) -> Option<
    (WhereClausePredicateView, int),
> {
    let c = verbatim_end(s, p, Stop::ColonOrEnd);
    let e = verbatim_end(s, c + 1, Stop::CommaOrEnd);
    if 0 <= p < c && punct_at(s, c, ':') && c + 1 < e <= s.len() {
        Some(
            (
                WhereClausePredicateView {
                    pred: s.subrange(p, c),
                    colon_joint: joint_of(s[c]),
                    bounds: s.subrange(c + 1, e),
                    comma: None,
                },
                e,
            ),
        )
    } else {
        None
    }
}

/// The joint flag of the comma at `p`, if a comma stands there.
pub open spec fn comma_at(s: Seq<TokenView>, p: int) -> Option<bool> {
    if punct_at(s, p, ',') {
        Some(joint_of(s[p]))
    } else {
        None
    }
}

/// The position behind an optional comma at `p`.
pub open spec fn after_comma(s: Seq<TokenView>, p: int) -> int {
    if punct_at(s, p, ',') {
        p + 1
    } else {
        p
    }
}

/// As many predicates as there are from `p` on, separated by commas.
pub open spec fn predicates(s: Seq<TokenView>, p: int) -> (Seq<WhereClausePredicateView>, int)
    decreases s.len() - p,
{
    match predicate(s, p) {
        Some((pr, e)) => {
            let this = WhereClausePredicateView { comma: comma_at(s, e), ..pr };
            if punct_at(s, e, ',') && p < e {
                let (rest, end) = predicates(s, e + 1);
                (seq![this] + rest, end)
            } else {
                (seq![this], e)
            }
        },
        None => (Seq::empty(), p),
    }
}

/// An optional `where` clause at `p`.
pub open spec fn where_clause(s: Seq<TokenView>, p: int) -> (Option<WhereClausesView>, int) {
    if ident_at(s, p, "where"@) {
        let (clauses, e) = predicates(s, p + 1);
        (Some(WhereClausesView { clauses }), e)
    } else {
        (None, p)
    }
}

/// A receiver at `p`.
pub open spec fn self_param(s: Seq<TokenView>, p: int) -> Option<(SelfParam, int)> {
    if ident_at(s, p, "self"@) {
        Some((SelfParam::Value, p + 1))
    } else if punct_at(s, p, '&') && ident_at(s, p + 1, "self"@) {
        Some((SelfParam::Ref(joint_of(s[p])), p + 2))
    } else if punct_at(s, p, '&') && ident_at(s, p + 1, "mut"@) && ident_at(s, p + 2, "self"@) {
        Some((SelfParam::RefMut(joint_of(s[p])), p + 3))
    } else if ident_at(s, p, "mut"@) && ident_at(s, p + 1, "self"@) {
        Some((SelfParam::Mut, p + 2))
    } else {
        None
    }
}

/// A named parameter at `p`: an optional `mut`, a name, `:` and at least one
/// unit of type, up to the next comma.
pub open spec fn named_param(s: Seq<TokenView>, p: int) -> Option<(NamedParamView, int)> {
    let (m, n) = keyword(s, p, "mut"@);
    let e = verbatim_end(s, n + 2, Stop::Comma);
    if any_ident_at(s, n) && punct_at(s, n + 1, ':') && n + 2 < e <= s.len() {
        Some(
            (
                NamedParamView {
                    mut_kw: m,
                    name: text_of(s[n]),
                    colon_joint: joint_of(s[n + 1]),
                    param_type: s.subrange(n + 2, e),
                },
                e,
            ),
        )
    } else {
        None
    }
}

/// A pattern at `p`: a name; else a parenthesis group that holds a list of
/// patterns and nothing more; else at least one unit before the next `:`.
pub open spec fn pattern(s: Seq<TokenView>, p: int) -> Option<(PatternView, int)>
    decreases s, 0int, 0int,
{
    if p < 0 || p >= s.len() {
        None
    } else {
        match s[p] {
            TokenView::Ident(name) => Some((PatternView::Ident(name), p + 1)),
            TokenView::Group(Delimiter::Parenthesis, inner) => {
                match fields(inner, 0) {
                    Some(fs) => Some((PatternView::Tuple(fs), p + 1)),
                    None => other_pattern(s, p),
                }
            },
            _ => other_pattern(s, p),
        }
    }
}

/// The fallback pattern at `p`: at least one unit before the next `:`.
pub open spec fn other_pattern(s: Seq<TokenView>, p: int) -> Option<(PatternView, int)> {
    let e = verbatim_end(s, p, Stop::Colon);
    if 0 <= p < e <= s.len() {
        Some((PatternView::Other(s.subrange(p, e)), e))
    } else {
        None
    }
}

/// The elements of a tuple pattern from `p` to the end of `s`: patterns
/// separated by commas, the last comma optional. Nothing where a token is
/// left over.
pub open spec fn fields(s: Seq<TokenView>, p: int) -> Option<Seq<PatternFieldView>>
    decreases s, 1int, s.len() - p,
{
    if p < 0 || p >= s.len() {
        Some(Seq::empty())
    } else {
        match pattern(s, p) {
            Some((pat, e)) => {
                let this = PatternFieldView { pattern: pat, comma: comma_at(s, e) };
                if punct_at(s, e, ',') && p < e {
                    match fields(s, e + 1) {
                        Some(rest) => Some(seq![this] + rest),
                        None => None,
                    }
                } else if e == s.len() {
                    Some(seq![this])
                } else {
                    None
                }
            },
            None => None,
        }
    }
}

/// A pattern parameter at `p`: an optional `mut`, a pattern, `:` and at
/// least one unit of type, up to the next comma or parenthesis group.
pub open spec fn pattern_param(s: Seq<TokenView>, p: int) -> Option<(PatternParamView, int)> {
    let (m, n) = keyword(s, p, "mut"@);
    match pattern(s, n) {
        Some((pat, c)) => {
            let e = verbatim_end(s, c + 1, Stop::CommaOrParen);
            if punct_at(s, c, ':') && c + 1 < e <= s.len() {
                Some(
                    (
                        PatternParamView {
                            mut_kw: m,
                            pattern: pat,
                            colon_joint: joint_of(s[c]),
                            param_type: s.subrange(c + 1, e),
                        },
                        e,
                    ),
                )
            } else {
                None
            }
        },
        None => None,
    }
}

/// A parameter at `p`: a receiver, else a named parameter, else a pattern
/// parameter.
pub open spec fn fn_param(s: Seq<TokenView>, p: int) -> Option<(FnParamView, int)> {
    match self_param(s, p) {
        Some((sp, e)) => Some((FnParamView::SelfParam(sp), e)),
        None => match named_param(s, p) {
            Some((np, e)) => Some((FnParamView::Named(np), e)),
            None => match pattern_param(s, p) {
                Some((pp, e)) => Some((FnParamView::Pattern(pp), e)),
                None => None,
            },
        },
    }
}

/// The parameters from `p` to the end of `s`: parameters separated by
/// commas, the last comma optional. Nothing where a token is left over.
pub open spec fn params(s: Seq<TokenView>, p: int) -> Option<Seq<ParamView>>
    decreases s.len() - p,
{
    if p < 0 || p >= s.len() {
        Some(Seq::empty())
    } else {
        match fn_param(s, p) {
            Some((v, e)) => {
                let this = ParamView { value: v, comma: comma_at(s, e) };
                if punct_at(s, e, ',') && p < e {
                    match params(s, e + 1) {
                        Some(rest) => Some(seq![this] + rest),
                        None => None,
                    }
                } else if e == s.len() {
                    Some(seq![this])
                } else {
                    None
                }
            },
            None => None,
        }
    }
}

/// A function with a body at `p`: attributes, visibility, `const`, `async`,
/// `unsafe` and `extern` in this order and each optional, `fn`, a name,
/// optional generics, a parenthesised parameter list, an optional return
/// type, an optional `where` clause and a brace group.
pub open spec fn fn_sig(s: Seq<TokenView>, p: int) -> Option<(FnSigView, int)> {
    let (attrs, p1) = attributes(s, p);
    let (vis, p2) = visibility(s, p1);
    let (const_kw, p3) = keyword(s, p2, "const"@);
    let (async_kw, p4) = keyword(s, p3, "async"@);
    let (unsafe_kw, p5) = keyword(s, p4, "unsafe"@);
    let (extern_kw, p6) = extern_spec(s, p5);
    let (gen, p7) = generics(s, p6 + 2);
    let (ret, p8) = return_type(s, p7 + 1);
    let (wh, p9) = where_clause(s, p8);
    if ident_at(s, p6, "fn"@) && any_ident_at(s, p6 + 1) && group_at(
        s,
        p7,
        Delimiter::Parenthesis,
    ) && params(group_inner(s[p7]), 0) is Some && group_at(s, p9, Delimiter::Brace) {
        Some(
            (
                FnSigView {
                    attributes: attrs,
                    visibility: vis,
                    const_kw,
                    async_kw,
                    unsafe_kw,
                    extern_kw,
                    name: text_of(s[p6 + 1]),
                    generics: gen,
                    params: params(group_inner(s[p7]), 0).unwrap(),
                    return_type: ret,
                    where_clause: wh,
                    body: group_inner(s[p9]),
                },
                p9 + 1,
            ),
        )
    } else {
        None
    }
}

/// An `impl` block at `p`: attributes, `impl`, optional generics, at least
/// one unit of target type, optionally `for` and at least one unit, an
/// optional `where` clause and a brace group. No part reaches over a `;`.
pub open spec fn impl_block(s: Seq<TokenView>, p: int) -> Option<(ImplBlockSigView, int)> {
    let (attrs, p1) = attributes(s, p);
    let (gen, p2) = generics(s, p1 + 1);
    let p3 = verbatim_end(s, p2, Stop::ForOrWhereOrEnd);
    let f = verbatim_end(s, p3 + 1, Stop::WhereOrEnd);
    let has_for = ident_at(s, p3, "for"@) && p3 + 1 < f <= s.len();
    let p4 = if has_for {
        f
    } else {
        p3
    };
    let (wh, p5) = where_clause(s, p4);
    if ident_at(s, p1, "impl"@) && p2 < p3 <= s.len() && group_at(s, p5, Delimiter::Brace) {
        Some(
            (
                ImplBlockSigView {
                    attributes: attrs,
                    generics: gen,
                    target_type: s.subrange(p2, p3),
                    for_trait: if has_for {
                        Some(s.subrange(p3 + 1, f))
                    } else {
                        None
                    },
                    where_clause: wh,
                    body: group_inner(s[p5]),
                },
                p5 + 1,
            ),
        )
    } else {
        None
    }
}

/// A module with a body at `p`: attributes, optional visibility, `mod`, a
/// name and a brace group.
pub open spec fn module(s: Seq<TokenView>, p: int) -> Option<(ModuleSigView, int)> {
    let (attrs, p1) = attributes(s, p);
    let (vis, p2) = visibility(s, p1);
    if ident_at(s, p2, "mod"@) && any_ident_at(s, p2 + 1) && group_at(
        s,
        p2 + 2,
        Delimiter::Brace,
    ) {
        Some(
            (
                ModuleSigView {
                    attributes: attrs,
                    visibility: vis,
                    name: text_of(s[p2 + 1]),
                    body: group_inner(s[p2 + 2]),
                },
                p2 + 3,
            ),
        )
    } else {
        None
    }
}

/// Optional supertraits at `p`: `:` and at least one unit before `where`,
/// the body or a `;`.
pub open spec fn trait_bounds(s: Seq<TokenView>, p: int) -> (Option<TraitBoundsView>, int) {
    let e = verbatim_end(s, p + 1, Stop::WhereOrEnd);
    if punct_at(s, p, ':') && p + 1 < e <= s.len() {
        (Some(TraitBoundsView { colon_joint: joint_of(s[p]), bounds: s.subrange(p + 1, e) }), e)
    } else {
        (None, p)
    }
}

/// A trait definition at `p`: attributes, optional visibility, optional
/// `unsafe`, `trait`, a name, optional generics, optional supertraits, an
/// optional `where` clause and a brace group.
pub open spec fn trait_def(s: Seq<TokenView>, p: int) -> Option<(TraitSigView, int)> {
    let (attrs, p1) = attributes(s, p);
    let (vis, p2) = visibility(s, p1);
    let (unsafe_kw, p3) = keyword(s, p2, "unsafe"@);
    let (gen, p4) = generics(s, p3 + 2);
    let (bounds, p5) = trait_bounds(s, p4);
    let (wh, p6) = where_clause(s, p5);
    if ident_at(s, p3, "trait"@) && any_ident_at(s, p3 + 1) && group_at(s, p6, Delimiter::Brace) {
        Some(
            (
                TraitSigView {
                    attributes: attrs,
                    visibility: vis,
                    unsafe_kw,
                    name: text_of(s[p3 + 1]),
                    generics: gen,
                    bounds,
                    where_clause: wh,
                    body: group_inner(s[p6]),
                },
                p6 + 1,
            ),
        )
    } else {
        None
    }
}

/// The item at `p`, for `p` inside `s`: a function, else an `impl` block,
/// else a module, else a trait, else the one token that stands there.
pub open spec fn module_item(s: Seq<TokenView>, p: int) -> (ModuleItemView, int) {
    match fn_sig(s, p) {
        Some((f, e)) => (ModuleItemView::Function(f), e),
        None => match impl_block(s, p) {
            Some((i, e)) => (ModuleItemView::ImplBlock(i), e),
            None => match module(s, p) {
                Some((m, e)) => (ModuleItemView::Module(m), e),
                None => match trait_def(s, p) {
                    Some((t, e)) => (ModuleItemView::Trait(t), e),
                    None => (ModuleItemView::Other(s[p]), p + 1),
                },
            },
        },
    }
}

/// The items from `p` to the end of `s`.
pub open spec fn module_items(s: Seq<TokenView>, p: int) -> Seq<ModuleItemView>
    decreases s.len() - p,
{
    if p < 0 || p >= s.len() {
        Seq::empty()
    } else {
        let (item, e) = module_item(s, p);
        if p < e <= s.len() {
            seq![item] + module_items(s, e)
        } else {
            seq![item]
        }
    }
}

} // verus!
