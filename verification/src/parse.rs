//! The parsers: each one recognises, at a position of a token sequence, what
//! the rule of the same name in the grammar gives there.

use crate::combinators::{scan_angle_close, scan_verbatim, Stop};
use crate::grammar;
use crate::syntax::{
    opt_view, view_fields, views, Attribute, ExternSpec, FnParam, FnSig, Generics, ImplBlockSig,
    ModuleItem, ModuleSig, NamedParam, Param, Pattern, PatternField, PatternFieldView,
    PatternParam, ReturnType, SelfParam, TraitBounds, TraitSig, Visibility, WhereClausePredicate,
    WhereClauses,
};
use crate::token::{
    clone_range, clone_tokens, group_inner, view_tokens, Delimiter, LiteralKind, Token,
};
use vstd::prelude::*;

verus! {

/// What a parser found, as the grammar states it.
pub open spec fn found<T: View>(r: Option<(T, usize)>) -> Option<(T::V, int)> {
    match r {
        Some((t, e)) => Some((t@, e as int)),
        None => None,
    }
}

/// What a parser of an optional part found, as the grammar states it.
pub open spec fn found_opt<T: View>(r: (Option<T>, usize)) -> (Option<T::V>, int) {
    (opt_view(r.0), r.1 as int)
}

/// A copy of the tokens inside a group; nothing for any other token.
pub fn inner_tokens(t: &Token) -> (r: Vec<Token>)
    ensures
        view_tokens(r@) == group_inner(t@),
{
    match t {
        Token::Group(_, inner) => clone_tokens(inner),
        _ => {
            let r: Vec<Token> = Vec::new();
            assert(view_tokens(r@) =~= Seq::empty());
            r
        },
    }
}

/// Whether a token stands at `p` and is the identifier `text`.
pub fn ident_at(tokens: &Vec<Token>, p: usize, text: &str) -> (r: bool)
    ensures
        r == crate::token::ident_at(view_tokens(tokens@), p as int, text@),
{
    p < tokens.len() && tokens[p].is_ident(text)
}

/// Whether a token stands at `p` and is an identifier.
pub fn any_ident_at(tokens: &Vec<Token>, p: usize) -> (r: bool)
    ensures
        r == grammar::any_ident_at(view_tokens(tokens@), p as int),
{
    p < tokens.len() && tokens[p].is_any_ident()
}

/// Whether a token stands at `p` and is the mark `c`.
pub fn punct_at(tokens: &Vec<Token>, p: usize, c: char) -> (r: bool)
    ensures
        r == crate::token::punct_at(view_tokens(tokens@), p as int, c),
{
    p < tokens.len() && tokens[p].is_punct(c)
}

/// Whether a token stands at `p` and is a group with delimiter `d`.
pub fn group_at(tokens: &Vec<Token>, p: usize, d: Delimiter) -> (r: bool)
    ensures
        r == crate::token::group_at(view_tokens(tokens@), p as int, d),
{
    p < tokens.len() && tokens[p].is_group(d)
}

/// Whether a token stands at `p` and is a plain string literal.
pub fn string_at(tokens: &Vec<Token>, p: usize) -> (r: bool)
    ensures
        r == grammar::string_at(view_tokens(tokens@), p as int),
{
    if p < tokens.len() {
        match tokens[p].literal_kind() {
            Some(LiteralKind::Str) => true,
            _ => false,
        }
    } else {
        false
    }
}

/// A copy of the text of the identifier or literal at `p`.
pub fn text_at(tokens: &Vec<Token>, p: usize) -> (r: String)
    requires
        p < tokens.len(),
    ensures
        r@ == crate::token::text_of(view_tokens(tokens@)[p as int]),
{
    match &tokens[p] {
        Token::Ident(s) => s.clone(),
        Token::Literal(s) => s.clone(),
        _ => String::new(),
    }
}

/// The joint flag of the comma at `p`, if a comma stands there, and the
/// position behind it.
pub fn parse_comma(tokens: &Vec<Token>, p: usize) -> (r: (Option<bool>, usize))
    requires
        p <= tokens.len(),
    ensures
        r.0 == grammar::comma_at(view_tokens(tokens@), p as int),
        r.1 == grammar::after_comma(view_tokens(tokens@), p as int),
        p <= r.1 <= tokens.len(),
{
    if punct_at(tokens, p, ',') {
        (Some(tokens[p].joint_flag()), p + 1)
    } else {
        (None, p)
    }
}

/// Parses as many attributes as there are from `p` on.
pub fn parse_attributes(tokens: &Vec<Token>, p: usize) -> (r: (Vec<Attribute>, usize))
    requires
        p <= tokens.len(),
    ensures
        (views(r.0@), r.1 as int) == grammar::attributes(view_tokens(tokens@), p as int),
        p <= r.1 <= tokens.len(),
{
    let ghost s = view_tokens(tokens@);
    let mut out: Vec<Attribute> = Vec::new();
    let mut q: usize = p;
    assert(views(out@) + grammar::attributes(s, q as int).0 =~= grammar::attributes(s, q as int).0);
    while punct_at(tokens, q, '#') && tokens.len() - q >= 2 && group_at(
        tokens,
        q + 1,
        Delimiter::Bracket,
    )
        invariant
            p <= q <= tokens.len(),
            s == view_tokens(tokens@),
            grammar::attributes(s, p as int) == (
                views(out@) + grammar::attributes(s, q as int).0,
                grammar::attributes(s, q as int).1,
            ),
        decreases tokens.len() - q,
    {
        let ghost before = out@;
        let attr = Attribute { joint: tokens[q].joint_flag(), content: inner_tokens(&tokens[q + 1]) };
        out.push(attr);
        proof {
            let rest = grammar::attributes(s, q + 2).0;
            assert(views(out@) =~= views(before).push(attr@));
            assert(views(before) + (seq![attr@] + rest) =~= views(out@) + rest);
        }
        q += 2;
    }
    assert(views(out@) + Seq::empty() =~= views(out@));
    (out, q)
}

/// Parses an optional visibility at `p`.
pub fn parse_visibility(tokens: &Vec<Token>, p: usize) -> (r: (Option<Visibility>, usize))
    requires
        p <= tokens.len(),
    ensures
        found_opt(r) == grammar::visibility(view_tokens(tokens@), p as int),
        p <= r.1 <= tokens.len(),
{
    if ident_at(tokens, p, "pub") {
        if tokens.len() - p >= 2 && group_at(tokens, p + 1, Delimiter::Parenthesis) {
            (Some(Visibility::Restricted(inner_tokens(&tokens[p + 1]))), p + 2)
        } else {
            (Some(Visibility::Public), p + 1)
        }
    } else {
        (None, p)
    }
}

/// Parses an optional keyword at `p`.
pub fn parse_keyword(tokens: &Vec<Token>, p: usize, text: &str) -> (r: (bool, usize))
    requires
        p <= tokens.len(),
    ensures
        r.0 == grammar::keyword(view_tokens(tokens@), p as int, text@).0,
        r.1 == grammar::keyword(view_tokens(tokens@), p as int, text@).1,
        p <= r.1 <= tokens.len(),
{
    if ident_at(tokens, p, text) {
        (true, p + 1)
    } else {
        (false, p)
    }
}

/// Parses an optional foreign-linkage marker at `p`.
pub fn parse_extern_spec(tokens: &Vec<Token>, p: usize) -> (r: (Option<ExternSpec>, usize))
    requires
        p <= tokens.len(),
    ensures
        found_opt(r) == grammar::extern_spec(view_tokens(tokens@), p as int),
        p <= r.1 <= tokens.len(),
{
    if ident_at(tokens, p, "extern") {
        if tokens.len() - p >= 2 && string_at(tokens, p + 1) {
            (Some(ExternSpec::WithAbi(text_at(tokens, p + 1))), p + 2)
        } else {
            (Some(ExternSpec::Bare), p + 1)
        }
    } else {
        (None, p)
    }
}

/// Parses optional generics at `p`.
pub fn parse_generics(tokens: &Vec<Token>, p: usize) -> (r: (Option<Generics>, usize))
    requires
        p <= tokens.len(),
    ensures
        found_opt(r) == grammar::generics(view_tokens(tokens@), p as int),
        p <= r.1 <= tokens.len(),
{
    if punct_at(tokens, p, '<') {
        let q = scan_angle_close(tokens, p + 1);
        if p + 1 < q && q < tokens.len() {
            let g = Generics {
                lt_joint: tokens[p].joint_flag(),
                content: clone_range(tokens, p + 1, q),
                gt_joint: tokens[q].joint_flag(),
            };
            (Some(g), q + 1)
        } else {
            (None, p)
        }
    } else {
        (None, p)
    }
}

/// Parses an optional return type at `p`.
pub fn parse_return_type(tokens: &Vec<Token>, p: usize) -> (r: (Option<ReturnType>, usize))
    requires
        p <= tokens.len(),
    ensures
        found_opt(r) == grammar::return_type(view_tokens(tokens@), p as int),
        p <= r.1 <= tokens.len(),
{
    if punct_at(tokens, p, '-') && tokens[p].joint_flag() && tokens.len() - p >= 2 && punct_at(
        tokens,
        p + 1,
        '>',
    ) {
        let e = scan_verbatim(tokens, p + 2, Stop::WhereOrEnd);
        if p + 2 < e {
            let rt = ReturnType {
                gt_joint: tokens[p + 1].joint_flag(),
                return_type: clone_range(tokens, p + 2, e),
            };
            (Some(rt), e)
        } else {
            (None, p)
        }
    } else {
        (None, p)
    }
}

/// Parses a predicate of a `where` clause at `p`, without the comma behind
/// it.
pub fn parse_predicate(tokens: &Vec<Token>, p: usize) -> (r: Option<(WhereClausePredicate, usize)>)
    requires
        p <= tokens.len(),
    ensures
        found(r) == grammar::predicate(view_tokens(tokens@), p as int),
        r matches Some((_, e)) ==> p < e <= tokens.len(),
{
    let c = scan_verbatim(tokens, p, Stop::ColonOrEnd);
    if p < c && punct_at(tokens, c, ':') {
        let e = scan_verbatim(tokens, c + 1, Stop::CommaOrEnd);
        if c + 1 < e {
            let pr = WhereClausePredicate {
                pred: clone_range(tokens, p, c),
                colon_joint: tokens[c].joint_flag(),
                bounds: clone_range(tokens, c + 1, e),
                comma: None,
            };
            Some((pr, e))
        } else {
            None
        }
    } else {
        None
    }
}

/// Parses as many predicates as there are from `p` on.
pub fn parse_predicates(tokens: &Vec<Token>, p: usize) -> (r: (Vec<WhereClausePredicate>, usize))
    requires
        p <= tokens.len(),
    ensures
        (views(r.0@), r.1 as int) == grammar::predicates(view_tokens(tokens@), p as int),
        p <= r.1 <= tokens.len(),
{
    let ghost s = view_tokens(tokens@);
    let mut out: Vec<WhereClausePredicate> = Vec::new();
    let mut q: usize = p;
    let mut done = false;
    assert(views(out@) + grammar::predicates(s, q as int).0 =~= grammar::predicates(s, q as int).0);
    while !done
        invariant
            p <= q <= tokens.len(),
            s == view_tokens(tokens@),
            !done ==> grammar::predicates(s, p as int) == (
                views(out@) + grammar::predicates(s, q as int).0,
                grammar::predicates(s, q as int).1,
            ),
            done ==> grammar::predicates(s, p as int) == (views(out@), q as int),
        decreases tokens.len() - q, if done { 0int } else { 1int },
    {
        let ghost before = out@;
        match parse_predicate(tokens, q) {
            Some((pr, e)) => {
                let (comma, next) = parse_comma(tokens, e);
                let this = WhereClausePredicate { comma, ..pr };
                out.push(this);
                proof {
                    assert(views(out@) =~= views(before).push(this@));
                    if comma is Some {
                        let rest = grammar::predicates(s, e + 1).0;
                        assert(views(before) + (seq![this@] + rest) =~= views(out@) + rest);
                    } else {
                        assert(views(before) + seq![this@] =~= views(out@));
                    }
                }
                if comma.is_none() {
                    done = true;
                }
                q = next;
            },
            None => {
                assert(views(out@) + Seq::empty() =~= views(out@));
                done = true;
            },
        }
    }
    (out, q)
}

/// Parses an optional `where` clause at `p`.
pub fn parse_where_clause(tokens: &Vec<Token>, p: usize) -> (r: (Option<WhereClauses>, usize))
    requires
        p <= tokens.len(),
    ensures
        found_opt(r) == grammar::where_clause(view_tokens(tokens@), p as int),
        p <= r.1 <= tokens.len(),
{
    if ident_at(tokens, p, "where") {
        let (clauses, e) = parse_predicates(tokens, p + 1);
        (Some(WhereClauses { clauses }), e)
    } else {
        (None, p)
    }
}

/// Parses optional supertraits at `p`.
pub fn parse_trait_bounds(tokens: &Vec<Token>, p: usize) -> (r: (Option<TraitBounds>, usize))
    requires
        p <= tokens.len(),
    ensures
        found_opt(r) == grammar::trait_bounds(view_tokens(tokens@), p as int),
        p <= r.1 <= tokens.len(),
{
    if punct_at(tokens, p, ':') {
        let e = scan_verbatim(tokens, p + 1, Stop::WhereOrEnd);
        if p + 1 < e {
            let b = TraitBounds {
                colon_joint: tokens[p].joint_flag(),
                bounds: clone_range(tokens, p + 1, e),
            };
            (Some(b), e)
        } else {
            (None, p)
        }
    } else {
        (None, p)
    }
}

/// Parses a receiver at `p`.
pub fn parse_self_param(tokens: &Vec<Token>, p: usize) -> (r: Option<(SelfParam, usize)>)
    requires
        p <= tokens.len(),
    ensures
        match r {
            Some((sp, e)) => Some((sp, e as int)),
            None => None,
        } == grammar::self_param(view_tokens(tokens@), p as int),
        r matches Some((_, e)) ==> p < e <= tokens.len(),
{
    let n = tokens.len() - p;
    if ident_at(tokens, p, "self") {
        Some((SelfParam::Value, p + 1))
    } else if punct_at(tokens, p, '&') && n >= 2 && ident_at(tokens, p + 1, "self") {
        Some((SelfParam::Ref(tokens[p].joint_flag()), p + 2))
    } else if punct_at(tokens, p, '&') && n >= 3 && ident_at(tokens, p + 1, "mut") && ident_at(
        tokens,
        p + 2,
        "self",
    ) {
        Some((SelfParam::RefMut(tokens[p].joint_flag()), p + 3))
    } else if ident_at(tokens, p, "mut") && n >= 2 && ident_at(tokens, p + 1, "self") {
        Some((SelfParam::Mut, p + 2))
    } else {
        None
    }
}

/// Parses a named parameter at `p`.
pub fn parse_named_param(tokens: &Vec<Token>, p: usize) -> (r: Option<(NamedParam, usize)>)
    requires
        p <= tokens.len(),
    ensures
        found(r) == grammar::named_param(view_tokens(tokens@), p as int),
        r matches Some((_, e)) ==> p < e <= tokens.len(),
{
    let (m, n) = parse_keyword(tokens, p, "mut");
    if any_ident_at(tokens, n) && tokens.len() - n >= 2 && punct_at(tokens, n + 1, ':') {
        let e = scan_verbatim(tokens, n + 2, Stop::Comma);
        if n + 2 < e {
            let np = NamedParam {
                mut_kw: m,
                name: text_at(tokens, n),
                colon_joint: tokens[n + 1].joint_flag(),
                param_type: clone_range(tokens, n + 2, e),
            };
            Some((np, e))
        } else {
            None
        }
    } else {
        None
    }
}

/// Parses the fallback pattern at `p`: the units before the next `:`.
pub fn parse_other_pattern(tokens: &Vec<Token>, p: usize) -> (r: Option<(Pattern, usize)>)
    requires
        p <= tokens.len(),
    ensures
        found(r) == grammar::other_pattern(view_tokens(tokens@), p as int),
        r matches Some((_, e)) ==> p < e <= tokens.len(),
{
    let e = scan_verbatim(tokens, p, Stop::Colon);
    if p < e {
        Some((Pattern::Other(clone_range(tokens, p, e)), e))
    } else {
        None
    }
}

/// What a parser of a list of tuple elements found, as the grammar states it.
pub open spec fn found_fields(r: Option<Vec<PatternField>>) -> Option<Seq<PatternFieldView>> {
    match r {
        Some(fs) => Some(view_fields(fs@)),
        None => None,
    }
}

/// Parses a pattern at `p`.
pub fn parse_pattern(tokens: &Vec<Token>, p: usize) -> (r: Option<(Pattern, usize)>)
    requires
        p <= tokens.len(),
    ensures
        found(r) == grammar::pattern(view_tokens(tokens@), p as int),
        r matches Some((_, e)) ==> p < e <= tokens.len(),
    decreases view_tokens(tokens@), 0int, 0int,
{
    if p >= tokens.len() {
        return None;
    }
    match &tokens[p] {
        Token::Ident(name) => Some((Pattern::Ident(name.clone()), p + 1)),
        Token::Group(Delimiter::Parenthesis, inner) => {
            match parse_fields(inner, 0) {
                Some(fs) => Some((Pattern::Tuple(fs), p + 1)),
                None => parse_other_pattern(tokens, p),
            }
        },
        _ => parse_other_pattern(tokens, p),
    }
}

/// Parses the elements of a tuple pattern from `p` to the end of `tokens`.
#[verifier::loop_isolation(false)]
pub fn parse_fields(tokens: &Vec<Token>, p: usize) -> (r: Option<Vec<PatternField>>)
    requires
        p <= tokens.len(),
    ensures
        found_fields(r) == grammar::fields(view_tokens(tokens@), p as int),
    decreases view_tokens(tokens@), 1int, tokens.len() - p,
{
    let ghost s = view_tokens(tokens@);
    let mut out: Vec<PatternField> = Vec::new();
    let mut q: usize = p;
    proof {
        if grammar::fields(s, q as int) is Some {
            assert(view_fields(out@) + grammar::fields(s, q as int).unwrap() =~= grammar::fields(
                s,
                q as int,
            ).unwrap());
        }
    }
    while q < tokens.len()
        invariant
            p <= q <= tokens.len(),
            grammar::fields(s, p as int) == match grammar::fields(s, q as int) {
                Some(rest) => Some(view_fields(out@) + rest),
                None => None,
            },
        decreases tokens.len() - q,
    {
        let ghost before = out@;
        match parse_pattern(tokens, q) {
            Some((pat, e)) => {
                let (comma, next) = parse_comma(tokens, e);
                let this = PatternField { pattern: pat, comma };
                if comma.is_some() {
                    out.push(this);
                    proof {
                        assert(view_fields(out@) =~= view_fields(before).push(this@));
                        if grammar::fields(s, e + 1) is Some {
                            let rest = grammar::fields(s, e + 1).unwrap();
                            assert(view_fields(before) + (seq![this@] + rest) =~= view_fields(out@)
                                + rest);
                        }
                    }
                    q = next;
                } else if e == tokens.len() {
                    out.push(this);
                    proof {
                        assert(view_fields(out@) =~= view_fields(before).push(this@));
                        assert(view_fields(before) + seq![this@] =~= view_fields(out@));
                    }
                    return Some(out);
                } else {
                    return None;
                }
            },
            None => {
                return None;
            },
        }
    }
    assert(view_fields(out@) + Seq::empty() =~= view_fields(out@));
    Some(out)
}

/// Parses a pattern parameter at `p`.
pub fn parse_pattern_param(tokens: &Vec<Token>, p: usize) -> (r: Option<(PatternParam, usize)>)
    requires
        p <= tokens.len(),
    ensures
        found(r) == grammar::pattern_param(view_tokens(tokens@), p as int),
        r matches Some((_, e)) ==> p < e <= tokens.len(),
{
    let (m, n) = parse_keyword(tokens, p, "mut");
    match parse_pattern(tokens, n) {
        Some((pat, c)) => {
            if punct_at(tokens, c, ':') {
                let e = scan_verbatim(tokens, c + 1, Stop::CommaOrParen);
                if c + 1 < e {
                    let pp = PatternParam {
                        mut_kw: m,
                        pattern: pat,
                        colon_joint: tokens[c].joint_flag(),
                        param_type: clone_range(tokens, c + 1, e),
                    };
                    Some((pp, e))
                } else {
                    None
                }
            } else {
                None
            }
        },
        None => None,
    }
}

/// Parses a parameter at `p`.
pub fn parse_fn_param(tokens: &Vec<Token>, p: usize) -> (r: Option<(FnParam, usize)>)
    requires
        p <= tokens.len(),
    ensures
        found(r) == grammar::fn_param(view_tokens(tokens@), p as int),
        r matches Some((_, e)) ==> p < e <= tokens.len(),
{
    match parse_self_param(tokens, p) {
        Some((sp, e)) => Some((FnParam::SelfParam(sp), e)),
        None => match parse_named_param(tokens, p) {
            Some((np, e)) => Some((FnParam::Named(np), e)),
            None => match parse_pattern_param(tokens, p) {
                Some((pp, e)) => Some((FnParam::Pattern(pp), e)),
                None => None,
            },
        },
    }
}

/// Parses the parameters from `p` to the end of `tokens`.
pub fn parse_params(tokens: &Vec<Token>, p: usize) -> (r: Option<Vec<Param>>)
    requires
        p <= tokens.len(),
    ensures
        match r {
            Some(ps) => Some(views(ps@)),
            None => None,
        } == grammar::params(view_tokens(tokens@), p as int),
{
    let ghost s = view_tokens(tokens@);
    let mut out: Vec<Param> = Vec::new();
    let mut q: usize = p;
    proof {
        if grammar::params(s, q as int) is Some {
            assert(views(out@) + grammar::params(s, q as int).unwrap() =~= grammar::params(
                s,
                q as int,
            ).unwrap());
        }
    }
    while q < tokens.len()
        invariant
            p <= q <= tokens.len(),
            s == view_tokens(tokens@),
            grammar::params(s, p as int) == match grammar::params(s, q as int) {
                Some(rest) => Some(views(out@) + rest),
                None => None,
            },
        decreases tokens.len() - q,
    {
        let ghost before = out@;
        match parse_fn_param(tokens, q) {
            Some((v, e)) => {
                let (comma, next) = parse_comma(tokens, e);
                let this = Param { value: v, comma };
                if comma.is_some() {
                    out.push(this);
                    proof {
                        assert(views(out@) =~= views(before).push(this@));
                        if grammar::params(s, e + 1) is Some {
                            let rest = grammar::params(s, e + 1).unwrap();
                            assert(views(before) + (seq![this@] + rest) =~= views(out@) + rest);
                        }
                    }
                    q = next;
                } else if e == tokens.len() {
                    out.push(this);
                    proof {
                        assert(views(out@) =~= views(before).push(this@));
                        assert(views(before) + seq![this@] =~= views(out@));
                    }
                    return Some(out);
                } else {
                    return None;
                }
            },
            None => {
                return None;
            },
        }
    }
    assert(views(out@) + Seq::empty() =~= views(out@));
    Some(out)
}

/// Parses a function with a body at `p`.
#[verifier::rlimit(50)]
pub fn parse_fn_sig(tokens: &Vec<Token>, p: usize) -> (r: Option<(FnSig, usize)>)
    requires
        p <= tokens.len(),
    ensures
        found(r) == grammar::fn_sig(view_tokens(tokens@), p as int),
        r matches Some((_, e)) ==> p < e <= tokens.len(),
{
    let (attributes, p1) = parse_attributes(tokens, p);
    let (visibility, p2) = parse_visibility(tokens, p1);
    let (const_kw, p3) = parse_keyword(tokens, p2, "const");
    let (async_kw, p4) = parse_keyword(tokens, p3, "async");
    let (unsafe_kw, p5) = parse_keyword(tokens, p4, "unsafe");
    let (extern_kw, p6) = parse_extern_spec(tokens, p5);
    if !(ident_at(tokens, p6, "fn") && tokens.len() - p6 >= 2 && any_ident_at(tokens, p6 + 1)) {
        return None;
    }
    let name = text_at(tokens, p6 + 1);
    let (generics, p7) = parse_generics(tokens, p6 + 2);
    if !group_at(tokens, p7, Delimiter::Parenthesis) {
        return None;
    }
    let params = match &tokens[p7] {
        Token::Group(_, inner) => parse_params(inner, 0),
        _ => None,
    };
    let params = match params {
        Some(ps) => ps,
        None => {
            return None;
        },
    };
    let (return_type, p8) = parse_return_type(tokens, p7 + 1);
    let (where_clause, p9) = parse_where_clause(tokens, p8);
    if !group_at(tokens, p9, Delimiter::Brace) {
        return None;
    }
    let sig = FnSig {
        attributes,
        visibility,
        const_kw,
        async_kw,
        unsafe_kw,
        extern_kw,
        name,
        generics,
        params,
        return_type,
        where_clause,
        body: inner_tokens(&tokens[p9]),
    };
    Some((sig, p9 + 1))
}

/// Parses an `impl` block at `p`.
#[verifier::rlimit(50)]
pub fn parse_impl_block(tokens: &Vec<Token>, p: usize) -> (r: Option<(ImplBlockSig, usize)>)
    requires
        p <= tokens.len(),
    ensures
        found(r) == grammar::impl_block(view_tokens(tokens@), p as int),
        r matches Some((_, e)) ==> p < e <= tokens.len(),
{
    let (attributes, p1) = parse_attributes(tokens, p);
    if !ident_at(tokens, p1, "impl") {
        return None;
    }
    let (generics, p2) = parse_generics(tokens, p1 + 1);
    let p3 = scan_verbatim(tokens, p2, Stop::ForOrWhereOrEnd);
    if p3 <= p2 {
        return None;
    }
    let target_type = clone_range(tokens, p2, p3);
    let mut for_trait: Option<Vec<Token>> = None;
    let mut p4 = p3;
    if ident_at(tokens, p3, "for") {
        let f = scan_verbatim(tokens, p3 + 1, Stop::WhereOrEnd);
        if p3 + 1 < f {
            for_trait = Some(clone_range(tokens, p3 + 1, f));
            p4 = f;
        }
    }
    let (where_clause, p5) = parse_where_clause(tokens, p4);
    if !group_at(tokens, p5, Delimiter::Brace) {
        return None;
    }
    let sig = ImplBlockSig {
        attributes,
        generics,
        target_type,
        for_trait,
        where_clause,
        body: inner_tokens(&tokens[p5]),
    };
    Some((sig, p5 + 1))
}

/// Parses a module with a body at `p`.
pub fn parse_module(tokens: &Vec<Token>, p: usize) -> (r: Option<(ModuleSig, usize)>)
    requires
        p <= tokens.len(),
    ensures
        found(r) == grammar::module(view_tokens(tokens@), p as int),
        r matches Some((_, e)) ==> p < e <= tokens.len(),
{
    let (attributes, p1) = parse_attributes(tokens, p);
    let (visibility, p2) = parse_visibility(tokens, p1);
    if ident_at(tokens, p2, "mod") && tokens.len() - p2 >= 3 && any_ident_at(tokens, p2 + 1)
        && group_at(tokens, p2 + 2, Delimiter::Brace) {
        let sig = ModuleSig {
            attributes,
            visibility,
            name: text_at(tokens, p2 + 1),
            body: inner_tokens(&tokens[p2 + 2]),
        };
        Some((sig, p2 + 3))
    } else {
        None
    }
}

/// Parses a trait definition at `p`.
#[verifier::rlimit(50)]
pub fn parse_trait(tokens: &Vec<Token>, p: usize) -> (r: Option<(TraitSig, usize)>)
    requires
        p <= tokens.len(),
    ensures
        found(r) == grammar::trait_def(view_tokens(tokens@), p as int),
        r matches Some((_, e)) ==> p < e <= tokens.len(),
{
    let (attributes, p1) = parse_attributes(tokens, p);
    let (visibility, p2) = parse_visibility(tokens, p1);
    let (unsafe_kw, p3) = parse_keyword(tokens, p2, "unsafe");
    if !(ident_at(tokens, p3, "trait") && tokens.len() - p3 >= 2 && any_ident_at(tokens, p3 + 1)) {
        return None;
    }
    let name = text_at(tokens, p3 + 1);
    let (generics, p4) = parse_generics(tokens, p3 + 2);
    let (bounds, p5) = parse_trait_bounds(tokens, p4);
    let (where_clause, p6) = parse_where_clause(tokens, p5);
    if !group_at(tokens, p6, Delimiter::Brace) {
        return None;
    }
    let sig = TraitSig {
        attributes,
        visibility,
        unsafe_kw,
        name,
        generics,
        bounds,
        where_clause,
        body: inner_tokens(&tokens[p6]),
    };
    Some((sig, p6 + 1))
}

/// Parses the item at `p`: a function, else an `impl` block, else a module,
/// else a trait, else the one token that stands there.
pub fn parse_module_item(tokens: &Vec<Token>, p: usize) -> (r: (ModuleItem, usize))
    requires
        p < tokens.len(),
    ensures
        (r.0@, r.1 as int) == grammar::module_item(view_tokens(tokens@), p as int),
        p < r.1 <= tokens.len(),
{
    match parse_fn_sig(tokens, p) {
        Some((f, e)) => (ModuleItem::Function(f), e),
        None => match parse_impl_block(tokens, p) {
            Some((i, e)) => (ModuleItem::ImplBlock(i), e),
            None => match parse_module(tokens, p) {
                Some((m, e)) => (ModuleItem::Module(m), e),
                None => match parse_trait(tokens, p) {
                    Some((t, e)) => (ModuleItem::Trait(t), e),
                    None => (ModuleItem::Other(tokens[p].deep_clone()), p + 1),
                },
            },
        },
    }
}

/// Parses the items from `p` to the end of `tokens`.
pub fn parse_module_items(tokens: &Vec<Token>, p: usize) -> (r: Vec<ModuleItem>)
    requires
        p <= tokens.len(),
    ensures
        views(r@) == grammar::module_items(view_tokens(tokens@), p as int),
{
    let ghost s = view_tokens(tokens@);
    let mut out: Vec<ModuleItem> = Vec::new();
    let mut q: usize = p;
    assert(views(out@) + grammar::module_items(s, q as int) =~= grammar::module_items(s, q as int));
    while q < tokens.len()
        invariant
            p <= q <= tokens.len(),
            s == view_tokens(tokens@),
            grammar::module_items(s, p as int) == views(out@) + grammar::module_items(s, q as int),
        decreases tokens.len() - q,
    {
        let ghost before = out@;
        let (item, e) = parse_module_item(tokens, q);
        out.push(item);
        proof {
            let rest = grammar::module_items(s, e as int);
            assert(views(out@) =~= views(before).push(item@));
            assert(views(before) + (seq![item@] + rest) =~= views(out@) + rest);
        }
        q = e;
    }
    assert(views(out@) + Seq::empty() =~= views(out@));
    out
}

} // verus!
