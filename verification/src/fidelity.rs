//! What is parsed stands for exactly the tokens it was parsed from: a rule
//! that succeeds consumes a range of the input, and the tokens of what it
//! found are the tokens of that range.

use crate::combinators::{lemma_angle_bounds, lemma_run_bounds, Stop};
use crate::grammar::{
    after_comma, attribute, attributes, comma_at, extern_spec, fields, fn_param, fn_sig, generics,
    impl_block, keyword, module, module_item, module_items, named_param, other_pattern, params,
    pattern, pattern_param, predicate, predicates, return_type, self_param, trait_bounds,
    trait_def, visibility, where_clause,
};
use crate::syntax::{
    attributes_tokens, bounds_tokens, comma_tokens, concat, extern_tokens, field_parts,
    fields_tokens, flag_tokens, generics_tokens, items_tokens, lemma_concat_add,
    lemma_concat_one, params_tokens, pattern_tokens, return_tokens, visibility_tokens,
    where_tokens, AttributeView, ModuleItemView, ParamView, PatternFieldView, PatternView,
    WhereClausePredicateView,
};
use crate::token::{group_inner, Delimiter, TokenView};
use vstd::prelude::*;

verus! {

/// A range is the range up to any point inside it and the range from there.
pub proof fn lemma_split(s: Seq<TokenView>, a: int, b: int, c: int)
    requires
        0 <= a <= b <= c <= s.len(),
    ensures
        s.subrange(a, b) + s.subrange(b, c) == s.subrange(a, c),
{
    assert(s.subrange(a, b) + s.subrange(b, c) =~= s.subrange(a, c));
}

/// The tokens of attributes are those they were read from.
pub proof fn lemma_attributes(s: Seq<TokenView>, p: int)
    requires
        0 <= p <= s.len(),
    ensures
        p <= attributes(s, p).1 <= s.len(),
        attributes_tokens(attributes(s, p).0) == s.subrange(p, attributes(s, p).1),
    decreases s.len() - p,
{
    let f = |a: AttributeView| a.tokens();
    if attribute(s, p) is Some {
        let a = attribute(s, p).unwrap().0;
        let (rest, e) = attributes(s, p + 2);
        lemma_attributes(s, p + 2);
        assert((seq![a] + rest).map_values(f) =~= seq![a.tokens()] + rest.map_values(f));
        lemma_concat_add(seq![a.tokens()], rest.map_values(f));
        lemma_concat_one(a.tokens());
        assert(a.tokens() =~= s.subrange(p, p + 2));
        lemma_split(s, p, p + 2, e);
    } else {
        assert(Seq::<AttributeView>::empty().map_values(f) =~= Seq::empty());
        assert(s.subrange(p, p) =~= Seq::empty());
    }
}

/// The tokens of an optional visibility are those it was read from.
pub proof fn lemma_visibility(s: Seq<TokenView>, p: int)
    requires
        0 <= p <= s.len(),
    ensures
        p <= visibility(s, p).1 <= s.len(),
        visibility_tokens(visibility(s, p).0) == s.subrange(p, visibility(s, p).1),
{
    assert(visibility_tokens(visibility(s, p).0) =~= s.subrange(p, visibility(s, p).1));
}

/// The tokens of an optional keyword are those it was read from.
pub proof fn lemma_keyword(s: Seq<TokenView>, p: int, text: Seq<char>)
    requires
        0 <= p <= s.len(),
    ensures
        p <= keyword(s, p, text).1 <= s.len(),
        flag_tokens(keyword(s, p, text).0, text) == s.subrange(p, keyword(s, p, text).1),
{
    assert(flag_tokens(keyword(s, p, text).0, text) =~= s.subrange(p, keyword(s, p, text).1));
}

/// The tokens of an optional foreign-linkage marker are those it was read
/// from.
pub proof fn lemma_extern_spec(s: Seq<TokenView>, p: int)
    requires
        0 <= p <= s.len(),
    ensures
        p <= extern_spec(s, p).1 <= s.len(),
        extern_tokens(extern_spec(s, p).0) == s.subrange(p, extern_spec(s, p).1),
{
    assert(extern_tokens(extern_spec(s, p).0) =~= s.subrange(p, extern_spec(s, p).1));
}

/// The tokens of optional generics are those they were read from.
pub proof fn lemma_generics(s: Seq<TokenView>, p: int)
    requires
        0 <= p <= s.len(),
    ensures
        p <= generics(s, p).1 <= s.len(),
        generics_tokens(generics(s, p).0) == s.subrange(p, generics(s, p).1),
{
    lemma_angle_bounds(s, p + 1);
    assert(generics_tokens(generics(s, p).0) =~= s.subrange(p, generics(s, p).1));
}

/// The tokens of an optional return type are those it was read from.
pub proof fn lemma_return_type(s: Seq<TokenView>, p: int)
    requires
        0 <= p <= s.len(),
    ensures
        p <= return_type(s, p).1 <= s.len(),
        return_tokens(return_type(s, p).0) == s.subrange(p, return_type(s, p).1),
{
    assert(return_tokens(return_type(s, p).0) =~= s.subrange(p, return_type(s, p).1));
}

/// The tokens of optional supertraits are those they were read from.
pub proof fn lemma_trait_bounds(s: Seq<TokenView>, p: int)
    requires
        0 <= p <= s.len(),
    ensures
        p <= trait_bounds(s, p).1 <= s.len(),
        bounds_tokens(trait_bounds(s, p).0) == s.subrange(p, trait_bounds(s, p).1),
{
    assert(bounds_tokens(trait_bounds(s, p).0) =~= s.subrange(p, trait_bounds(s, p).1));
}

/// The comma behind a list element is the token it was read from.
pub proof fn lemma_comma(s: Seq<TokenView>, p: int)
    requires
        0 <= p <= s.len(),
    ensures
        p <= after_comma(s, p) <= s.len(),
        comma_tokens(comma_at(s, p)) == s.subrange(p, after_comma(s, p)),
{
    assert(comma_tokens(comma_at(s, p)) =~= s.subrange(p, after_comma(s, p)));
}

/// The tokens of the predicates of a `where` clause are those they were
/// read from.
pub proof fn lemma_predicates(s: Seq<TokenView>, p: int)
    requires
        0 <= p <= s.len(),
    ensures
        p <= predicates(s, p).1 <= s.len(),
        concat(predicates(s, p).0.map_values(|c: WhereClausePredicateView| c.tokens()))
            == s.subrange(p, predicates(s, p).1),
    decreases s.len() - p,
{
    let f = |c: WhereClausePredicateView| c.tokens();
    match predicate(s, p) {
        Some((pr, e)) => {
            let this = WhereClausePredicateView { comma: comma_at(s, e), ..pr };
            lemma_comma(s, e);
            assert(this.tokens() =~= s.subrange(p, after_comma(s, e)));
            lemma_concat_one(this.tokens());
            if comma_at(s, e) is Some && p < e {
                let (rest, end) = predicates(s, e + 1);
                lemma_predicates(s, e + 1);
                assert((seq![this] + rest).map_values(f) =~= seq![this.tokens()] + rest.map_values(
                    f,
                ));
                lemma_concat_add(seq![this.tokens()], rest.map_values(f));
                lemma_split(s, p, e + 1, end);
            } else {
                assert(seq![this].map_values(f) =~= seq![this.tokens()]);
            }
        },
        None => {
            assert(Seq::<WhereClausePredicateView>::empty().map_values(f) =~= Seq::empty());
            assert(s.subrange(p, p) =~= Seq::empty());
        },
    }
}

/// The tokens of an optional `where` clause are those it was read from.
pub proof fn lemma_where_clause(s: Seq<TokenView>, p: int)
    requires
        0 <= p <= s.len(),
    ensures
        p <= where_clause(s, p).1 <= s.len(),
        where_tokens(where_clause(s, p).0) == s.subrange(p, where_clause(s, p).1),
{
    if where_clause(s, p).0 is Some {
        lemma_predicates(s, p + 1);
        let e = where_clause(s, p).1;
        assert(seq![s[p]] =~= s.subrange(p, p + 1));
        lemma_split(s, p, p + 1, e);
    } else {
        assert(s.subrange(p, p) =~= Seq::empty());
    }
}

/// The tokens of a pattern are those it was read from.
pub proof fn lemma_pattern(s: Seq<TokenView>, p: int)
    requires
        0 <= p <= s.len(),
    ensures
        pattern(s, p) matches Some((pat, e)) ==> p < e <= s.len() && pattern_tokens(pat)
            == s.subrange(p, e),
    decreases s, 0int, 0int,
{
    if p < s.len() {
        match s[p] {
            TokenView::Ident(name) => {
                assert(pattern_tokens(PatternView::Ident(name)) =~= s.subrange(p, p + 1));
            },
            TokenView::Group(Delimiter::Parenthesis, inner) => {
                match fields(inner, 0) {
                    Some(fs) => {
                        lemma_fields(inner, 0);
                        assert(inner.subrange(0, inner.len() as int) =~= inner);
                        assert(pattern_tokens(PatternView::Tuple(fs)) =~= s.subrange(p, p + 1));
                    },
                    None => {
                        assert(pattern(s, p) == other_pattern(s, p));
                    },
                }
            },
            _ => {
                assert(pattern(s, p) == other_pattern(s, p));
            },
        }
    }
}

/// The tokens of the elements of a tuple pattern are those they were read
/// from: everything from the start to the end of the sequence.
#[verifier::rlimit(50)]
pub proof fn lemma_fields(s: Seq<TokenView>, p: int)
    requires
        0 <= p <= s.len(),
    ensures
        fields(s, p) matches Some(fs) ==> fields_tokens(fs) == s.subrange(p, s.len() as int),
    decreases s, 1int, s.len() - p,
{
    if p >= s.len() {
        assert(field_parts(Seq::<PatternFieldView>::empty()) =~= Seq::empty());
        assert(s.subrange(p, s.len() as int) =~= Seq::empty());
    } else {
        match pattern(s, p) {
            Some((pat, e)) => {
                lemma_pattern(s, p);
                lemma_comma(s, e);
                let this = PatternFieldView { pattern: pat, comma: comma_at(s, e) };
                let part = pattern_tokens(pat) + comma_tokens(comma_at(s, e));
                lemma_split(s, p, e, after_comma(s, e));
                lemma_concat_one(part);
                if comma_at(s, e) is Some && p < e {
                    match fields(s, e + 1) {
                        Some(rest) => {
                            lemma_fields(s, e + 1);
                            assert(field_parts(seq![this] + rest) =~= seq![part] + field_parts(
                                rest,
                            ));
                            lemma_concat_add(seq![part], field_parts(rest));
                            lemma_split(s, p, e + 1, s.len() as int);
                        },
                        None => {},
                    }
                } else if e == s.len() {
                    assert(field_parts(seq![this]) =~= seq![part]);
                }
            },
            None => {},
        }
    }
}

/// The tokens of a parameter are those it was read from.
pub proof fn lemma_fn_param(s: Seq<TokenView>, p: int)
    requires
        0 <= p <= s.len(),
    ensures
        fn_param(s, p) matches Some((v, e)) ==> p < e <= s.len() && v.tokens() == s.subrange(p, e),
{
    match self_param(s, p) {
        Some((sp, e)) => {
            assert(sp.tokens() =~= s.subrange(p, e));
        },
        None => match named_param(s, p) {
            Some((np, e)) => {
                assert(np.tokens() =~= s.subrange(p, e));
            },
            None => match pattern_param(s, p) {
                Some((pp, e)) => {
                    let n = keyword(s, p, "mut"@).1;
                    lemma_pattern(s, n);
                    let c = pattern(s, n).unwrap().1;
                    lemma_keyword(s, p, "mut"@);
                    lemma_split(s, p, n, c);
                    assert(seq![TokenView::Punct(':', pp.colon_joint)] =~= s.subrange(c, c + 1));
                    lemma_split(s, p, c, c + 1);
                    lemma_split(s, p, c + 1, e);
                },
                None => {},
            },
        },
    }
}

/// The tokens of a parameter list are those it was read from: everything
/// from the start to the end of the sequence.
#[verifier::rlimit(50)]
pub proof fn lemma_params(s: Seq<TokenView>, p: int)
    requires
        0 <= p <= s.len(),
    ensures
        params(s, p) matches Some(ps) ==> params_tokens(ps) == s.subrange(p, s.len() as int),
    decreases s.len() - p,
{
    let f = |x: ParamView| x.tokens();
    if p >= s.len() {
        assert(Seq::<ParamView>::empty().map_values(f) =~= Seq::empty());
        assert(s.subrange(p, s.len() as int) =~= Seq::empty());
    } else {
        match fn_param(s, p) {
            Some((v, e)) => {
                lemma_fn_param(s, p);
                lemma_comma(s, e);
                let this = ParamView { value: v, comma: comma_at(s, e) };
                lemma_split(s, p, e, after_comma(s, e));
                lemma_concat_one(this.tokens());
                if comma_at(s, e) is Some && p < e {
                    match params(s, e + 1) {
                        Some(rest) => {
                            lemma_params(s, e + 1);
                            assert((seq![this] + rest).map_values(f) =~= seq![this.tokens()]
                                + rest.map_values(f));
                            lemma_concat_add(seq![this.tokens()], rest.map_values(f));
                            lemma_split(s, p, e + 1, s.len() as int);
                        },
                        None => {},
                    }
                } else if e == s.len() {
                    assert(seq![this].map_values(f) =~= seq![this.tokens()]);
                }
            },
            None => {},
        }
    }
}

/// Where the qualifiers of a function that begin at `p` end.
pub open spec fn qualifiers_end(s: Seq<TokenView>, p: int) -> int {
    let p2 = visibility(s, p).1;
    let p3 = keyword(s, p2, "const"@).1;
    let p4 = keyword(s, p3, "async"@).1;
    let p5 = keyword(s, p4, "unsafe"@).1;
    extern_spec(s, p5).1
}

/// The tokens of the qualifiers of a function are those they were read
/// from.
#[verifier::rlimit(50)]
pub proof fn lemma_qualifiers(s: Seq<TokenView>, p: int)
    requires
        0 <= p <= s.len(),
    ensures
        p <= qualifiers_end(s, p) <= s.len(),
        ({
            let p2 = visibility(s, p).1;
            let p3 = keyword(s, p2, "const"@).1;
            let p4 = keyword(s, p3, "async"@).1;
            let p5 = keyword(s, p4, "unsafe"@).1;
            visibility_tokens(visibility(s, p).0) + flag_tokens(
                keyword(s, p2, "const"@).0,
                "const"@,
            ) + flag_tokens(keyword(s, p3, "async"@).0, "async"@) + flag_tokens(
                keyword(s, p4, "unsafe"@).0,
                "unsafe"@,
            ) + extern_tokens(extern_spec(s, p5).0)
        }) == s.subrange(p, qualifiers_end(s, p)),
{
    let p2 = visibility(s, p).1;
    lemma_visibility(s, p);
    let p3 = keyword(s, p2, "const"@).1;
    lemma_keyword(s, p2, "const"@);
    let p4 = keyword(s, p3, "async"@).1;
    lemma_keyword(s, p3, "async"@);
    let p5 = keyword(s, p4, "unsafe"@).1;
    lemma_keyword(s, p4, "unsafe"@);
    let p6 = extern_spec(s, p5).1;
    lemma_extern_spec(s, p5);
    lemma_split(s, p, p2, p3);
    lemma_split(s, p, p3, p4);
    lemma_split(s, p, p4, p5);
    lemma_split(s, p, p5, p6);
}

/// Where what stands between the name and the body ends, given that it
/// begins at `p`.
pub open spec fn signature_end(s: Seq<TokenView>, p: int) -> int {
    let p7 = generics(s, p).1;
    let p8 = return_type(s, p7 + 1).1;
    where_clause(s, p8).1
}

/// The tokens between the name and the body of a function are those they
/// were read from.
#[verifier::rlimit(50)]
pub proof fn lemma_signature(s: Seq<TokenView>, p: int)
    requires
        0 <= p <= s.len(),
        crate::token::group_at(s, generics(s, p).1, Delimiter::Parenthesis),
        params(group_inner(s[generics(s, p).1]), 0) is Some,
    ensures
        p <= signature_end(s, p) <= s.len(),
        ({
            let p7 = generics(s, p).1;
            let p8 = return_type(s, p7 + 1).1;
            generics_tokens(generics(s, p).0) + seq![
                TokenView::Group(
                    Delimiter::Parenthesis,
                    params_tokens(params(group_inner(s[p7]), 0).unwrap()),
                ),
            ] + return_tokens(return_type(s, p7 + 1).0) + where_tokens(where_clause(s, p8).0)
        }) == s.subrange(p, signature_end(s, p)),
{
    let p7 = generics(s, p).1;
    lemma_generics(s, p);
    let p8 = return_type(s, p7 + 1).1;
    lemma_return_type(s, p7 + 1);
    let p9 = where_clause(s, p8).1;
    lemma_where_clause(s, p8);
    let inner = group_inner(s[p7]);
    lemma_params(inner, 0);
    assert(inner.subrange(0, inner.len() as int) =~= inner);
    let group = TokenView::Group(
        Delimiter::Parenthesis,
        params_tokens(params(inner, 0).unwrap()),
    );
    assert(group == s[p7]);
    assert(seq![group] =~= s.subrange(p7, p7 + 1));
    lemma_split(s, p, p7, p7 + 1);
    lemma_split(s, p, p7 + 1, p8);
    lemma_split(s, p, p8, p9);
}

/// A function that is found stands for exactly the tokens it was read
/// from, and the last of them is its body.
#[verifier::rlimit(50)]
pub proof fn lemma_fn_sig(s: Seq<TokenView>, p: int)
    requires
        0 <= p <= s.len(),
    ensures
        fn_sig(s, p) matches Some((f, e)) ==> {
            &&& p < e <= s.len()
            &&& f.header_tokens() == s.subrange(p, e - 1)
            &&& s[e - 1] == TokenView::Group(Delimiter::Brace, f.body)
            &&& f.tokens() == s.subrange(p, e)
        },
{
    if let Some((f, e)) = fn_sig(s, p) {
        let p1 = attributes(s, p).1;
        lemma_attributes(s, p);
        let p6 = qualifiers_end(s, p1);
        lemma_qualifiers(s, p1);
        assert(f.qualifier_tokens() == s.subrange(p1, p6));
        let p9 = signature_end(s, p6 + 2);
        lemma_signature(s, p6 + 2);
        assert(f.signature_tokens() == s.subrange(p6 + 2, p9));
        assert(e == p9 + 1);
        let name = seq![crate::syntax::kw("fn"@), crate::syntax::kw(f.name)];
        assert(name =~= s.subrange(p6, p6 + 2));
        lemma_split(s, p, p1, p6);
        lemma_split(s, p, p6, p6 + 2);
        lemma_split(s, p, p6 + 2, p9);
        assert(f.header_tokens() == attributes_tokens(f.attributes) + f.qualifier_tokens() + name
            + f.signature_tokens());
        assert(seq![s[p9]] =~= s.subrange(p9, p9 + 1));
        lemma_split(s, p, p9, p9 + 1);
    }
}

/// An `impl` block that is found stands for exactly the tokens it was read
/// from, and the last of them is its body.
#[verifier::rlimit(50)]
pub proof fn lemma_impl_block(s: Seq<TokenView>, p: int)
    requires
        0 <= p <= s.len(),
    ensures
        impl_block(s, p) matches Some((b, e)) ==> {
            &&& p < e <= s.len()
            &&& b.header_tokens() == s.subrange(p, e - 1)
            &&& s[e - 1] == TokenView::Group(Delimiter::Brace, b.body)
            &&& b.tokens() == s.subrange(p, e)
        },
{
    if let Some((b, e)) = impl_block(s, p) {
        let (attrs, p1) = attributes(s, p);
        lemma_attributes(s, p);
        let (gen, p2) = generics(s, p1 + 1);
        lemma_generics(s, p1 + 1);
        let p3 = crate::combinators::verbatim_end(s, p2, Stop::ForOrWhereOrEnd);
        lemma_run_bounds(s, p2, Stop::ForOrWhereOrEnd);
        let f = crate::combinators::verbatim_end(s, p3 + 1, Stop::WhereOrEnd);
        if p3 + 1 <= s.len() {
            lemma_run_bounds(s, p3 + 1, Stop::WhereOrEnd);
        }
        let has_for = crate::token::ident_at(s, p3, "for"@) && p3 + 1 < f <= s.len();
        let p4 = if has_for {
            f
        } else {
            p3
        };
        lemma_where_clause(s, p4);
        let p5 = where_clause(s, p4).1;
        assert(seq![s[p1]] =~= s.subrange(p1, p1 + 1));
        lemma_split(s, p, p1, p1 + 1);
        lemma_split(s, p, p1 + 1, p2);
        lemma_split(s, p, p2, p3);
        if has_for {
            assert(seq![s[p3]] =~= s.subrange(p3, p3 + 1));
            lemma_split(s, p3, p3 + 1, f);
        } else {
            assert(s.subrange(p3, p3) =~= Seq::empty());
        }
        assert(crate::syntax::for_trait_tokens(b.for_trait) == s.subrange(p3, p4));
        lemma_split(s, p, p3, p4);
        lemma_split(s, p, p4, p5);
        assert(seq![s[p5]] =~= s.subrange(p5, p5 + 1));
        lemma_split(s, p, p5, p5 + 1);
    }
}

/// A module that is found stands for exactly the tokens it was read from,
/// and the last of them is its body.
pub proof fn lemma_module(s: Seq<TokenView>, p: int)
    requires
        0 <= p <= s.len(),
    ensures
        module(s, p) matches Some((m, e)) ==> {
            &&& p < e <= s.len()
            &&& m.header_tokens() == s.subrange(p, e - 1)
            &&& s[e - 1] == TokenView::Group(Delimiter::Brace, m.body)
            &&& m.tokens() == s.subrange(p, e)
        },
{
    if let Some((m, e)) = module(s, p) {
        let (attrs, p1) = attributes(s, p);
        lemma_attributes(s, p);
        let (vis, p2) = visibility(s, p1);
        lemma_visibility(s, p1);
        lemma_split(s, p, p1, p2);
        assert(seq![s[p2], s[p2 + 1]] =~= s.subrange(p2, p2 + 2));
        lemma_split(s, p, p2, p2 + 2);
        assert(seq![s[p2 + 2]] =~= s.subrange(p2 + 2, p2 + 3));
        lemma_split(s, p, p2 + 2, p2 + 3);
    }
}

/// A trait that is found stands for exactly the tokens it was read from,
/// and the last of them is its body.
#[verifier::rlimit(50)]
pub proof fn lemma_trait_def(s: Seq<TokenView>, p: int)
    requires
        0 <= p <= s.len(),
    ensures
        trait_def(s, p) matches Some((t, e)) ==> {
            &&& p < e <= s.len()
            &&& t.header_tokens() == s.subrange(p, e - 1)
            &&& s[e - 1] == TokenView::Group(Delimiter::Brace, t.body)
            &&& t.tokens() == s.subrange(p, e)
        },
{
    if let Some((t, e)) = trait_def(s, p) {
        let (attrs, p1) = attributes(s, p);
        lemma_attributes(s, p);
        let (vis, p2) = visibility(s, p1);
        lemma_visibility(s, p1);
        let (unsafe_kw, p3) = keyword(s, p2, "unsafe"@);
        lemma_keyword(s, p2, "unsafe"@);
        let (gen, p4) = generics(s, p3 + 2);
        lemma_generics(s, p3 + 2);
        let (bounds, p5) = trait_bounds(s, p4);
        lemma_trait_bounds(s, p4);
        let (wh, p6) = where_clause(s, p5);
        lemma_where_clause(s, p5);
        lemma_split(s, p, p1, p2);
        lemma_split(s, p, p2, p3);
        assert(seq![s[p3], s[p3 + 1]] =~= s.subrange(p3, p3 + 2));
        lemma_split(s, p, p3, p3 + 2);
        lemma_split(s, p, p3 + 2, p4);
        lemma_split(s, p, p4, p5);
        lemma_split(s, p, p5, p6);
        assert(seq![s[p6]] =~= s.subrange(p6, p6 + 1));
        lemma_split(s, p, p6, p6 + 1);
    }
}

/// The item found at a position stands for exactly the tokens it was read
/// from, and it is read from at least one.
pub proof fn lemma_module_item(s: Seq<TokenView>, p: int)
    requires
        0 <= p < s.len(),
    ensures
        p < module_item(s, p).1 <= s.len(),
        module_item(s, p).0.tokens() == s.subrange(p, module_item(s, p).1),
{
    lemma_fn_sig(s, p);
    lemma_impl_block(s, p);
    lemma_module(s, p);
    lemma_trait_def(s, p);
    if module_item(s, p).0 is Other {
        assert(seq![s[p]] =~= s.subrange(p, p + 1));
    }
}

/// Reading a sequence as items loses nothing and adds nothing: the tokens
/// of the items, one item after another, are the sequence.
pub proof fn lemma_module_items(s: Seq<TokenView>, p: int)
    requires
        0 <= p <= s.len(),
    ensures
        items_tokens(module_items(s, p)) == s.subrange(p, s.len() as int),
    decreases s.len() - p,
{
    let f = |i: ModuleItemView| i.tokens();
    if p >= s.len() {
        assert(Seq::<ModuleItemView>::empty().map_values(f) =~= Seq::empty());
        assert(s.subrange(p, s.len() as int) =~= Seq::empty());
    } else {
        let (item, e) = module_item(s, p);
        lemma_module_item(s, p);
        lemma_module_items(s, e);
        let rest = module_items(s, e);
        assert((seq![item] + rest).map_values(f) =~= seq![item.tokens()] + rest.map_values(f));
        lemma_concat_add(seq![item.tokens()], rest.map_values(f));
        lemma_concat_one(item.tokens());
        lemma_split(s, p, e, s.len() as int);
    }
}

/// Whether no token from `a` up to `b` is the mark `;`.
pub open spec fn no_terminator(s: Seq<TokenView>, a: int, b: int) -> bool {
    forall|k: int| a <= k < b && 0 <= k < s.len() ==> !crate::token::is_punct(#[trigger] s[k], ';')
}

/// Attributes hold no `;` outside their groups.
pub proof fn lemma_attributes_terminator(s: Seq<TokenView>, p: int)
    requires
        0 <= p <= s.len(),
    ensures
        no_terminator(s, p, attributes(s, p).1),
    decreases s.len() - p,
{
    if attribute(s, p) is Some {
        lemma_attributes_terminator(s, p + 2);
    }
}

/// The predicates of a `where` clause hold no `;` outside groups.
pub proof fn lemma_predicates_terminator(s: Seq<TokenView>, p: int)
    requires
        0 <= p <= s.len(),
    ensures
        no_terminator(s, p, predicates(s, p).1),
    decreases s.len() - p,
{
    match predicate(s, p) {
        Some((pr, e)) => {
            let c = crate::combinators::verbatim_end(s, p, Stop::ColonOrEnd);
            crate::combinators::lemma_run_terminator(s, p, Stop::ColonOrEnd);
            crate::combinators::lemma_run_terminator(s, c + 1, Stop::CommaOrEnd);
            if comma_at(s, e) is Some && p < e {
                lemma_predicates_terminator(s, e + 1);
            }
        },
        None => {},
    }
}

/// The qualifiers of a function hold no `;` outside groups.
pub proof fn lemma_qualifiers_terminator(s: Seq<TokenView>, p: int)
    requires
        0 <= p <= s.len(),
    ensures
        no_terminator(s, p, qualifiers_end(s, p)),
{
    lemma_qualifiers(s, p);
    let p2 = visibility(s, p).1;
    let p3 = keyword(s, p2, "const"@).1;
    let p4 = keyword(s, p3, "async"@).1;
    let p5 = keyword(s, p4, "unsafe"@).1;
    lemma_visibility(s, p);
    lemma_keyword(s, p2, "const"@);
    lemma_keyword(s, p3, "async"@);
    lemma_keyword(s, p4, "unsafe"@);
    lemma_extern_spec(s, p5);
    assert(no_terminator(s, p, p2));
    assert(no_terminator(s, p2, p3));
    assert(no_terminator(s, p3, p4));
    assert(no_terminator(s, p4, p5));
    assert(no_terminator(s, p5, qualifiers_end(s, p)));
}

/// What stands between the name and the body of a function holds no `;`
/// outside groups.
pub proof fn lemma_signature_terminator(s: Seq<TokenView>, p: int)
    requires
        0 <= p <= s.len(),
        crate::token::group_at(s, generics(s, p).1, Delimiter::Parenthesis),
    ensures
        no_terminator(s, p, signature_end(s, p)),
{
    let p7 = generics(s, p).1;
    lemma_generics(s, p);
    crate::combinators::lemma_angle_terminator(s, p + 1);
    assert(no_terminator(s, p, p7));
    let p8 = return_type(s, p7 + 1).1;
    lemma_return_type(s, p7 + 1);
    if p7 + 3 <= s.len() {
        crate::combinators::lemma_run_terminator(s, p7 + 3, Stop::WhereOrEnd);
    }
    assert(no_terminator(s, p7 + 1, p8));
    lemma_where_clause(s, p8);
    if p8 + 1 <= s.len() {
        lemma_predicates_terminator(s, p8 + 1);
    }
    assert(no_terminator(s, p8, where_clause(s, p8).1));
}

/// A function that is found holds no `;` outside its groups: what ends
/// with `;` before a body is none.
pub proof fn lemma_fn_sig_terminator(s: Seq<TokenView>, p: int)
    requires
        0 <= p <= s.len(),
    ensures
        fn_sig(s, p) matches Some((_, e)) ==> no_terminator(s, p, e),
{
    if let Some((f, e)) = fn_sig(s, p) {
        let p1 = attributes(s, p).1;
        lemma_attributes(s, p);
        lemma_attributes_terminator(s, p);
        let p6 = qualifiers_end(s, p1);
        lemma_qualifiers(s, p1);
        lemma_qualifiers_terminator(s, p1);
        lemma_signature(s, p6 + 2);
        lemma_signature_terminator(s, p6 + 2);
        let p9 = signature_end(s, p6 + 2);
        assert(e == p9 + 1);
        assert(no_terminator(s, p6, p6 + 2));
        assert(no_terminator(s, p9, p9 + 1));
    }
}

/// An optional `where` clause holds no `;` outside groups.
pub proof fn lemma_where_terminator(s: Seq<TokenView>, p: int)
    requires
        0 <= p <= s.len(),
    ensures
        no_terminator(s, p, where_clause(s, p).1),
{
    lemma_where_clause(s, p);
    if p + 1 <= s.len() {
        lemma_predicates_terminator(s, p + 1);
    }
}

/// Optional generics hold no `;` outside groups.
pub proof fn lemma_generics_terminator(s: Seq<TokenView>, p: int)
    requires
        0 <= p <= s.len(),
    ensures
        no_terminator(s, p, generics(s, p).1),
{
    lemma_generics(s, p);
    crate::combinators::lemma_angle_terminator(s, p + 1);
}

/// A module, an `impl` block or a trait that is found holds no `;` outside
/// its groups.
#[verifier::rlimit(50)]
pub proof fn lemma_container_terminator(s: Seq<TokenView>, p: int)
    requires
        0 <= p <= s.len(),
    ensures
        impl_block(s, p) matches Some((_, e)) ==> no_terminator(s, p, e),
        module(s, p) matches Some((_, e)) ==> no_terminator(s, p, e),
        trait_def(s, p) matches Some((_, e)) ==> no_terminator(s, p, e),
{
    let p1 = attributes(s, p).1;
    lemma_attributes(s, p);
    lemma_attributes_terminator(s, p);
    if let Some((b, e)) = impl_block(s, p) {
        let p2 = generics(s, p1 + 1).1;
        lemma_generics(s, p1 + 1);
        lemma_generics_terminator(s, p1 + 1);
        let p3 = crate::combinators::verbatim_end(s, p2, Stop::ForOrWhereOrEnd);
        lemma_run_bounds(s, p2, Stop::ForOrWhereOrEnd);
        crate::combinators::lemma_run_terminator(s, p2, Stop::ForOrWhereOrEnd);
        let f = crate::combinators::verbatim_end(s, p3 + 1, Stop::WhereOrEnd);
        if p3 + 1 <= s.len() {
            lemma_run_bounds(s, p3 + 1, Stop::WhereOrEnd);
            crate::combinators::lemma_run_terminator(s, p3 + 1, Stop::WhereOrEnd);
        }
        let has_for = crate::token::ident_at(s, p3, "for"@) && p3 + 1 < f <= s.len();
        let p4 = if has_for {
            f
        } else {
            p3
        };
        lemma_where_terminator(s, p4);
        assert(no_terminator(s, p1, p1 + 1));
        assert(no_terminator(s, p3, p4));
        assert(no_terminator(s, e - 1, e));
    }
    if let Some((m, e)) = module(s, p) {
        let p2 = visibility(s, p1).1;
        lemma_visibility(s, p1);
        assert(no_terminator(s, p1, p2));
        assert(no_terminator(s, p2, e));
    }
    if let Some((t, e)) = trait_def(s, p) {
        let p2 = visibility(s, p1).1;
        lemma_visibility(s, p1);
        let p3 = keyword(s, p2, "unsafe"@).1;
        lemma_keyword(s, p2, "unsafe"@);
        let p4 = generics(s, p3 + 2).1;
        lemma_generics(s, p3 + 2);
        lemma_generics_terminator(s, p3 + 2);
        let p5 = trait_bounds(s, p4).1;
        lemma_trait_bounds(s, p4);
        if p4 + 1 <= s.len() {
            lemma_run_bounds(s, p4 + 1, Stop::WhereOrEnd);
            crate::combinators::lemma_run_terminator(s, p4 + 1, Stop::WhereOrEnd);
        }
        lemma_where_terminator(s, p5);
        assert(no_terminator(s, p1, p2));
        assert(no_terminator(s, p2, p3));
        assert(no_terminator(s, p3, p3 + 2));
        assert(no_terminator(s, p4, p5));
        assert(no_terminator(s, e - 1, e));
    }
}

} // verus!
