//! What holds of the library as a whole.

use crate::args::{
    first_format, first_level, FormatMode, InstrumentArgView, RetArgView, RetArgsView,
};
use crate::fidelity::{
    lemma_attributes, lemma_fn_sig, lemma_fn_sig_terminator, lemma_impl_block, lemma_module,
    lemma_module_item, lemma_module_items, lemma_qualifiers, lemma_trait_def, no_terminator,
    qualifiers_end,
};
use crate::function_extractor::{function_at, function_start, functions_from, FunctionInfoView};
use crate::grammar::{attributes, fn_sig, module, module_item, module_items};
use crate::omnibus::{
    between, from, functions_processed, instrumented_or_kept, previous_end, rewritten_from,
    stitched,
};
use crate::syntax::{concat, items_tokens, lemma_concat_push, FnSigView, ModuleItemView};
use crate::token::{group_inner, ident_at, Delimiter, TokenView};
use crate::token_processors::{braced, processed, processed_item, processed_items};
use crate::tracer::{
    event_level, field_tokens, fields_tokens, fold_args, instrumented, lemma_fold_refused,
    level_constant, literal_text, new_body, piece, simple_of, span_level, span_name,
    target_literal, valid_level, InstrumentArgsView,
};
use vstd::prelude::*;

verus! {

/// Whether every item is a token that is passed through.
pub open spec fn all_other(items: Seq<ModuleItemView>) -> bool {
    forall|i: int| 0 <= i < items.len() ==> #[trigger] items[i] is Other
}

/// Items that are passed through come out as they are.
proof fn lemma_other_items(items: Seq<ModuleItemView>, n: int)
    requires
        all_other(items),
        0 <= n <= items.len(),
    ensures
        processed_items(items, n) == items_tokens(items.take(n)),
    decreases n,
{
    let f = |i: ModuleItemView| i.tokens();
    if n == 0 {
        assert(items.take(0).map_values(f) =~= Seq::empty());
        assert(processed_items(items, 0) =~= Seq::empty());
        assert(concat(Seq::<Seq<TokenView>>::empty()) =~= Seq::empty());
    } else {
        lemma_other_items(items, n - 1);
        assert(items[n - 1] is Other);
        assert(processed_item(items[n - 1]) == items[n - 1].tokens());
        assert(processed_items(items, n) == processed_items(items, n - 1) + processed_item(
            items[n - 1],
        ));
        assert(items.take(n).map_values(f) =~= items.take(n - 1).map_values(f).push(
            items[n - 1].tokens(),
        ));
        lemma_concat_push(items.take(n - 1).map_values(f), items[n - 1].tokens());
    }
}

/// Passthrough: a sequence in which the grammar finds no function, no
/// `impl` block, no module and no trait comes out of processing token for
/// token as it went in.
pub proof fn lemma_passthrough(s: Seq<TokenView>)
    requires
        all_other(module_items(s, 0)),
    ensures
        processed(s) == s,
{
    let items = module_items(s, 0);
    lemma_other_items(items, items.len() as int);
    assert(items.take(items.len() as int) =~= items);
    lemma_module_items(s, 0);
    assert(s.subrange(0, s.len() as int) =~= s);
}

/// Passthrough for the scanner: where no function may start in a flat run
/// of tokens, the run comes out token for token as it went in.
pub proof fn lemma_scanner_passthrough(s: Seq<TokenView>)
    requires
        forall|i: int| 0 <= i < s.len() ==> !function_start(s, i),
    ensures
        functions_processed(s) == s,
        functions_from(s, 0).len() == 0,
{
    lemma_no_spans(s, 0);
}

/// Where no function may start from `i` on, the scanner finds none.
proof fn lemma_no_spans(s: Seq<TokenView>, i: int)
    requires
        0 <= i,
        forall|k: int| i <= k < s.len() ==> !function_start(s, k),
    ensures
        functions_from(s, i).len() == 0,
    decreases s.len() - i,
{
    if i < s.len() {
        assert(!function_start(s, i));
        lemma_no_spans(s, i + 1);
    }
}

/// Appending a run of five parts to a sequence may be done part by part.
proof fn lemma_append_five(
    a: Seq<TokenView>,
    b: Seq<TokenView>,
    c: Seq<TokenView>,
    d: Seq<TokenView>,
    e: Seq<TokenView>,
    f: Seq<TokenView>,
)
    ensures
        a + (b + c + d + e + f) == a + b + c + d + e + f,
{
    assert(a + (b + c + d + e + f) =~= a + b + c + d + e + f);
}

/// Appending a run of four parts to a sequence may be done part by part.
proof fn lemma_append_four(
    a: Seq<TokenView>,
    b: Seq<TokenView>,
    c: Seq<TokenView>,
    d: Seq<TokenView>,
    e: Seq<TokenView>,
)
    ensures
        a + (b + c + d + e) == a + b + c + d + e,
{
    assert(a + (b + c + d + e) =~= a + b + c + d + e);
}

/// What is written from the `k`-th function found on, given where the
/// function before it ended.
spec fn stitch_tail(s: Seq<TokenView>, fs: Seq<FunctionInfoView>, k: int, last: int) -> Seq<
    TokenView,
>
    decreases fs.len() - k,
{
    if k < 0 || k >= fs.len() {
        from(s, last)
    } else {
        between(s, last, fs[k].start) + instrumented_or_kept(fs[k].tokens) + stitch_tail(
            s,
            fs,
            k + 1,
            fs[k].end,
        )
    }
}

/// Writing the functions up to the `k`-th and then the others is writing
/// all of them.
proof fn lemma_stitch_split(s: Seq<TokenView>, fs: Seq<FunctionInfoView>, k: int)
    requires
        0 <= k <= fs.len(),
    ensures
        stitched(s, fs, k) + stitch_tail(s, fs, k, previous_end(fs, k)) == stitch_tail(s, fs, 0, 0),
    decreases k,
{
    if k == 0 {
        assert(stitched(s, fs, 0) + stitch_tail(s, fs, 0, 0) =~= stitch_tail(s, fs, 0, 0));
    } else {
        lemma_stitch_split(s, fs, k - 1);
        let gap = between(s, previous_end(fs, k - 1), fs[k - 1].start);
        let this = instrumented_or_kept(fs[k - 1].tokens);
        let rest = stitch_tail(s, fs, k, fs[k - 1].end);
        assert(stitched(s, fs, k - 1) + (gap + this + rest) =~= (stitched(s, fs, k - 1) + gap
            + this) + rest);
    }
}

/// What is written from a function on does not depend on the functions
/// before it.
proof fn lemma_stitch_shift(
    s: Seq<TokenView>,
    f: FunctionInfoView,
    rest: Seq<FunctionInfoView>,
    k: int,
    last: int,
)
    requires
        0 <= k <= rest.len(),
    ensures
        stitch_tail(s, seq![f] + rest, k + 1, last) == stitch_tail(s, rest, k, last),
    decreases rest.len() - k,
{
    let all = seq![f] + rest;
    if k < rest.len() {
        assert(all[k + 1] == rest[k]);
        lemma_stitch_shift(s, f, rest, k + 1, rest[k].end);
    }
}

/// The scanner finds functions from where it looks on, inside the
/// sequence.
proof fn lemma_first_function(s: Seq<TokenView>, i: int)
    requires
        0 <= i,
        functions_from(s, i).len() > 0,
    ensures
        i <= functions_from(s, i)[0].start < functions_from(s, i)[0].end <= s.len(),
        function_at(s, functions_from(s, i)[0].start) == Some(functions_from(s, i)[0]),
    decreases s.len() - i,
{
    if i < s.len() {
        match function_at(s, i) {
            Some(f) => {
                crate::function_extractor::lemma_function_end(s, i);
            },
            None => {
                lemma_first_function(s, i + 1);
            },
        }
    }
}

/// From any place on, writing the functions found and the tokens between
/// them is rewriting the tokens in place.
#[verifier::rlimit(50)]
proof fn lemma_rewritten(s: Seq<TokenView>, i: int)
    requires
        0 <= i <= s.len(),
    ensures
        rewritten_from(s, i) == stitch_tail(s, functions_from(s, i), 0, i),
    decreases s.len() - i,
{
    let fs = functions_from(s, i);
    if i >= s.len() {
    } else {
        match function_at(s, i) {
            Some(f) => {
                crate::function_extractor::lemma_function_end(s, i);
                lemma_rewritten(s, f.end);
                let rest = functions_from(s, f.end);
                assert(fs == seq![f] + rest);
                lemma_stitch_shift(s, f, rest, 0, f.end);
                assert(between(s, i, f.start) =~= Seq::empty());
                assert(stitch_tail(s, fs, 0, i) =~= instrumented_or_kept(f.tokens) + stitch_tail(
                    s,
                    fs,
                    1,
                    f.end,
                ));
            },
            None => {
                lemma_rewritten(s, i + 1);
                assert(fs == functions_from(s, i + 1));
                if fs.len() == 0 {
                    assert(from(s, i) =~= seq![s[i]] + from(s, i + 1));
                } else {
                    lemma_first_function(s, i + 1);
                    let start = fs[0].start;
                    assert(between(s, i, start) =~= seq![s[i]] + between(s, i + 1, start));
                    assert(between(s, i, start) + instrumented_or_kept(fs[0].tokens) + stitch_tail(
                        s,
                        fs,
                        1,
                        fs[0].end,
                    ) =~= seq![s[i]] + (between(s, i + 1, start) + instrumented_or_kept(
                        fs[0].tokens,
                    ) + stitch_tail(s, fs, 1, fs[0].end)));
                }
            },
        }
    }
}

/// In place: instrumenting the functions of a flat run of tokens changes
/// nothing but the functions that the scanner finds. Each of them is
/// instrumented, or kept where it cannot be; every other token stays where
/// and as it is.
pub proof fn lemma_scan_rewrites_in_place(s: Seq<TokenView>)
    ensures
        functions_processed(s) == rewritten_from(s, 0),
{
    let fs = functions_from(s, 0);
    lemma_rewritten(s, 0);
    if fs.len() == 0 {
        assert(from(s, 0) =~= s);
    } else {
        lemma_stitch_split(s, fs, fs.len() as int);
        assert(stitch_tail(s, fs, fs.len() as int, previous_end(fs, fs.len() as int)) == from(
            s,
            fs[fs.len() - 1].end,
        ));
    }
}

/// The pieces of a parsed function, put together, are its header.
#[verifier::rlimit(50)]
pub proof fn lemma_simple_header(f: FnSigView)
    ensures
        simple_of(f).header_tokens() == f.header_tokens(),
{
    let sf = simple_of(f);
    let a = concat(sf.attrs);
    let n = seq![crate::syntax::kw("fn"@), crate::syntax::kw(sf.fn_name)];
    assert(a == crate::syntax::attributes_tokens(f.attributes));
    assert(piece(sf.vis) == crate::syntax::visibility_tokens(f.visibility));
    assert(piece(sf.const_kw) == crate::syntax::flag_tokens(f.const_kw, "const"@));
    assert(piece(sf.async_kw) == crate::syntax::flag_tokens(f.async_kw, "async"@));
    assert(piece(sf.unsafe_kw) == crate::syntax::flag_tokens(f.unsafe_kw, "unsafe"@));
    assert(piece(sf.extern_kw) == crate::syntax::extern_tokens(f.extern_kw));
    assert(piece(sf.generics) == crate::syntax::generics_tokens(f.generics));
    assert(piece(sf.ret_type) == crate::syntax::return_tokens(f.return_type));
    assert(piece(sf.where_clause) == crate::syntax::where_tokens(f.where_clause));
    lemma_append_five(
        a,
        piece(sf.vis),
        piece(sf.const_kw),
        piece(sf.async_kw),
        piece(sf.unsafe_kw),
        piece(sf.extern_kw),
    );
    lemma_append_four(
        a + f.qualifier_tokens() + n,
        piece(sf.generics),
        sf.params,
        piece(sf.ret_type),
        piece(sf.where_clause),
    );
}

/// Unchanged signature: a function that the grammar finds at `p` is written
/// again with every token before its body as it was, and with a brace group
/// that begins by creating and entering the span.
pub proof fn lemma_function_rewritten(s: Seq<TokenView>, p: int, args: InstrumentArgsView)
    requires
        0 <= p <= s.len(),
        fn_sig(s, p) is Some,
    ensures
        ({
            let (f, e) = fn_sig(s, p).unwrap();
            let func = simple_of(f);
            instrumented(args, func) == s.subrange(p, e - 1) + seq![
                TokenView::Group(
                    Delimiter::Brace,
                    new_body(
                        args,
                        func,
                        TokenView::Literal(literal_text(span_name(args, func))),
                        target_literal(args),
                    ),
                ),
            ]
        }),
{
    let (f, e) = fn_sig(s, p).unwrap();
    let func = simple_of(f);
    lemma_fn_sig(s, p);
    lemma_simple_header(f);
    let body = seq![
        TokenView::Group(
            Delimiter::Brace,
            new_body(
                args,
                func,
                TokenView::Literal(literal_text(span_name(args, func))),
                target_literal(args),
            ),
        ),
    ];
    assert(s.subrange(p, e - 1) + body + Seq::empty() =~= s.subrange(p, e - 1) + body);
}

/// Depth coverage: a module, an `impl` block or a trait that the grammar
/// finds at `p` is written again with every token before its body as it
/// was, and with its body processed in the same way as the whole. So a
/// function is reached at whatever depth of containers it stands, by the
/// dispatcher and by `trace_all_impl`, which gives what the dispatcher
/// gives.
pub proof fn lemma_container_kept(s: Seq<TokenView>, p: int)
    requires
        0 <= p < s.len(),
        !(module_item(s, p).0 is Function),
        !(module_item(s, p).0 is Other),
    ensures
        ({
            let (item, e) = module_item(s, p);
            &&& p < e <= s.len()
            &&& s[e - 1] is Group
            &&& processed_item(item) == s.subrange(p, e - 1) + braced(
                processed(group_inner(s[e - 1])),
            )
        }),
{
    lemma_impl_block(s, p);
    lemma_module(s, p);
    lemma_trait_def(s, p);
}

/// A function that the grammar finds is instrumented on the empty request,
/// wherever among the items it stands.
pub proof fn lemma_function_instrumented(s: Seq<TokenView>, i: int)
    requires
        0 <= i < module_items(s, 0).len(),
        module_items(s, 0)[i] is Function,
    ensures
        processed(s) == processed_items(module_items(s, 0), i) + instrumented(
            InstrumentArgsView::empty(),
            simple_of(module_items(s, 0)[i]->Function_0),
        ) + processed_rest(module_items(s, 0), i + 1),
{
    let items = module_items(s, 0);
    lemma_processed_split(items, i + 1, items.len() as int);
    assert(processed(s) == processed_items(items, items.len() as int));
    assert(processed_items(items, i + 1) == processed_items(items, i) + processed_item(items[i]));
    assert(processed_item(items[i]) == instrumented(
        InstrumentArgsView::empty(),
        simple_of(items[i]->Function_0),
    ));
}

/// What processing the items from the `k`-th on gives.
pub open spec fn processed_rest(items: Seq<ModuleItemView>, k: int) -> Seq<TokenView> {
    processed_items(items.subrange(k, items.len() as int), items.len() - k)
}

/// Processing works item by item: what the first `n` items give is what the
/// first `k` give and then what the others give.
pub proof fn lemma_processed_split(items: Seq<ModuleItemView>, k: int, n: int)
    requires
        0 <= k <= n <= items.len(),
    ensures
        processed_items(items, n) == processed_items(items, k) + processed_items(
            items.subrange(k, items.len() as int),
            n - k,
        ),
    decreases n - k,
{
    let tail = items.subrange(k, items.len() as int);
    if k == n {
        assert(processed_items(items, k) + Seq::empty() =~= processed_items(items, k));
    } else {
        lemma_processed_split(items, k, n - 1);
        assert(tail[n - 1 - k] == items[n - 1]);
        assert(processed_items(items, k) + (processed_items(tail, n - 1 - k) + processed_item(
            items[n - 1],
        )) =~= (processed_items(items, k) + processed_items(tail, n - 1 - k)) + processed_item(
            items[n - 1],
        ));
    }
}

/// A declaration is no function: where a `;` stands behind `p` with no
/// brace group between, the grammar finds no function at `p`. What is
/// declared there is passed through, and what stands behind the `;` is read
/// by itself.
pub proof fn lemma_declaration_is_no_function(s: Seq<TokenView>, p: int, k: int)
    requires
        0 <= p <= k < s.len(),
        crate::token::is_punct(s[k], ';'),
        forall|j: int| p <= j < k ==> !crate::token::is_group(#[trigger] s[j], Delimiter::Brace),
    ensures
        fn_sig(s, p) is None,
{
    if fn_sig(s, p) is Some {
        let e = fn_sig(s, p).unwrap().1;
        lemma_fn_sig(s, p);
        lemma_fn_sig_terminator(s, p);
        if k < e {
            assert(!crate::token::is_punct(s[k], ';'));
        } else {
            assert(crate::token::is_group(s[e - 1], Delimiter::Brace));
        }
    }
}

/// A function always has a body: what the grammar takes for a function
/// ends with a brace group, and holds no `;` outside its groups.
pub proof fn lemma_function_has_body(s: Seq<TokenView>, p: int)
    requires
        0 <= p <= s.len(),
        fn_sig(s, p) is Some,
    ensures
        ({
            let (f, e) = fn_sig(s, p).unwrap();
            &&& p < e <= s.len()
            &&& s[e - 1] == TokenView::Group(Delimiter::Brace, f.body)
            &&& no_terminator(s, p, e)
        }),
{
    lemma_fn_sig(s, p);
    lemma_fn_sig_terminator(s, p);
}

/// Whether the keyword `fn` stands at `q` with an identifier behind it.
pub open spec fn defines_at(s: Seq<TokenView>, q: int) -> bool {
    ident_at(s, q, "fn"@) && 0 <= q + 1 < s.len() && s[q + 1] is Ident
}

/// No function without the keyword: what the grammar takes for a function
/// holds, among its own tokens and outside every group and literal, the
/// identifier `fn` with the name of the function behind it.
pub proof fn lemma_function_needs_keyword(s: Seq<TokenView>, p: int)
    requires
        0 <= p <= s.len(),
        fn_sig(s, p) is Some,
    ensures
        ({
            let (f, e) = fn_sig(s, p).unwrap();
            exists|q: int|
                p <= q && q + 1 < e && #[trigger] defines_at(s, q) && s[q + 1] == TokenView::Ident(
                    f.name,
                )
        }),
{
    let (f, e) = fn_sig(s, p).unwrap();
    let p1 = attributes(s, p).1;
    lemma_attributes(s, p);
    let p6 = qualifiers_end(s, p1);
    lemma_qualifiers(s, p1);
    lemma_fn_sig(s, p);
    assert(defines_at(s, p6));
}

/// False-positive immunity: where the identifier `fn` nowhere stands before
/// another identifier, the grammar finds no function. The keyword inside a
/// literal, before the parenthesis of a function pointer type, or in any
/// other place that names no function makes none.
#[verifier::rlimit(50)]
pub proof fn lemma_no_keyword_no_function(s: Seq<TokenView>, p: int)
    requires
        0 <= p,
        forall|q: int| 0 <= q < s.len() ==> !defines_at(s, q),
    ensures
        forall|i: int|
            0 <= i < module_items(s, p).len() ==> !(#[trigger] module_items(s, p)[i] is Function),
    decreases s.len() - p,
{
    if p < s.len() {
        let (item, e) = module_item(s, p);
        if fn_sig(s, p) is Some {
            lemma_function_needs_keyword(s, p);
        }
        lemma_module_item(s, p);
        lemma_no_keyword_no_function(s, e);
        let rest = module_items(s, e);
        assert forall|i: int| 0 <= i < module_items(s, p).len() implies !(#[trigger] module_items(
            s,
            p,
        )[i] is Function) by {
            if i > 0 {
                assert(module_items(s, p)[i] == rest[i - 1]);
            }
        }
    }
}

/// The scanner too finds a function only at the identifier `fn`, or at
/// `pub` with `fn` behind it, and only with a body that no `;` comes
/// before.
pub proof fn lemma_scanner_needs_keyword(s: Seq<TokenView>, i: int)
    requires
        function_at(s, i) is Some,
    ensures
        ident_at(s, i, "fn"@) || ident_at(s, i + 1, "fn"@),
        ({
            let f = function_at(s, i).unwrap();
            &&& i < f.end <= s.len()
            &&& crate::function_extractor::is_body(s[f.end - 1])
            &&& forall|k: int|
                i <= k < f.end - 1 ==> !crate::function_extractor::is_terminator(#[trigger] s[k])
        }),
{
    if ident_at(s, i, "fn"@) || ident_at(s, i + 1, "fn"@) {
        crate::function_extractor::lemma_function_end(s, i);
    }
}

/// Return-capture default: where no format mode is named, the value is
/// rendered field by field.
pub proof fn lemma_default_format(ret: RetArgsView)
    requires
        forall|i: int| 0 <= i < ret.list().len() ==> !(#[trigger] ret.list()[i] is Display),
    ensures
        ret.format_mode() == FormatMode::Debug,
{
    lemma_no_display(ret.list(), 0);
}

/// A list without `Display` asks for `Debug`.
proof fn lemma_no_display(list: Seq<RetArgView>, i: int)
    requires
        0 <= i,
        forall|k: int| 0 <= k < list.len() ==> !(#[trigger] list[k] is Display),
    ensures
        first_format(list, i) == FormatMode::Debug,
    decreases list.len() - i,
{
    if i < list.len() {
        assert(!(list[i] is Display));
        lemma_no_display(list, i + 1);
    }
}

/// A list without a level gives none.
proof fn lemma_no_level(list: Seq<RetArgView>, i: int)
    requires
        0 <= i,
        forall|k: int| 0 <= k < list.len() ==> !(#[trigger] list[k] is Level),
    ensures
        first_level(list, i) is None,
    decreases list.len() - i,
{
    if i < list.len() {
        assert(!(list[i] is Level));
        lemma_no_level(list, i + 1);
    }
}

/// Level inheritance: a return event for which no level is given has the
/// severity of the span.
pub proof fn lemma_level_inherited(ret: RetArgsView, level: Option<Seq<char>>)
    requires
        forall|i: int| 0 <= i < ret.list().len() ==> !(#[trigger] ret.list()[i] is Level),
    ensures
        event_level(ret, span_level(level)) == span_level(level),
{
    lemma_no_level(ret.list(), 0);
}

/// Level override: a return event for which a valid level is given has the
/// severity of that level, whatever the span's is.
pub proof fn lemma_level_overridden(ret: RetArgsView, own: Seq<char>, span: Seq<char>)
    requires
        ret.custom_level() == Some(own),
        valid_level(own),
    ensures
        event_level(ret, span) == span_level(Some(own)),
        level_constant(own) is Some,
{
}

/// Once `ret` was accepted, the request holds it.
proof fn lemma_ret_kept(list: Seq<InstrumentArgView>, i: int, n: int)
    requires
        0 <= i < n <= list.len(),
        list[i] is Ret,
        fold_args(list, n) is Ok,
    ensures
        fold_args(list, n)->Ok_0.ret_args is Some,
    decreases n,
{
    if i < n - 1 {
        lemma_ret_kept(list, i, n - 1);
    }
}

/// Duplicate-argument rejection: a list of arguments that holds `ret`
/// twice is refused.
pub proof fn lemma_duplicate_ret_refused(list: Seq<InstrumentArgView>, i: int, j: int)
    requires
        0 <= i < j < list.len(),
        list[i] is Ret,
        list[j] is Ret,
    ensures
        fold_args(list, list.len() as int) is Err,
{
    if fold_args(list, j) is Ok {
        lemma_ret_kept(list, i, j);
    }
    assert(fold_args(list, j + 1) is Err);
    lemma_fold_refused(list, j + 1, list.len() as int);
}

/// Field count: there is one span field for each captured name, in the
/// order of the names, and each field records the variable of that name
/// under that name.
pub proof fn lemma_field_count(names: Seq<Seq<char>>, n: int)
    requires
        0 <= n <= names.len(),
    ensures
        fields_tokens(names, n).len() == 4 * n,
        forall|i: int|
            0 <= i < n ==> #[trigger] fields_tokens(names, n).subrange(4 * i, 4 * i + 4)
                == field_tokens(names[i]),
    decreases n,
{
    if n > 0 {
        lemma_field_count(names, n - 1);
        let prev = fields_tokens(names, n - 1);
        let all = fields_tokens(names, n);
        assert forall|i: int| 0 <= i < n implies #[trigger] all.subrange(4 * i, 4 * i + 4)
            == field_tokens(names[i]) by {
            if i < n - 1 {
                assert(all.subrange(4 * i, 4 * i + 4) =~= prev.subrange(4 * i, 4 * i + 4));
            } else {
                assert(all.subrange(4 * i, 4 * i + 4) =~= field_tokens(names[i]));
            }
        }
    }
}

} // verus!
