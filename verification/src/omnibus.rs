//! Instruments every function of what an attribute stands on, and offers
//! the scanner's way for a caller that holds a module, an `impl` block or a
//! flat run of items as tokens.

use crate::function_extractor::{
    function_at, functions_from, infos_view, is_body, FunctionExtractor, FunctionInfo,
    FunctionInfoView,
};
use crate::syntax::push_group;
use crate::token::{
    clone_range, clone_tokens, extend_tokens, view_tokens, Delimiter, Token, TokenView,
};
use crate::token_processors::{processed, TokenProcessor};
use crate::tracer::{instrument, instrument_impl};
use vstd::prelude::*;

verus! {

/// The position of the first brace group from `start` on.
pub open spec fn first_body(s: Seq<TokenView>, start: int) -> Option<int>
    decreases s.len() - start,
{
    if start < 0 || start >= s.len() {
        None
    } else if is_body(s[start]) {
        Some(start)
    } else {
        first_body(s, start + 1)
    }
}

/// The tokens from `start` up to `end`; none where the range is empty or
/// reaches beyond the sequence.
pub open spec fn between(s: Seq<TokenView>, start: int, end: int) -> Seq<TokenView> {
    if start >= end || end > s.len() || start < 0 {
        Seq::empty()
    } else {
        s.subrange(start, end)
    }
}

/// The tokens from `start` on; none where `start` lies behind the sequence.
pub open spec fn from(s: Seq<TokenView>, start: int) -> Seq<TokenView> {
    if start >= s.len() || start < 0 {
        Seq::empty()
    } else {
        s.subrange(start, s.len() as int)
    }
}

/// The function instrumented on the empty request, or its own tokens where
/// it cannot be instrumented.
#[verifier::opaque]
pub open spec fn instrumented_or_kept(tokens: Seq<TokenView>) -> Seq<TokenView> {
    match instrument(Seq::empty(), tokens) {
        Ok(t) => t,
        Err(_) => tokens,
    }
}

/// Where the function before the `k`-th one ends; 0 for the first.
pub open spec fn previous_end(functions: Seq<FunctionInfoView>, k: int) -> int {
    if 0 < k <= functions.len() {
        functions[k - 1].end
    } else {
        0
    }
}

/// The output up to and including the `k`-th function found: for each
/// function, the tokens between the function before it and itself, and then
/// the function, instrumented or kept.
pub open spec fn stitched(s: Seq<TokenView>, functions: Seq<FunctionInfoView>, k: int) -> Seq<
    TokenView,
>
    decreases k,
{
    if k <= 0 || k > functions.len() {
        Seq::empty()
    } else {
        stitched(s, functions, k - 1) + between(
            s,
            previous_end(functions, k - 1),
            functions[k - 1].start,
        ) + instrumented_or_kept(functions[k - 1].tokens)
    }
}

/// What instrumenting the functions of a flat run of tokens gives: the
/// tokens unchanged where no function is found, and otherwise the functions
/// found, each instrumented or kept, with the tokens around them unchanged.
pub open spec fn functions_processed(s: Seq<TokenView>) -> Seq<TokenView> {
    let functions = functions_from(s, 0);
    if functions.len() == 0 {
        s
    } else {
        stitched(s, functions, functions.len() as int) + from(
            s,
            functions[functions.len() - 1].end,
        )
    }
}

/// The tokens from `i` on with every function that the scanner finds
/// instrumented or kept, and every other token as it is and where it is.
pub open spec fn rewritten_from(s: Seq<TokenView>, i: int) -> Seq<TokenView>
    decreases s.len() - i,
{
    if i < 0 || i >= s.len() {
        Seq::empty()
    } else {
        match function_at(s, i) {
            Some(f) => if i < f.end <= s.len() {
                instrumented_or_kept(f.tokens) + rewritten_from(s, f.end)
            } else {
                instrumented_or_kept(f.tokens)
            },
            None => seq![s[i]] + rewritten_from(s, i + 1),
        }
    }
}

/// What instrumenting an `impl` block given as tokens gives: what stands
/// inside its first brace group is instrumented at every depth, everything
/// else stays.
pub open spec fn impl_processed(s: Seq<TokenView>) -> Seq<TokenView> {
    match first_body(s, 0) {
        Some(i) => s.subrange(0, i) + seq![
            TokenView::Group(Delimiter::Brace, processed(crate::token::group_inner(s[i]))),
        ] + s.subrange(i + 1, s.len() as int),
        None => s,
    }
}

/// What instrumenting a module given as tokens gives: where the third token
/// is a group, what stands inside it is instrumented at every depth, and
/// everything else stays; otherwise everything stays.
pub open spec fn module_processed(s: Seq<TokenView>) -> Seq<TokenView> {
    if s.len() >= 3 {
        match s[2] {
            TokenView::Group(d, inner) => seq![s[0], s[1], TokenView::Group(d, processed(inner))]
                + s.subrange(3, s.len() as int),
            _ => s,
        }
    } else {
        s
    }
}

/// Instruments all functions of what the attribute stands on: every
/// function that the grammar finds among the items, and in the bodies of
/// modules, `impl` blocks and traits at every depth, is instrumented on the
/// empty request; every other token stays where and as it is.
pub fn trace_all_impl(input: Vec<Token>) -> (r: Vec<Token>)
    ensures
        view_tokens(r@) == processed(view_tokens(input@)),
{
    TokenProcessor::new(input).process()
}

/// Instruments a module that is given as two tokens, `mod` and a name, and
/// a group: what stands inside the group is instrumented at every depth.
#[verifier::rlimit(50)]
pub fn process_module(input: Vec<Token>) -> (r: Vec<Token>)
    ensures
        view_tokens(r@) == module_processed(view_tokens(input@)),
{
    let ghost s = view_tokens(input@);
    if input.len() < 3 {
        return input;
    }
    match &input[2] {
        Token::Group(delimiter, inner) => {
            let processed_contents = trace_all_impl(clone_tokens(inner));
            let mut output = clone_range(&input, 0, 2);
            push_group(&mut output, *delimiter, processed_contents);
            let rest = clone_range(&input, 3, input.len());
            extend_tokens(&mut output, &rest);
            assert(view_tokens(output@) =~= module_processed(s));
            output
        },
        _ => input,
    }
}

/// Instruments an `impl` block that is given as tokens: what stands inside
/// its first brace group is instrumented at every depth.
#[verifier::rlimit(50)]
pub fn process_impl_block(input: Vec<Token>) -> (r: Vec<Token>)
    ensures
        view_tokens(r@) == impl_processed(view_tokens(input@)),
{
    let ghost s = view_tokens(input@);
    match find_first_body(&input, 0) {
        Some(i) => {
            let processed_body = match &input[i] {
                Token::Group(_, inner) => trace_all_impl(clone_tokens(inner)),
                _ => Vec::new(),
            };
            let mut output = clone_range(&input, 0, i);
            push_group(&mut output, Delimiter::Brace, processed_body);
            let rest = clone_range(&input, i + 1, input.len());
            extend_tokens(&mut output, &rest);
            assert(view_tokens(output@) =~= impl_processed(s));
            output
        },
        None => input,
    }
}

/// Instruments the functions of a flat run of tokens that the scanner
/// finds by their shape. The scanner does not look into groups: what stands
/// inside a module, an `impl` block or a trait is left to the caller.
#[verifier::rlimit(50)]
pub fn process_functions(input: Vec<Token>) -> (r: Vec<Token>)
    ensures
        view_tokens(r@) == functions_processed(view_tokens(input@)),
{
    let ghost s = view_tokens(input@);
    let functions = extract_functions(&input);
    let ghost fs = infos_view(functions@);
    if functions.len() == 0 {
        return input;
    }
    let mut output: Vec<Token> = Vec::new();
    let mut last_end: usize = 0;
    let mut k: usize = 0;
    assert(view_tokens(output@) =~= stitched(s, fs, 0));
    while k < functions.len()
        invariant
            k <= functions.len(),
            s == view_tokens(input@),
            fs == infos_view(functions@),
            last_end == previous_end(fs, k as int),
            view_tokens(output@) == stitched(s, fs, k as int),
        decreases functions.len() - k,
    {
        let func_info = &functions[k];
        proof {
            reveal(instrumented_or_kept);
        }
        let instrumented = match instrument_impl(Vec::new(), clone_tokens(&func_info.tokens)) {
            Ok(instrumented) => instrumented,
            Err(_) => clone_tokens(&func_info.tokens),
        };
        let gap = extract_tokens_between(&input, last_end, func_info.start);
        extend_tokens(&mut output, &gap);
        extend_tokens(&mut output, &instrumented);
        last_end = func_info.end;
        k += 1;
    }
    let rest = extract_tokens_from(&input, last_end);
    extend_tokens(&mut output, &rest);
    output
}

/// Finds the functions of `input`, from left to right, none inside another.
pub fn extract_functions(input: &Vec<Token>) -> (r: Vec<FunctionInfo>)
    ensures
        infos_view(r@) == functions_from(view_tokens(input@), 0),
{
    FunctionExtractor::extract(clone_tokens(input))
}

/// The position of the first brace group from `start` on.
fn find_first_body(tokens: &Vec<Token>, start: usize) -> (r: Option<usize>)
    ensures
        match r {
            Some(e) => Some(e as int),
            None => None,
        } == first_body(view_tokens(tokens@), start as int),
        r matches Some(e) ==> start <= e < tokens.len() && is_body(view_tokens(tokens@)[e as int]),
{
    let ghost s = view_tokens(tokens@);
    let mut i: usize = start;
    while i < tokens.len()
        invariant
            start <= i,
            s == view_tokens(tokens@),
            first_body(s, start as int) == first_body(s, i as int),
        decreases tokens.len() - i,
    {
        if tokens[i].is_group(Delimiter::Brace) {
            return Some(i);
        }
        i += 1;
    }
    None
}

/// A copy of the tokens from `start` up to `end`; none where the range is
/// empty or reaches beyond the input.
pub fn extract_tokens_between(input: &Vec<Token>, start: usize, end: usize) -> (r: Vec<Token>)
    ensures
        view_tokens(r@) == between(view_tokens(input@), start as int, end as int),
{
    if start >= end || end > input.len() {
        let r: Vec<Token> = Vec::new();
        assert(view_tokens(r@) =~= Seq::empty());
        return r;
    }
    clone_range(input, start, end)
}

/// A copy of the tokens from `start` on; none where `start` lies behind
/// the input.
pub fn extract_tokens_from(input: &Vec<Token>, start: usize) -> (r: Vec<Token>)
    ensures
        view_tokens(r@) == from(view_tokens(input@), start as int),
{
    if start >= input.len() {
        let r: Vec<Token> = Vec::new();
        assert(view_tokens(r@) =~= Seq::empty());
        return r;
    }
    clone_range(input, start, input.len())
}

} // verus!
