//! A scanner that finds functions in a flat token sequence by their shape
//! alone: a start at `fn` or `pub fn`, and an end at the first brace group,
//! unless a `;` comes first.

use crate::token::{
    clone_range, ident_at, is_group, is_punct, view_tokens, Delimiter, Token, TokenView,
};
use vstd::prelude::*;

verus! {

/// A function found by the scanner.
#[derive(Debug)]
pub struct FunctionInfo {
    /// The position of its first token.
    pub start: usize,
    /// The position behind its body.
    pub end: usize,
    /// A copy of its tokens.
    pub tokens: Vec<Token>,
}

pub ghost struct FunctionInfoView {
    pub start: int,
    pub end: int,
    pub tokens: Seq<TokenView>,
}

impl View for FunctionInfo {
    type V = FunctionInfoView;

    open spec fn view(&self) -> FunctionInfoView {
        FunctionInfoView {
            start: self.start as int,
            end: self.end as int,
            tokens: view_tokens(self.tokens@),
        }
    }
}

/// The view of what an option holds.
pub open spec fn info_view(o: Option<FunctionInfo>) -> Option<FunctionInfoView> {
    match o {
        Some(f) => Some(f@),
        None => None,
    }
}

/// The view of each function found, in order.
pub open spec fn infos_view(v: Seq<FunctionInfo>) -> Seq<FunctionInfoView> {
    Seq::new(v.len(), |i: int| v[i]@)
}

/// Whether a function may start at `i`: at `fn` that no `pub` stands
/// before, or at `pub` that `fn` follows.
pub open spec fn function_start(s: Seq<TokenView>, i: int) -> bool {
    (ident_at(s, i, "fn"@) && !ident_at(s, i - 1, "pub"@)) || (ident_at(s, i, "pub"@) && ident_at(
        s,
        i + 1,
        "fn"@,
    ))
}

/// Whether `t` is a brace group.
pub open spec fn is_body(t: TokenView) -> bool {
    is_group(t, Delimiter::Brace)
}

/// Whether `t` ends a statement.
pub open spec fn is_terminator(t: TokenView) -> bool {
    is_punct(t, ';')
}

/// The position of the body of a function that starts at `start`: the
/// first brace group from there on, unless a `;` comes first.
pub open spec fn function_end(s: Seq<TokenView>, start: int) -> Option<int>
    decreases s.len() - start,
{
    if start < 0 || start >= s.len() {
        None
    } else if is_body(s[start]) {
        Some(start)
    } else if is_terminator(s[start]) {
        None
    } else {
        function_end(s, start + 1)
    }
}

/// A body that is found is a brace group with neither a brace group nor a
/// `;` between the start and it. Where none is found, every brace group
/// from the start on has a `;` before it.
pub proof fn lemma_function_end(s: Seq<TokenView>, start: int)
    requires
        0 <= start,
    ensures
        match function_end(s, start) {
            Some(e) => start <= e < s.len() && is_body(s[e]) && forall|i: int|
                start <= i < e ==> !is_body(#[trigger] s[i]) && !is_terminator(s[i]),
            None => forall|e: int|
                start <= e < s.len() && is_body(#[trigger] s[e]) ==> exists|j: int|
                    start <= j < e && is_terminator(#[trigger] s[j]),
        },
    decreases s.len() - start,
{
    if start < s.len() && !is_body(s[start]) {
        if is_terminator(s[start]) {
            assert forall|e: int| start <= e < s.len() && is_body(#[trigger] s[e]) implies exists|
                j: int,
            |
                start <= j < e && is_terminator(#[trigger] s[j]) by {
                assert(is_terminator(s[start]));
            }
        } else {
            lemma_function_end(s, start + 1);
            match function_end(s, start + 1) {
                Some(e) => {},
                None => {
                    assert forall|e: int|
                        start <= e < s.len() && is_body(#[trigger] s[e]) implies exists|j: int|
                        start <= j < e && is_terminator(#[trigger] s[j]) by {
                        let j = choose|j: int| start + 1 <= j < e && is_terminator(#[trigger] s[j]);
                        assert(start <= j < e && is_terminator(s[j]));
                    }
                },
            }
        }
    }
}

/// The function that starts at `start`, if one starts there and has a body.
pub open spec fn function_at(s: Seq<TokenView>, start: int) -> Option<FunctionInfoView> {
    if function_start(s, start) {
        match function_end(s, start) {
            Some(e) => Some(FunctionInfoView { start, end: e + 1, tokens: s.subrange(start, e + 1) }),
            None => None,
        }
    } else {
        None
    }
}

/// The functions found from `i` on: the scan goes on behind the body of a
/// function that it found, and one token further where it found none.
pub open spec fn functions_from(s: Seq<TokenView>, i: int) -> Seq<FunctionInfoView>
    decreases s.len() - i,
{
    if i < 0 || i >= s.len() {
        Seq::empty()
    } else {
        match function_at(s, i) {
            Some(f) => if i < f.end <= s.len() {
                seq![f] + functions_from(s, f.end)
            } else {
                seq![f]
            },
            None => functions_from(s, i + 1),
        }
    }
}

/// The scanner.
pub struct FunctionExtractor;

impl FunctionExtractor {
    /// Finds the functions of `input`, from left to right, none inside
    /// another.
    pub fn extract(input: Vec<Token>) -> (r: Vec<FunctionInfo>)
        ensures
            infos_view(r@) == functions_from(view_tokens(input@), 0),
    {
        let ghost s = view_tokens(input@);
        let mut functions: Vec<FunctionInfo> = Vec::new();
        let mut i: usize = 0;
        assert(infos_view(functions@) + functions_from(s, 0) =~= functions_from(s, 0));
        while i < input.len()
            invariant
                i <= input.len(),
                s == view_tokens(input@),
                functions_from(s, 0) == infos_view(functions@) + functions_from(s, i as int),
            decreases input.len() - i,
        {
            let ghost before = functions@;
            match Self::try_extract_function(&input, i) {
                Some(func_info) => {
                    let end = func_info.end;
                    functions.push(func_info);
                    proof {
                        let rest = functions_from(s, end as int);
                        assert(infos_view(functions@) =~= infos_view(before).push(func_info@));
                        assert(infos_view(before) + (seq![func_info@] + rest) =~= infos_view(
                            functions@,
                        ) + rest);
                    }
                    i = end;
                },
                None => {
                    i += 1;
                },
            }
        }
        assert(infos_view(functions@) + Seq::empty() =~= infos_view(functions@));
        functions
    }

    /// The function that starts at `start`, if one starts there and has a
    /// body.
    pub fn try_extract_function(tokens: &Vec<Token>, start: usize) -> (r: Option<FunctionInfo>)
        ensures
            info_view(r) == function_at(view_tokens(tokens@), start as int),
            r matches Some(f) ==> start < f.end <= tokens.len(),
    {
        if !Self::is_function_start(tokens, start) {
            return None;
        }
        proof {
            lemma_function_end(view_tokens(tokens@), start as int);
        }
        match Self::find_function_end(tokens, start) {
            Some(end) => Some(
                FunctionInfo { start, end: end + 1, tokens: clone_range(tokens, start, end + 1) },
            ),
            None => None,
        }
    }

    /// Whether a function may start at `i`.
    pub fn is_function_start(tokens: &Vec<Token>, i: usize) -> (r: bool)
        ensures
            r == function_start(view_tokens(tokens@), i as int),
    {
        if i >= tokens.len() {
            return false;
        }
        proof {
            reveal_strlit("fn");
            reveal_strlit("pub");
            assert("fn"@.len() != "pub"@.len());
        }
        if tokens[i].is_ident("fn") {
            !(i > 0 && tokens[i - 1].is_ident("pub"))
        } else if tokens[i].is_ident("pub") {
            tokens.len() - i >= 2 && tokens[i + 1].is_ident("fn")
        } else {
            false
        }
    }

    /// The position of the first brace group from `start` on, unless a `;`
    /// comes first.
    pub fn find_function_end(tokens: &Vec<Token>, start: usize) -> (r: Option<usize>)
        ensures
            match r {
                Some(e) => Some(e as int),
                None => None,
            } == function_end(view_tokens(tokens@), start as int),
            r matches Some(e) ==> start <= e < tokens.len(),
    {
        let ghost s = view_tokens(tokens@);
        let mut i: usize = start;
        while i < tokens.len()
            invariant
                start <= i,
                s == view_tokens(tokens@),
                function_end(s, start as int) == function_end(s, i as int),
            decreases tokens.len() - i,
        {
            if tokens[i].is_group(Delimiter::Brace) {
                return Some(i);
            }
            if tokens[i].is_punct(';') {
                return None;
            }
            i += 1;
        }
        None
    }
}

} // verus!
