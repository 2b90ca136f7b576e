//! The arguments of an instrumentation request: what may be written, how it
//! is recognised, and which requests are refused.

use crate::combinators::{scan_verbatim, verbatim_end, Stop};
use crate::grammar;
use crate::parse::{group_at, ident_at, parse_comma, punct_at, string_at};
use crate::syntax::views;
use crate::token::{
    clone_range, clone_tokens, group_inner, text_of, view_tokens, Delimiter, Token, TokenView,
};
use vstd::prelude::*;

verus! {

/// How a returned value is rendered in its event.
#[derive(Clone, Copy, Debug, PartialEq, Eq, Structural)]
pub enum FormatMode {
    /// Field by field.
    Debug,
    /// As text meant for people.
    Display,
}

impl Default for FormatMode {
    fn default() -> (r: FormatMode)
        ensures
            r == FormatMode::Debug,
    {
        FormatMode::Debug
    }
}

/// `level = "…"`: what stands between the quotes.
#[derive(Debug)]
pub struct LevelArg {
    pub value: String,
}

impl View for LevelArg {
    type V = Seq<char>;

    open spec fn view(&self) -> Seq<char> {
        self.value@
    }
}

/// `name = "…"`: what stands between the quotes.
#[derive(Debug)]
pub struct NameArg {
    pub value: String,
}

/// `target = "…"`: what stands between the quotes.
#[derive(Debug)]
pub struct TargetArg {
    pub value: String,
}

/// `parent = …`: the tokens of the expression.
#[derive(Debug)]
pub struct ParentArg {
    pub value: Vec<Token>,
}

/// One argument inside `ret(…)`.
#[derive(Debug)]
pub enum RetArg {
    Level(LevelArg),
    Debug,
    Display,
}

pub ghost enum RetArgView {
    Level(Seq<char>),
    Debug,
    Display,
}

impl View for RetArg {
    type V = RetArgView;

    open spec fn view(&self) -> RetArgView {
        match self {
            RetArg::Level(l) => RetArgView::Level(l.value@),
            RetArg::Debug => RetArgView::Debug,
            RetArg::Display => RetArgView::Display,
        }
    }
}

/// A request to report the returned value: bare `ret`, or `ret(…)` with its
/// arguments.
#[derive(Debug)]
pub struct RetArgs {
    /// The arguments in the parentheses; `None` where there are no
    /// parentheses.
    pub args: Option<Vec<RetArg>>,
}

pub ghost struct RetArgsView {
    pub args: Option<Seq<RetArgView>>,
}

impl View for RetArgs {
    type V = RetArgsView;

    open spec fn view(&self) -> RetArgsView {
        RetArgsView {
            args: match self.args {
                Some(list) => Some(views(list@)),
                None => None,
            },
        }
    }
}

impl RetArgsView {
    /// The arguments, none where there are no parentheses.
    pub open spec fn list(self) -> Seq<RetArgView> {
        match self.args {
            Some(list) => list,
            None => Seq::empty(),
        }
    }

    /// The first format mode among the arguments, `Debug` where there is
    /// none.
    pub open spec fn format_mode(self) -> FormatMode {
        first_format(self.list(), 0)
    }

    /// The first level among the arguments, if there is one.
    pub open spec fn custom_level(self) -> Option<Seq<char>> {
        first_level(self.list(), 0)
    }
}

/// The first format mode in `list` from `i` on, `Debug` where there is none.
pub open spec fn first_format(list: Seq<RetArgView>, i: int) -> FormatMode
    decreases list.len() - i,
{
    if i < 0 || i >= list.len() {
        FormatMode::Debug
    } else {
        match list[i] {
            RetArgView::Debug => FormatMode::Debug,
            RetArgView::Display => FormatMode::Display,
            RetArgView::Level(_) => first_format(list, i + 1),
        }
    }
}

/// The first level in `list` from `i` on, if there is one.
pub open spec fn first_level(list: Seq<RetArgView>, i: int) -> Option<Seq<char>>
    decreases list.len() - i,
{
    if i < 0 || i >= list.len() {
        None
    } else {
        match list[i] {
            RetArgView::Level(v) => Some(v),
            _ => first_level(list, i + 1),
        }
    }
}

impl RetArgs {
    /// The format mode that the arguments ask for: the first one named,
    /// `Debug` where none is.
    pub fn format_mode(&self) -> (r: FormatMode)
        ensures
            r == self@.format_mode(),
    {
        match &self.args {
            Some(list) => {
                let mut i: usize = 0;
                while i < list.len()
                    invariant
                        i <= list.len(),
                        self.args == Some(*list),
                        first_format(views(list@), 0) == first_format(views(list@), i as int),
                    decreases list.len() - i,
                {
                    match &list[i] {
                        RetArg::Debug => {
                            return FormatMode::Debug;
                        },
                        RetArg::Display => {
                            return FormatMode::Display;
                        },
                        RetArg::Level(_) => {},
                    }
                    i += 1;
                }
                FormatMode::Debug
            },
            None => FormatMode::Debug,
        }
    }

    /// The level that the arguments ask for: the first one given, if any.
    pub fn custom_level(&self) -> (r: Option<&LevelArg>)
        ensures
            match r {
                Some(l) => Some(l.value@),
                None => None,
            } == self@.custom_level(),
    {
        match &self.args {
            Some(list) => {
                let mut i: usize = 0;
                while i < list.len()
                    invariant
                        i <= list.len(),
                        self.args == Some(*list),
                        first_level(views(list@), 0) == first_level(views(list@), i as int),
                    decreases list.len() - i,
                {
                    match &list[i] {
                        RetArg::Level(l) => {
                            return Some(l);
                        },
                        _ => {},
                    }
                    i += 1;
                }
                None
            },
            None => None,
        }
    }
}

/// One argument of an instrumentation request.
#[derive(Debug)]
pub enum InstrumentArg {
    Level(LevelArg),
    Name(NameArg),
    Target(TargetArg),
    Parent(ParentArg),
    Ret(RetArgs),
}

pub ghost enum InstrumentArgView {
    Level(Seq<char>),
    Name(Seq<char>),
    Target(Seq<char>),
    Parent(Seq<TokenView>),
    Ret(RetArgsView),
}

impl View for InstrumentArg {
    type V = InstrumentArgView;

    open spec fn view(&self) -> InstrumentArgView {
        match self {
            InstrumentArg::Level(a) => InstrumentArgView::Level(a.value@),
            InstrumentArg::Name(a) => InstrumentArgView::Name(a.value@),
            InstrumentArg::Target(a) => InstrumentArgView::Target(a.value@),
            InstrumentArg::Parent(a) => InstrumentArgView::Parent(view_tokens(a.value@)),
            InstrumentArg::Ret(a) => InstrumentArgView::Ret(a@),
        }
    }
}

/// The arguments of a request, in the order written.
#[derive(Debug)]
pub struct InstrumentInner {
    pub args: Vec<InstrumentArg>,
}

impl View for InstrumentInner {
    type V = Seq<InstrumentArgView>;

    open spec fn view(&self) -> Seq<InstrumentArgView> {
        views(self.args@)
    }
}

/// `key = "…"` at `p`: what stands between the quotes, and the position
/// behind the literal.
pub open spec fn string_arg(s: Seq<TokenView>, p: int, key: Seq<char>) -> Option<
    (Seq<char>, int),
> {
    if crate::token::ident_at(s, p, key) && crate::token::punct_at(s, p + 1, '=')
        && grammar::string_at(s, p + 2) {
        Some((grammar::string_content(text_of(s[p + 2])), p + 3))
    } else {
        None
    }
}

/// An argument of `ret(…)` at `p`: a level, `Debug` or `Display`.
pub open spec fn ret_arg(s: Seq<TokenView>, p: int) -> Option<(RetArgView, int)> {
    match string_arg(s, p, "level"@) {
        Some((v, e)) => Some((RetArgView::Level(v), e)),
        None => if crate::token::ident_at(s, p, "Debug"@) {
            Some((RetArgView::Debug, p + 1))
        } else if crate::token::ident_at(s, p, "Display"@) {
            Some((RetArgView::Display, p + 1))
        } else {
            None
        },
    }
}

/// The arguments of `ret(…)` from `p` to the end of `s`, separated by
/// commas, the last comma optional. Nothing where a token is left over.
pub open spec fn ret_arg_list(s: Seq<TokenView>, p: int) -> Option<Seq<RetArgView>>
    decreases s.len() - p,
{
    if p < 0 || p >= s.len() {
        Some(Seq::empty())
    } else {
        match ret_arg(s, p) {
            Some((a, e)) => {
                if crate::token::punct_at(s, e, ',') && p < e {
                    match ret_arg_list(s, e + 1) {
                        Some(rest) => Some(seq![a] + rest),
                        None => None,
                    }
                } else if e == s.len() {
                    Some(seq![a])
                } else {
                    None
                }
            },
            None => None,
        }
    }
}

/// `ret` at `p`, with its parenthesised arguments where they follow and can
/// be read as such.
pub open spec fn ret_args(s: Seq<TokenView>, p: int) -> Option<(RetArgsView, int)> {
    if crate::token::ident_at(s, p, "ret"@) {
        if crate::token::group_at(s, p + 1, Delimiter::Parenthesis) && ret_arg_list(
            group_inner(s[p + 1]),
            0,
        ) is Some {
            Some((RetArgsView { args: ret_arg_list(group_inner(s[p + 1]), 0) }, p + 2))
        } else {
            Some((RetArgsView { args: None }, p + 1))
        }
    } else {
        None
    }
}

/// `parent = …` at `p`: at least one unit of expression, up to the next
/// comma.
pub open spec fn parent_arg(s: Seq<TokenView>, p: int) -> Option<(Seq<TokenView>, int)> {
    let e = verbatim_end(s, p + 2, Stop::Comma);
    if crate::token::ident_at(s, p, "parent"@) && crate::token::punct_at(s, p + 1, '=') && p + 2
        < e <= s.len() {
        Some((s.subrange(p + 2, e), e))
    } else {
        None
    }
}

/// An argument at `p`.
pub open spec fn instrument_arg(s: Seq<TokenView>, p: int) -> Option<(InstrumentArgView, int)> {
    match string_arg(s, p, "level"@) {
        Some((v, e)) => Some((InstrumentArgView::Level(v), e)),
        None => match string_arg(s, p, "name"@) {
            Some((v, e)) => Some((InstrumentArgView::Name(v), e)),
            None => match string_arg(s, p, "target"@) {
                Some((v, e)) => Some((InstrumentArgView::Target(v), e)),
                None => match parent_arg(s, p) {
                    Some((v, e)) => Some((InstrumentArgView::Parent(v), e)),
                    None => match ret_args(s, p) {
                        Some((v, e)) => Some((InstrumentArgView::Ret(v), e)),
                        None => None,
                    },
                },
            },
        },
    }
}

/// The arguments from `p` to the end of `s`, separated by commas, the last
/// comma optional. Nothing where a token is left over or is not understood.
pub open spec fn instrument_args(s: Seq<TokenView>, p: int) -> Option<Seq<InstrumentArgView>>
    decreases s.len() - p,
{
    if p < 0 || p >= s.len() {
        Some(Seq::empty())
    } else {
        match instrument_arg(s, p) {
            Some((a, e)) => {
                if crate::token::punct_at(s, e, ',') && p < e {
                    match instrument_args(s, e + 1) {
                        Some(rest) => Some(seq![a] + rest),
                        None => None,
                    }
                } else if e == s.len() {
                    Some(seq![a])
                } else {
                    None
                }
            },
            None => None,
        }
    }
}

/// What stands between the quotes of the string literal at `p`.
pub fn string_content_at(tokens: &Vec<Token>, p: usize) -> (r: String)
    requires
        grammar::string_at(view_tokens(tokens@), p as int),
    ensures
        r@ == grammar::string_content(text_of(view_tokens(tokens@)[p as int])),
{
    match &tokens[p] {
        Token::Literal(text) => {
            let s = text.as_str();
            let n = s.unicode_len();
            s.substring_char(1, n - 1).to_owned()
        },
        _ => String::new(),
    }
}

/// Parses `key = "…"` at `p`.
pub fn parse_string_arg(tokens: &Vec<Token>, p: usize, key: &str) -> (r: Option<(String, usize)>)
    requires
        p <= tokens.len(),
    ensures
        match r {
            Some((v, e)) => Some((v@, e as int)),
            None => None,
        } == string_arg(view_tokens(tokens@), p as int, key@),
        r matches Some((_, e)) ==> p < e <= tokens.len(),
{
    if ident_at(tokens, p, key) && tokens.len() - p >= 3 && punct_at(tokens, p + 1, '=')
        && string_at(tokens, p + 2) {
        Some((string_content_at(tokens, p + 2), p + 3))
    } else {
        None
    }
}

/// Parses an argument of `ret(…)` at `p`.
pub fn parse_ret_arg(tokens: &Vec<Token>, p: usize) -> (r: Option<(RetArg, usize)>)
    requires
        p <= tokens.len(),
    ensures
        crate::parse::found(r) == ret_arg(view_tokens(tokens@), p as int),
        r matches Some((_, e)) ==> p < e <= tokens.len(),
{
    match parse_string_arg(tokens, p, "level") {
        Some((value, e)) => Some((RetArg::Level(LevelArg { value }), e)),
        None => if ident_at(tokens, p, "Debug") {
            Some((RetArg::Debug, p + 1))
        } else if ident_at(tokens, p, "Display") {
            Some((RetArg::Display, p + 1))
        } else {
            None
        },
    }
}

/// Parses the arguments of `ret(…)` from `p` to the end of `tokens`.
pub fn parse_ret_arg_list(tokens: &Vec<Token>, p: usize) -> (r: Option<Vec<RetArg>>)
    requires
        p <= tokens.len(),
    ensures
        match r {
            Some(list) => Some(views(list@)),
            None => None,
        } == ret_arg_list(view_tokens(tokens@), p as int),
{
    let ghost s = view_tokens(tokens@);
    let mut out: Vec<RetArg> = Vec::new();
    let mut q: usize = p;
    proof {
        if ret_arg_list(s, q as int) is Some {
            assert(views(out@) + ret_arg_list(s, q as int).unwrap() =~= ret_arg_list(
                s,
                q as int,
            ).unwrap());
        }
    }
    while q < tokens.len()
        invariant
            p <= q <= tokens.len(),
            s == view_tokens(tokens@),
            ret_arg_list(s, p as int) == match ret_arg_list(s, q as int) {
                Some(rest) => Some(views(out@) + rest),
                None => None,
            },
        decreases tokens.len() - q,
    {
        let ghost before = out@;
        match parse_ret_arg(tokens, q) {
            Some((a, e)) => {
                let (comma, next) = parse_comma(tokens, e);
                if comma.is_some() {
                    out.push(a);
                    proof {
                        assert(views(out@) =~= views(before).push(a@));
                        if ret_arg_list(s, e + 1) is Some {
                            let rest = ret_arg_list(s, e + 1).unwrap();
                            assert(views(before) + (seq![a@] + rest) =~= views(out@) + rest);
                        }
                    }
                    q = next;
                } else if e == tokens.len() {
                    out.push(a);
                    proof {
                        assert(views(out@) =~= views(before).push(a@));
                        assert(views(before) + seq![a@] =~= views(out@));
                    }
                    return Some(out);
                } else {
                    return None;
                }
            },
            None => {
                return None;
            },
        }
    }
    assert(views(out@) + Seq::empty() =~= views(out@));
    Some(out)
}

/// Parses `ret` at `p`, with its parenthesised arguments where they follow.
pub fn parse_ret_args(tokens: &Vec<Token>, p: usize) -> (r: Option<(RetArgs, usize)>)
    requires
        p <= tokens.len(),
    ensures
        crate::parse::found(r) == ret_args(view_tokens(tokens@), p as int),
        r matches Some((_, e)) ==> p < e <= tokens.len(),
{
    if ident_at(tokens, p, "ret") {
        if tokens.len() - p >= 2 && group_at(tokens, p + 1, Delimiter::Parenthesis) {
            let list = match &tokens[p + 1] {
                Token::Group(_, inner) => parse_ret_arg_list(inner, 0),
                _ => None,
            };
            match list {
                Some(list) => Some((RetArgs { args: Some(list) }, p + 2)),
                None => Some((RetArgs { args: None }, p + 1)),
            }
        } else {
            Some((RetArgs { args: None }, p + 1))
        }
    } else {
        None
    }
}

/// Parses `parent = …` at `p`.
pub fn parse_parent_arg(tokens: &Vec<Token>, p: usize) -> (r: Option<(ParentArg, usize)>)
    requires
        p <= tokens.len(),
    ensures
        match r {
            Some((a, e)) => Some((view_tokens(a.value@), e as int)),
            None => None,
        } == parent_arg(view_tokens(tokens@), p as int),
        r matches Some((_, e)) ==> p < e <= tokens.len(),
{
    if ident_at(tokens, p, "parent") && tokens.len() - p >= 2 && punct_at(tokens, p + 1, '=') {
        let e = scan_verbatim(tokens, p + 2, Stop::Comma);
        if p + 2 < e {
            Some((ParentArg { value: clone_range(tokens, p + 2, e) }, e))
        } else {
            None
        }
    } else {
        None
    }
}

/// Parses an argument at `p`.
pub fn parse_instrument_arg(tokens: &Vec<Token>, p: usize) -> (r: Option<(InstrumentArg, usize)>)
    requires
        p <= tokens.len(),
    ensures
        crate::parse::found(r) == instrument_arg(view_tokens(tokens@), p as int),
        r matches Some((_, e)) ==> p < e <= tokens.len(),
{
    match parse_string_arg(tokens, p, "level") {
        Some((value, e)) => Some((InstrumentArg::Level(LevelArg { value }), e)),
        None => match parse_string_arg(tokens, p, "name") {
            Some((value, e)) => Some((InstrumentArg::Name(NameArg { value }), e)),
            None => match parse_string_arg(tokens, p, "target") {
                Some((value, e)) => Some((InstrumentArg::Target(TargetArg { value }), e)),
                None => match parse_parent_arg(tokens, p) {
                    Some((a, e)) => Some((InstrumentArg::Parent(a), e)),
                    None => match parse_ret_args(tokens, p) {
                        Some((a, e)) => Some((InstrumentArg::Ret(a), e)),
                        None => None,
                    },
                },
            },
        },
    }
}

/// Parses the arguments of a request: all of `tokens`, or nothing.
pub fn parse_instrument_inner(tokens: &Vec<Token>) -> (r: Option<InstrumentInner>)
    ensures
        opt_inner_view(r) == instrument_args(view_tokens(tokens@), 0),
{
    let ghost s = view_tokens(tokens@);
    let mut out: Vec<InstrumentArg> = Vec::new();
    let mut q: usize = 0;
    proof {
        if instrument_args(s, q as int) is Some {
            assert(views(out@) + instrument_args(s, q as int).unwrap() =~= instrument_args(
                s,
                q as int,
            ).unwrap());
        }
    }
    while q < tokens.len()
        invariant
            q <= tokens.len(),
            s == view_tokens(tokens@),
            instrument_args(s, 0) == match instrument_args(s, q as int) {
                Some(rest) => Some(views(out@) + rest),
                None => None,
            },
        decreases tokens.len() - q,
    {
        let ghost before = out@;
        match parse_instrument_arg(tokens, q) {
            Some((a, e)) => {
                let (comma, next) = parse_comma(tokens, e);
                if comma.is_some() {
                    out.push(a);
                    proof {
                        assert(views(out@) =~= views(before).push(a@));
                        if instrument_args(s, e + 1) is Some {
                            let rest = instrument_args(s, e + 1).unwrap();
                            assert(views(before) + (seq![a@] + rest) =~= views(out@) + rest);
                        }
                    }
                    q = next;
                } else if e == tokens.len() {
                    out.push(a);
                    proof {
                        assert(views(out@) =~= views(before).push(a@));
                        assert(views(before) + seq![a@] =~= views(out@));
                    }
                    return Some(InstrumentInner { args: out });
                } else {
                    return None;
                }
            },
            None => {
                return None;
            },
        }
    }
    assert(views(out@) + Seq::empty() =~= views(out@));
    Some(InstrumentInner { args: out })
}

/// The view of an optional argument list.
pub open spec fn opt_inner_view(r: Option<InstrumentInner>) -> Option<Seq<InstrumentArgView>> {
    match r {
        Some(inner) => Some(inner@),
        None => None,
    }
}

/// A copy of a request to report the returned value.
pub fn clone_ret_args(r: &RetArgs) -> (c: RetArgs)
    ensures
        c@ == r@,
{
    match &r.args {
        Some(list) => {
            let mut out: Vec<RetArg> = Vec::new();
            let mut i: usize = 0;
            while i < list.len()
                invariant
                    i <= list.len(),
                    out.len() == i,
                    forall|k: int| 0 <= k < i ==> (#[trigger] out@[k])@ == list@[k]@,
                decreases list.len() - i,
            {
                let a = match &list[i] {
                    RetArg::Level(l) => RetArg::Level(LevelArg { value: l.value.clone() }),
                    RetArg::Debug => RetArg::Debug,
                    RetArg::Display => RetArg::Display,
                };
                out.push(a);
                i += 1;
            }
            assert(views(out@) =~= views(list@));
            RetArgs { args: Some(out) }
        },
        None => RetArgs { args: None },
    }
}

/// A copy of the tokens of a parent expression.
pub fn clone_parent(p: &ParentArg) -> (c: Vec<Token>)
    ensures
        view_tokens(c@) == view_tokens(p.value@),
{
    clone_tokens(&p.value)
}

} // verus!
