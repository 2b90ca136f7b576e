//! Instruments one function: reads the request, reads the function, and
//! writes the function again with a body that opens a span first.

use crate::args::{
    clone_ret_args, instrument_args, parse_instrument_inner, FormatMode, InstrumentArg,
    InstrumentArgView, RetArg, RetArgView, RetArgs, RetArgsView,
};
use crate::grammar;
use crate::parse::{group_at, parse_fn_sig, parse_params};
use crate::syntax::{
    concat, kw, lemma_concat_push, params_group, params_names, pattern_names, push_group,
    push_ident, push_name, push_punct, views, FnParam, FnSig, FnSigView, Pattern,
};
use crate::token::{
    clone_range, clone_tokens, extend_tokens, group_inner, lemma_view_tokens_push, text_is,
    view_tokens, Delimiter, Token, TokenView,
};
use vstd::prelude::*;
use vstd::string::StringExecFns;

verus! {

/// The source text of the string literal that `proc_macro2` makes for the
/// string `s`.
pub uninterp spec fn literal_text(s: Seq<char>) -> Seq<char>;

/// Calls `proc_macro2::Literal::string` and takes the text that the literal
/// displays as. The contract only gives that text a name: within one
/// process it is one fixed function of the characters of `s`. Nothing is
/// claimed of what the text is.
#[verifier::external_body]
fn string_literal(s: &str) -> (r: String)
    ensures
        r@ == literal_text(s@),
{
    proc_macro2::Literal::string(s).to_string()
}

/// Why a request is refused.
#[derive(Clone, Copy, Debug, PartialEq, Eq, Structural)]
pub enum InstrumentError {
    /// The arguments are not a comma-separated list of `level`, `name`,
    /// `target`, `parent` and `ret` arguments.
    UnrecognizedArgs,
    /// `ret` is given more than once.
    DuplicateRet,
    /// A level is none of the five known ones.
    InvalidLevel,
    /// The item does not begin with a function that has a body.
    NotAFunction,
}

impl InstrumentError {
    /// The message of this error.
    pub open spec fn text(self) -> Seq<char> {
        match self {
            InstrumentError::UnrecognizedArgs =>
                "Failed to parse instrument args: unknown or malformed argument, expected `level`, `name`, `target`, `parent` or `ret` separated by commas"@,
            InstrumentError::DuplicateRet => "expected only a single `ret` argument, found a duplicate"@,
            InstrumentError::InvalidLevel =>
                "Failed to parse instrument args: unknown level, expected \"trace\", \"debug\", \"info\", \"warn\" or \"error\""@,
            InstrumentError::NotAFunction =>
                "Failed to parse function: expected a function with a body"@,
        }
    }

    /// The message of this error.
    pub fn message(&self) -> (r: String)
        ensures
            r@ == self.text(),
    {
        match self {
            InstrumentError::UnrecognizedArgs => String::from_str(
                "Failed to parse instrument args: unknown or malformed argument, expected `level`, `name`, `target`, `parent` or `ret` separated by commas",
            ),
            InstrumentError::DuplicateRet => String::from_str(
                "expected only a single `ret` argument, found a duplicate",
            ),
            InstrumentError::InvalidLevel => String::from_str(
                "Failed to parse instrument args: unknown level, expected \"trace\", \"debug\", \"info\", \"warn\" or \"error\"",
            ),
            InstrumentError::NotAFunction => String::from_str(
                "Failed to parse function: expected a function with a body",
            ),
        }
    }
}

/// Whether `level` names one of the five severities.
pub open spec fn valid_level(level: Seq<char>) -> bool {
    level == "trace"@ || level == "debug"@ || level == "info"@ || level == "warn"@ || level
        == "error"@
}

/// Whether `level` names one of the five severities.
pub fn is_valid_level(level: &String) -> (r: bool)
    ensures
        r == valid_level(level@),
{
    text_is(level, "trace") || text_is(level, "debug") || text_is(level, "info") || text_is(
        level,
        "warn",
    ) || text_is(level, "error")
}

/// Whether every level among the first `n` arguments of `ret(…)` is valid.
pub open spec fn ret_levels_valid(list: Seq<RetArgView>, n: int) -> bool {
    forall|i: int| 0 <= i < n && i < list.len() ==> (#[trigger] list[i] matches RetArgView::Level(v)
        ==> valid_level(v))
}

/// What a request asks for.
#[derive(Debug)]
pub struct InstrumentArgs {
    pub level: Option<String>,
    pub name: Option<String>,
    pub ret_args: Option<RetArgs>,
    pub target: Option<String>,
    pub parent: Option<Vec<Token>>,
}

pub ghost struct InstrumentArgsView {
    pub level: Option<Seq<char>>,
    pub name: Option<Seq<char>>,
    pub ret_args: Option<RetArgsView>,
    pub target: Option<Seq<char>>,
    pub parent: Option<Seq<TokenView>>,
}

/// The characters of an optional string.
pub open spec fn opt_text(o: Option<String>) -> Option<Seq<char>> {
    match o {
        Some(s) => Some(s@),
        None => None,
    }
}

impl View for InstrumentArgs {
    type V = InstrumentArgsView;

    open spec fn view(&self) -> InstrumentArgsView {
        InstrumentArgsView {
            level: opt_text(self.level),
            name: opt_text(self.name),
            ret_args: match self.ret_args {
                Some(r) => Some(r@),
                None => None,
            },
            target: opt_text(self.target),
            parent: match self.parent {
                Some(p) => Some(view_tokens(p@)),
                None => None,
            },
        }
    }
}

impl InstrumentArgsView {
    /// The request that asks for nothing.
    pub open spec fn empty() -> InstrumentArgsView {
        InstrumentArgsView { level: None, name: None, ret_args: None, target: None, parent: None }
    }
}

impl Default for InstrumentArgs {
    fn default() -> (r: InstrumentArgs)
        ensures
            r@ == InstrumentArgsView::empty(),
    {
        InstrumentArgs { level: None, name: None, ret_args: None, target: None, parent: None }
    }
}

/// The request after one more argument. A later `level`, `name`, `target`
/// or `parent` replaces an earlier one; a second `ret` is refused, and so is
/// a level that is not valid.
pub open spec fn apply_arg(acc: InstrumentArgsView, a: InstrumentArgView) -> Result<
    InstrumentArgsView,
    InstrumentError,
> {
    match a {
        InstrumentArgView::Level(v) => if valid_level(v) {
            Ok(InstrumentArgsView { level: Some(v), ..acc })
        } else {
            Err(InstrumentError::InvalidLevel)
        },
        InstrumentArgView::Name(v) => Ok(InstrumentArgsView { name: Some(v), ..acc }),
        InstrumentArgView::Target(v) => Ok(InstrumentArgsView { target: Some(v), ..acc }),
        InstrumentArgView::Parent(v) => Ok(InstrumentArgsView { parent: Some(v), ..acc }),
        InstrumentArgView::Ret(r) => if acc.ret_args is Some {
            Err(InstrumentError::DuplicateRet)
        } else if !ret_levels_valid(r.list(), r.list().len() as int) {
            Err(InstrumentError::InvalidLevel)
        } else {
            Ok(InstrumentArgsView { ret_args: Some(r), ..acc })
        },
    }
}

/// The request that the first `n` arguments make, or the first refusal
/// among them.
pub open spec fn fold_args(list: Seq<InstrumentArgView>, n: int) -> Result<
    InstrumentArgsView,
    InstrumentError,
>
    decreases n,
{
    if n <= 0 || n > list.len() {
        Ok(InstrumentArgsView::empty())
    } else {
        match fold_args(list, n - 1) {
            Ok(acc) => apply_arg(acc, list[n - 1]),
            Err(e) => Err(e),
        }
    }
}

/// Once an argument is refused, the arguments behind it change nothing.
pub proof fn lemma_fold_refused(list: Seq<InstrumentArgView>, k: int, n: int)
    requires
        0 <= k <= n <= list.len(),
        fold_args(list, k) is Err,
    ensures
        fold_args(list, n) == fold_args(list, k),
    decreases n - k,
{
    if k < n {
        lemma_fold_refused(list, k, n - 1);
    }
}

/// The request that the tokens `s` make: they must be arguments from the
/// first token to the last, and no argument may be refused.
pub open spec fn request(s: Seq<TokenView>) -> Result<InstrumentArgsView, InstrumentError> {
    match instrument_args(s, 0) {
        Some(list) => fold_args(list, list.len() as int),
        None => Err(InstrumentError::UnrecognizedArgs),
    }
}

/// The view of a result that holds a request.
pub open spec fn request_view(r: Result<InstrumentArgs, InstrumentError>) -> Result<
    InstrumentArgsView,
    InstrumentError,
> {
    match r {
        Ok(a) => Ok(a@),
        Err(e) => Err(e),
    }
}

/// Whether every level among the arguments of `ret(…)` is valid.
pub fn check_ret_levels(r: &RetArgs) -> (ok: bool)
    ensures
        ok == ret_levels_valid(r@.list(), r@.list().len() as int),
{
    match &r.args {
        Some(list) => {
            let mut i: usize = 0;
            while i < list.len()
                invariant
                    i <= list.len(),
                    r.args == Some(*list),
                    r@.list() == views(list@),
                    ret_levels_valid(r@.list(), i as int),
                decreases list.len() - i,
            {
                match &list[i] {
                    RetArg::Level(l) => {
                        if !is_valid_level(&l.value) {
                            assert(r@.list()[i as int] == RetArgView::Level(l.value@));
                            return false;
                        }
                    },
                    _ => {},
                }
                i += 1;
            }
            true
        },
        None => true,
    }
}

/// Reads the arguments of a request.
///
/// Succeeds exactly when `input` is a comma-separated list of arguments
/// from its first token to its last, `ret` occurs at most once and every
/// level is valid.
#[verifier::rlimit(50)]
pub fn parse_instrument_args(input: &Vec<Token>) -> (r: Result<InstrumentArgs, InstrumentError>)
    ensures
        request_view(r) == request(view_tokens(input@)),
{
    let inner = match parse_instrument_inner(input) {
        Some(inner) => inner,
        None => {
            return Err(InstrumentError::UnrecognizedArgs);
        },
    };
    let ghost list = inner@;
    let mut args = InstrumentArgs::default();
    let mut i: usize = 0;
    while i < inner.args.len()
        invariant
            i <= inner.args.len(),
            list == views(inner.args@),
            instrument_args(view_tokens(input@), 0) == Some(list),
            fold_args(list, i as int) == Ok::<InstrumentArgsView, InstrumentError>(args@),
        decreases inner.args.len() - i,
    {
        proof {
            if fold_args(list, i + 1) is Err {
                lemma_fold_refused(list, i + 1, list.len() as int);
            }
        }
        match &inner.args[i] {
            InstrumentArg::Level(a) => {
                if !is_valid_level(&a.value) {
                    return Err(InstrumentError::InvalidLevel);
                }
                args.level = Some(a.value.clone());
            },
            InstrumentArg::Name(a) => {
                args.name = Some(a.value.clone());
            },
            InstrumentArg::Target(a) => {
                args.target = Some(a.value.clone());
            },
            InstrumentArg::Parent(a) => {
                args.parent = Some(clone_tokens(&a.value));
            },
            InstrumentArg::Ret(a) => {
                if args.ret_args.is_some() {
                    return Err(InstrumentError::DuplicateRet);
                }
                if !check_ret_levels(a) {
                    return Err(InstrumentError::InvalidLevel);
                }
                args.ret_args = Some(clone_ret_args(a));
            },
        }
        i += 1;
    }
    Ok(args)
}

/// A function in pieces: the tokens of each part of its header, its name,
/// and its body.
#[derive(Debug)]
pub struct SimpleFunction {
    /// The tokens of each attribute.
    pub attrs: Vec<Vec<Token>>,
    pub vis: Option<Vec<Token>>,
    pub const_kw: Option<Vec<Token>>,
    pub async_kw: Option<Vec<Token>>,
    pub unsafe_kw: Option<Vec<Token>>,
    pub extern_kw: Option<Vec<Token>>,
    pub fn_name: String,
    pub generics: Option<Vec<Token>>,
    /// The parenthesis group of the parameters.
    pub params: Vec<Token>,
    pub ret_type: Option<Vec<Token>>,
    pub where_clause: Option<Vec<Token>>,
    /// The brace group of the body.
    pub body: Vec<Token>,
    /// What stood behind the body where the function was read; it is
    /// written behind the function again as it is.
    pub rest: Vec<Token>,
}

pub ghost struct SimpleFunctionView {
    pub attrs: Seq<Seq<TokenView>>,
    pub vis: Option<Seq<TokenView>>,
    pub const_kw: Option<Seq<TokenView>>,
    pub async_kw: Option<Seq<TokenView>>,
    pub unsafe_kw: Option<Seq<TokenView>>,
    pub extern_kw: Option<Seq<TokenView>>,
    pub fn_name: Seq<char>,
    pub generics: Option<Seq<TokenView>>,
    pub params: Seq<TokenView>,
    pub ret_type: Option<Seq<TokenView>>,
    pub where_clause: Option<Seq<TokenView>>,
    pub body: Seq<TokenView>,
    pub rest: Seq<TokenView>,
}

/// The view of optional tokens.
pub open spec fn opt_tokens(o: Option<Vec<Token>>) -> Option<Seq<TokenView>> {
    match o {
        Some(v) => Some(view_tokens(v@)),
        None => None,
    }
}

/// The tokens of an optional piece, nothing where it is absent.
pub open spec fn piece(o: Option<Seq<TokenView>>) -> Seq<TokenView> {
    match o {
        Some(t) => t,
        None => Seq::empty(),
    }
}

/// The view of each token sequence of a list.
pub open spec fn view_pieces(v: Seq<Vec<Token>>) -> Seq<Seq<TokenView>> {
    Seq::new(v.len(), |i: int| view_tokens(v[i]@))
}

impl View for SimpleFunction {
    type V = SimpleFunctionView;

    open spec fn view(&self) -> SimpleFunctionView {
        SimpleFunctionView {
            attrs: view_pieces(self.attrs@),
            vis: opt_tokens(self.vis),
            const_kw: opt_tokens(self.const_kw),
            async_kw: opt_tokens(self.async_kw),
            unsafe_kw: opt_tokens(self.unsafe_kw),
            extern_kw: opt_tokens(self.extern_kw),
            fn_name: self.fn_name@,
            generics: opt_tokens(self.generics),
            params: view_tokens(self.params@),
            ret_type: opt_tokens(self.ret_type),
            where_clause: opt_tokens(self.where_clause),
            body: view_tokens(self.body@),
            rest: view_tokens(self.rest@),
        }
    }
}

impl SimpleFunctionView {
    /// Everything but the body.
    pub open spec fn header_tokens(self) -> Seq<TokenView> {
        concat(self.attrs) + piece(self.vis) + piece(self.const_kw) + piece(self.async_kw) + piece(
            self.unsafe_kw,
        ) + piece(self.extern_kw) + seq![kw("fn"@), kw(self.fn_name)] + piece(self.generics)
            + self.params + piece(self.ret_type) + piece(self.where_clause)
    }
}

/// The keyword `text` as a piece where `present`.
pub open spec fn flag_piece(present: bool, text: Seq<char>) -> Option<Seq<TokenView>> {
    if present {
        Some(seq![kw(text)])
    } else {
        None
    }
}

/// The pieces of a parsed function, with nothing behind it.
pub open spec fn simple_of(sig: FnSigView) -> SimpleFunctionView {
    SimpleFunctionView {
        attrs: sig.attributes.map_values(|a: crate::syntax::AttributeView| a.tokens()),
        vis: match sig.visibility {
            Some(v) => Some(v.tokens()),
            None => None,
        },
        const_kw: flag_piece(sig.const_kw, "const"@),
        async_kw: flag_piece(sig.async_kw, "async"@),
        unsafe_kw: flag_piece(sig.unsafe_kw, "unsafe"@),
        extern_kw: match sig.extern_kw {
            Some(e) => Some(e.tokens()),
            None => None,
        },
        fn_name: sig.name,
        generics: match sig.generics {
            Some(g) => Some(g.tokens()),
            None => None,
        },
        params: seq![
            TokenView::Group(Delimiter::Parenthesis, crate::syntax::params_tokens(sig.params)),
        ],
        ret_type: match sig.return_type {
            Some(r) => Some(r.tokens()),
            None => None,
        },
        where_clause: match sig.where_clause {
            Some(w) => Some(w.tokens()),
            None => None,
        },
        body: seq![TokenView::Group(Delimiter::Brace, sig.body)],
        rest: Seq::empty(),
    }
}

/// The keyword `text` as a piece where `present`.
fn keyword_piece(present: bool, text: &str) -> (r: Option<Vec<Token>>)
    ensures
        opt_tokens(r) == flag_piece(present, text@),
{
    if present {
        let mut v: Vec<Token> = Vec::new();
        push_ident(&mut v, text);
        assert(view_tokens(v@) =~= seq![kw(text@)]);
        Some(v)
    } else {
        None
    }
}

/// Takes a parsed function to pieces.
#[verifier::rlimit(50)]
pub fn simplify(sig: &FnSig) -> (r: SimpleFunction)
    ensures
        r@ == simple_of(sig@),
{
    let ghost all = views(sig.attributes@);
    let mut attrs: Vec<Vec<Token>> = Vec::new();
    let mut i: usize = 0;
    while i < sig.attributes.len()
        invariant
            i <= sig.attributes.len(),
            all == views(sig.attributes@),
            attrs.len() == i,
            forall|k: int| 0 <= k < i ==> view_tokens((#[trigger] attrs@[k])@) == all[k].tokens(),
        decreases sig.attributes.len() - i,
    {
        let mut one: Vec<Token> = Vec::new();
        sig.attributes[i].to_tokens(&mut one);
        assert(view_tokens(one@) =~= all[i as int].tokens());
        attrs.push(one);
        i += 1;
    }
    assert(view_pieces(attrs@) =~= all.map_values(|a: crate::syntax::AttributeView| a.tokens()));
    let vis = match &sig.visibility {
        Some(v) => {
            let mut t: Vec<Token> = Vec::new();
            v.to_tokens(&mut t);
            assert(view_tokens(t@) =~= v@.tokens());
            Some(t)
        },
        None => None,
    };
    let extern_kw = match &sig.extern_kw {
        Some(e) => {
            let mut t: Vec<Token> = Vec::new();
            e.to_tokens(&mut t);
            assert(view_tokens(t@) =~= e@.tokens());
            Some(t)
        },
        None => None,
    };
    let generics = match &sig.generics {
        Some(g) => {
            let mut t: Vec<Token> = Vec::new();
            g.to_tokens(&mut t);
            assert(view_tokens(t@) =~= g@.tokens());
            Some(t)
        },
        None => None,
    };
    let mut params: Vec<Token> = Vec::new();
    let group = params_group(&sig.params);
    proof {
        lemma_view_tokens_push(params@, group);
    }
    params.push(group);
    assert(view_tokens(params@) =~= simple_of(sig@).params);
    let ret_type = match &sig.return_type {
        Some(r) => {
            let mut t: Vec<Token> = Vec::new();
            r.to_tokens(&mut t);
            assert(view_tokens(t@) =~= r@.tokens());
            Some(t)
        },
        None => None,
    };
    let where_clause = match &sig.where_clause {
        Some(w) => {
            let mut t: Vec<Token> = Vec::new();
            w.to_tokens(&mut t);
            assert(view_tokens(t@) =~= w@.tokens());
            Some(t)
        },
        None => None,
    };
    let mut body: Vec<Token> = Vec::new();
    push_group(&mut body, Delimiter::Brace, clone_tokens(&sig.body));
    assert(view_tokens(body@) =~= simple_of(sig@).body);
    let rest: Vec<Token> = Vec::new();
    assert(view_tokens(rest@) =~= Seq::empty());
    SimpleFunction {
        attrs,
        vis,
        const_kw: keyword_piece(sig.const_kw, "const"),
        async_kw: keyword_piece(sig.async_kw, "async"),
        unsafe_kw: keyword_piece(sig.unsafe_kw, "unsafe"),
        extern_kw,
        fn_name: sig.name.clone(),
        generics,
        params,
        ret_type,
        where_clause,
        body,
        rest,
    }
}

/// The pieces of the function that `s` begins with, if it begins with one,
/// and what stands behind it.
pub open spec fn simple_function(s: Seq<TokenView>) -> Result<
    SimpleFunctionView,
    InstrumentError,
> {
    match grammar::fn_sig(s, 0) {
        Some((sig, e)) => Ok(
            SimpleFunctionView { rest: s.subrange(e, s.len() as int), ..simple_of(sig) },
        ),
        None => Err(InstrumentError::NotAFunction),
    }
}

/// Reads the function that `input` begins with and takes it to pieces.
///
/// Succeeds exactly when the grammar finds a function with a body at the
/// first token. Tokens behind the body are kept as they are.
pub fn parse_simple_function(input: &Vec<Token>) -> (r: Result<SimpleFunction, InstrumentError>)
    ensures
        match r {
            Ok(f) => Ok(f@),
            Err(e) => Err(e),
        } == simple_function(view_tokens(input@)),
{
    match parse_fn_sig(input, 0) {
        Some((sig, end)) => {
            let mut func = simplify(&sig);
            func.rest = clone_range(input, end, input.len());
            Ok(func)
        },
        None => Err(InstrumentError::NotAFunction),
    }
}

/// The characters of each string of a list.
pub open spec fn texts(v: Seq<String>) -> Seq<Seq<char>> {
    Seq::new(v.len(), |i: int| v[i]@)
}

/// Appends copies of the strings of `more` to `out`.
fn extend_names(out: &mut Vec<String>, more: &Vec<String>)
    ensures
        texts(final(out)@) == texts(old(out)@) + texts(more@),
{
    let mut i: usize = 0;
    assert(texts(out@) =~= texts(old(out)@) + texts(more@).take(0));
    while i < more.len()
        invariant
            i <= more.len(),
            texts(out@) == texts(old(out)@) + texts(more@).take(i as int),
        decreases more.len() - i,
    {
        let ghost before = out@;
        let s = more[i].clone();
        out.push(s);
        assert(texts(out@) =~= texts(before).push(s@));
        assert(texts(more@).take(i + 1) =~= texts(more@).take(i as int).push(more@[i as int]@));
        i += 1;
    }
    assert(texts(more@).take(more.len() as int) =~= texts(more@));
}

impl Pattern {
    /// The names that this pattern binds and that can be captured: the name
    /// of an identifier pattern, and the names of the elements of a tuple
    /// pattern, in order, at any depth.
    #[verifier::loop_isolation(false)]
    pub fn extract_identifiers(&self) -> (r: Vec<String>)
        ensures
            texts(r@) == pattern_names(self@),
        decreases *self,
    {
        match self {
            Pattern::Ident(name) => {
                let mut out: Vec<String> = Vec::new();
                out.push(name.clone());
                assert(texts(out@) =~= seq![name@]);
                out
            },
            Pattern::Tuple(fields) => {
                let ghost all = crate::syntax::view_fields(fields@);
                let mut out: Vec<String> = Vec::new();
                let mut i: usize = 0;
                assert(texts(out@) =~= crate::syntax::fields_names(all, 0));
                while i < fields.len()
                    invariant
                        i <= fields.len(),
                        texts(out@) == crate::syntax::fields_names(all, i as int),
                    decreases fields.len() - i,
                {
                    let names = fields[i].pattern.extract_identifiers();
                    extend_names(&mut out, &names);
                    i += 1;
                }
                out
            },
            Pattern::Other(_) => {
                let out: Vec<String> = Vec::new();
                assert(texts(out@) =~= Seq::empty());
                out
            },
        }
    }
}

/// The names that a parameter contributes as span fields.
pub fn param_names(p: &FnParam) -> (r: Vec<String>)
    ensures
        texts(r@) == p@.names(),
{
    match p {
        FnParam::SelfParam(_) => {
            let out: Vec<String> = Vec::new();
            assert(texts(out@) =~= Seq::empty());
            out
        },
        FnParam::Named(n) => {
            let mut out: Vec<String> = Vec::new();
            out.push(n.name.clone());
            assert(texts(out@) =~= seq![n.name@]);
            out
        },
        FnParam::Pattern(pp) => pp.pattern.extract_identifiers(),
    }
}

/// The span field that captures the variable `name`: `, name = name`.
pub open spec fn field_tokens(name: Seq<char>) -> Seq<TokenView> {
    seq![TokenView::Punct(',', false), kw(name), TokenView::Punct('=', false), kw(name)]
}

/// The span fields of the first `n` names.
pub open spec fn fields_tokens(names: Seq<Seq<char>>, n: int) -> Seq<TokenView>
    decreases n,
{
    if n <= 0 || n > names.len() {
        Seq::empty()
    } else {
        fields_tokens(names, n - 1) + field_tokens(names[n - 1])
    }
}

/// The span fields of a parameter list: one field for each name that the
/// parameters contribute, in declared order. `s` must begin with a
/// parenthesis group that holds a parameter list; otherwise there are none.
pub open spec fn param_fields(s: Seq<TokenView>) -> Seq<TokenView> {
    if crate::token::group_at(s, 0, Delimiter::Parenthesis) {
        match grammar::params(group_inner(s[0]), 0) {
            Some(list) => {
                let names = params_names(list, list.len() as int);
                fields_tokens(names, names.len() as int)
            },
            None => Seq::empty(),
        }
    } else {
        Seq::empty()
    }
}

/// Extracts the span fields from the parameters of a function.
pub fn extract_param_fields(params: &Vec<Token>) -> (r: Vec<Token>)
    ensures
        view_tokens(r@) == param_fields(view_tokens(params@)),
{
    let mut out: Vec<Token> = Vec::new();
    assert(view_tokens(out@) =~= Seq::empty());
    if !group_at(params, 0, Delimiter::Parenthesis) {
        return out;
    }
    let parsed = match &params[0] {
        Token::Group(_, inner) => parse_params(inner, 0),
        _ => None,
    };
    let list = match parsed {
        Some(list) => list,
        None => {
            return out;
        },
    };
    let ghost vl = views(list@);
    let mut names: Vec<String> = Vec::new();
    let mut i: usize = 0;
    assert(texts(names@) =~= params_names(vl, 0));
    while i < list.len()
        invariant
            i <= list.len(),
            vl == views(list@),
            texts(names@) == params_names(vl, i as int),
        decreases list.len() - i,
    {
        let more = param_names(&list[i].value);
        extend_names(&mut names, &more);
        i += 1;
    }
    let ghost ns = texts(names@);
    let mut k: usize = 0;
    while k < names.len()
        invariant
            k <= names.len(),
            ns == texts(names@),
            view_tokens(out@) == fields_tokens(ns, k as int),
        decreases names.len() - k,
    {
        push_punct(&mut out, ',', false);
        push_name(&mut out, &names[k]);
        push_punct(&mut out, '=', false);
        push_name(&mut out, &names[k]);
        assert(view_tokens(out@) =~= fields_tokens(ns, k as int) + field_tokens(ns[k as int]));
        k += 1;
    }
    out
}

/// The name of the severity constant for a level, if the level is valid.
pub open spec fn level_constant(level: Seq<char>) -> Option<Seq<char>> {
    if level == "trace"@ {
        Some("TRACE"@)
    } else if level == "debug"@ {
        Some("DEBUG"@)
    } else if level == "info"@ {
        Some("INFO"@)
    } else if level == "warn"@ {
        Some("WARN"@)
    } else if level == "error"@ {
        Some("ERROR"@)
    } else {
        None
    }
}

/// The severity constant of a span: that of the level asked for, `INFO`
/// where none is asked for or the level is not valid.
pub open spec fn span_level(level: Option<Seq<char>>) -> Seq<char> {
    match level {
        Some(l) => match level_constant(l) {
            Some(c) => c,
            None => "INFO"@,
        },
        None => "INFO"@,
    }
}

/// The severity constant of a return event: that of the level given in
/// `ret(…)`, the span's where none is given or the level is not valid.
pub open spec fn event_level(ret: RetArgsView, span: Seq<char>) -> Seq<char> {
    match ret.custom_level() {
        Some(l) => match level_constant(l) {
            Some(c) => c,
            None => span,
        },
        None => span,
    }
}

/// The mark that selects how a returned value is rendered.
pub open spec fn format_mark(mode: FormatMode) -> char {
    match mode {
        FormatMode::Debug => '?',
        FormatMode::Display => '%',
    }
}

/// The two marks of a path separator.
pub open spec fn path_sep() -> Seq<TokenView> {
    seq![TokenView::Punct(':', true), TokenView::Punct(':', false)]
}

/// The path of a severity constant: `tracing::Level::` and its name.
pub open spec fn level_path(constant: Seq<char>) -> Seq<TokenView> {
    seq![kw("tracing"@)] + path_sep() + seq![kw("Level"@)] + path_sep() + seq![kw(constant)]
}

/// A call of the macro `tracing::name!` with the arguments `inner`.
pub open spec fn tracing_macro(name: Seq<char>, inner: Seq<TokenView>) -> Seq<TokenView> {
    seq![kw("tracing"@)] + path_sep() + seq![
        kw(name),
        TokenView::Punct('!', false),
        TokenView::Group(Delimiter::Parenthesis, inner),
    ]
}

/// `target: "…",` where a target is asked for.
pub open spec fn target_part(target: Option<TokenView>) -> Seq<TokenView> {
    match target {
        Some(lit) => seq![
            kw("target"@),
            TokenView::Punct(':', false),
            lit,
            TokenView::Punct(',', false),
        ],
        None => Seq::empty(),
    }
}

/// `parent: …,` where a parent is asked for.
pub open spec fn parent_part(parent: Option<Seq<TokenView>>) -> Seq<TokenView> {
    match parent {
        Some(p) => seq![kw("parent"@), TokenView::Punct(':', false)] + p + seq![
            TokenView::Punct(',', false),
        ],
        None => Seq::empty(),
    }
}

/// The arguments of the span: target, parent, severity, name and fields.
pub open spec fn span_arguments(
    args: InstrumentArgsView,
    name: TokenView,
    target: Option<TokenView>,
    fields: Seq<TokenView>,
) -> Seq<TokenView> {
    target_part(target) + parent_part(args.parent) + level_path(span_level(args.level)) + seq![
        TokenView::Punct(',', false),
        name,
    ] + fields
}

/// The statement that creates the span.
pub open spec fn span_statement(
    args: InstrumentArgsView,
    name: TokenView,
    target: Option<TokenView>,
    fields: Seq<TokenView>,
) -> Seq<TokenView> {
    seq![kw("let"@), kw("__tracing_attr_span"@), TokenView::Punct('=', false)] + tracing_macro(
        "span"@,
        span_arguments(args, name, target, fields),
    ) + seq![TokenView::Punct(';', false)]
}

/// The statement that enters the span and holds it to the end of the body.
pub open spec fn guard_statement() -> Seq<TokenView> {
    seq![
        kw("let"@),
        kw("__tracing_attr_guard"@),
        TokenView::Punct('=', false),
        kw("__tracing_attr_span"@),
        TokenView::Punct('.', false),
        kw("enter"@),
        TokenView::Group(Delimiter::Parenthesis, Seq::empty()),
        TokenView::Punct(';', false),
    ]
}

/// The arguments of the return event: severity and the rendered value.
pub open spec fn event_arguments(ret: RetArgsView, span: Seq<char>) -> Seq<TokenView> {
    level_path(event_level(ret, span)) + seq![
        TokenView::Punct(',', false),
        kw("return_value"@),
        TokenView::Punct('=', false),
        TokenView::Punct(format_mark(ret.format_mode()), false),
        kw("__tracing_attr_ret"@),
    ]
}

/// The body of the function where no return event is asked for. Otherwise the
/// body wrapped in a closure that is called at once, the event with the
/// value that it gave, and that value as the result.
pub open spec fn body_handling(
    ret: Option<RetArgsView>,
    span: Seq<char>,
    body: Seq<TokenView>,
) -> Seq<TokenView> {
    match ret {
        None => body,
        Some(r) => seq![
            kw("let"@),
            kw("__tracing_attr_ret"@),
            TokenView::Punct('=', false),
            TokenView::Group(
                Delimiter::Parenthesis,
                seq![TokenView::Punct('|', true), TokenView::Punct('|', false)] + body,
            ),
            TokenView::Group(Delimiter::Parenthesis, Seq::empty()),
            TokenView::Punct(';', false),
        ] + tracing_macro("event"@, event_arguments(r, span)) + seq![
            TokenView::Punct(';', false),
            kw("__tracing_attr_ret"@),
        ],
    }
}

/// The new body: the span, its guard, and the body that the function had.
pub open spec fn new_body(
    args: InstrumentArgsView,
    func: SimpleFunctionView,
    name: TokenView,
    target: Option<TokenView>,
) -> Seq<TokenView> {
    span_statement(args, name, target, param_fields(func.params)) + guard_statement()
        + body_handling(args.ret_args, span_level(args.level), func.body)
}

/// The function `func` with the header it had and the new body, and behind
/// it what stood behind it, given the literals that hold the span's name and
/// target.
pub open spec fn assembled(
    args: InstrumentArgsView,
    func: SimpleFunctionView,
    name: TokenView,
    target: Option<TokenView>,
) -> Seq<TokenView> {
    func.header_tokens() + seq![
        TokenView::Group(Delimiter::Brace, new_body(args, func, name, target)),
    ] + func.rest
}

/// The name of the span: the one asked for, else the function's own.
pub open spec fn span_name(args: InstrumentArgsView, func: SimpleFunctionView) -> Seq<char> {
    match args.name {
        Some(n) => n,
        None => func.fn_name,
    }
}

/// The literal that holds the target, where one is asked for.
pub open spec fn target_literal(args: InstrumentArgsView) -> Option<TokenView> {
    match args.target {
        Some(t) => Some(TokenView::Literal(literal_text(t))),
        None => None,
    }
}

/// The instrumented function.
pub open spec fn instrumented(args: InstrumentArgsView, func: SimpleFunctionView) -> Seq<
    TokenView,
> {
    assembled(
        args,
        func,
        TokenView::Literal(literal_text(span_name(args, func))),
        target_literal(args),
    )
}

/// The name of the severity constant for a level, if the level is valid.
fn level_constant_of(level: &String) -> (r: Option<String>)
    ensures
        opt_text(r) == level_constant(level@),
{
    if text_is(level, "trace") {
        Some(String::from_str("TRACE"))
    } else if text_is(level, "debug") {
        Some(String::from_str("DEBUG"))
    } else if text_is(level, "info") {
        Some(String::from_str("INFO"))
    } else if text_is(level, "warn") {
        Some(String::from_str("WARN"))
    } else if text_is(level, "error") {
        Some(String::from_str("ERROR"))
    } else {
        None
    }
}

/// The severity constant of a span.
fn span_level_of(level: &Option<String>) -> (r: String)
    ensures
        r@ == span_level(opt_text(*level)),
{
    match level {
        Some(l) => match level_constant_of(l) {
            Some(c) => c,
            None => String::from_str("INFO"),
        },
        None => String::from_str("INFO"),
    }
}

/// The severity constant of a return event.
fn event_level_of(ret: &RetArgs, span: &String) -> (r: String)
    ensures
        r@ == event_level(ret@, span@),
{
    match ret.custom_level() {
        Some(l) => match level_constant_of(&l.value) {
            Some(c) => c,
            None => span.clone(),
        },
        None => span.clone(),
    }
}

/// Appends the two marks of a path separator.
fn push_path_sep(out: &mut Vec<Token>)
    ensures
        view_tokens(final(out)@) == view_tokens(old(out)@) + path_sep(),
{
    push_punct(out, ':', true);
    push_punct(out, ':', false);
    assert(view_tokens(out@) =~= view_tokens(old(out)@) + path_sep());
}

/// Appends the path of a severity constant.
fn push_level_path(out: &mut Vec<Token>, constant: &String)
    ensures
        view_tokens(final(out)@) == view_tokens(old(out)@) + level_path(constant@),
{
    push_ident(out, "tracing");
    push_path_sep(out);
    push_ident(out, "Level");
    push_path_sep(out);
    push_name(out, constant);
    assert(view_tokens(out@) =~= view_tokens(old(out)@) + level_path(constant@));
}

/// Appends a call of the macro `tracing::name!` with the arguments `inner`.
fn push_tracing_macro(out: &mut Vec<Token>, name: &str, inner: Vec<Token>)
    ensures
        view_tokens(final(out)@) == view_tokens(old(out)@) + tracing_macro(
            name@,
            view_tokens(inner@),
        ),
{
    push_ident(out, "tracing");
    push_path_sep(out);
    push_ident(out, name);
    push_punct(out, '!', false);
    push_group(out, Delimiter::Parenthesis, inner);
    assert(view_tokens(out@) =~= view_tokens(old(out)@) + tracing_macro(
        name@,
        view_tokens(inner@),
    ));
}

/// The view of an optional token.
pub open spec fn opt_token(o: Option<Token>) -> Option<TokenView> {
    match o {
        Some(t) => Some(t@),
        None => None,
    }
}

/// Builds the arguments of the span.
#[verifier::rlimit(50)]
fn build_span_arguments(
    args: &InstrumentArgs,
    name: Token,
    target: Option<Token>,
    fields: &Vec<Token>,
) -> (r: Vec<Token>)
    ensures
        view_tokens(r@) == span_arguments(args@, name@, opt_token(target), view_tokens(fields@)),
{
    let mut out: Vec<Token> = Vec::new();
    assert(view_tokens(out@) =~= Seq::empty());
    match target {
        Some(lit) => {
            push_ident(&mut out, "target");
            push_punct(&mut out, ':', false);
            proof {
                lemma_view_tokens_push(out@, lit);
            }
            out.push(lit);
            push_punct(&mut out, ',', false);
            assert(view_tokens(out@) =~= target_part(Some(lit@)));
        },
        None => {},
    }
    let ghost a = view_tokens(out@);
    match &args.parent {
        Some(p) => {
            push_ident(&mut out, "parent");
            push_punct(&mut out, ':', false);
            extend_tokens(&mut out, p);
            push_punct(&mut out, ',', false);
            assert(view_tokens(out@) =~= a + parent_part(args@.parent));
        },
        None => {
            assert(view_tokens(out@) =~= a + parent_part(args@.parent));
        },
    }
    let constant = span_level_of(&args.level);
    push_level_path(&mut out, &constant);
    push_punct(&mut out, ',', false);
    proof {
        lemma_view_tokens_push(out@, name);
    }
    out.push(name);
    extend_tokens(&mut out, fields);
    assert(view_tokens(out@) =~= span_arguments(
        args@,
        name@,
        opt_token(target),
        view_tokens(fields@),
    ));
    out
}

/// Appends the statement that creates the span.
fn push_span_statement(
    out: &mut Vec<Token>,
    args: &InstrumentArgs,
    name: Token,
    target: Option<Token>,
    fields: &Vec<Token>,
)
    ensures
        view_tokens(final(out)@) == view_tokens(old(out)@) + span_statement(
            args@,
            name@,
            opt_token(target),
            view_tokens(fields@),
        ),
{
    push_ident(out, "let");
    push_ident(out, "__tracing_attr_span");
    push_punct(out, '=', false);
    let inner = build_span_arguments(args, name, target, fields);
    push_tracing_macro(out, "span", inner);
    push_punct(out, ';', false);
    assert(view_tokens(out@) =~= view_tokens(old(out)@) + span_statement(
        args@,
        name@,
        opt_token(target),
        view_tokens(fields@),
    ));
}

/// Appends the statement that enters the span.
fn push_guard_statement(out: &mut Vec<Token>)
    ensures
        view_tokens(final(out)@) == view_tokens(old(out)@) + guard_statement(),
{
    push_ident(out, "let");
    push_ident(out, "__tracing_attr_guard");
    push_punct(out, '=', false);
    push_ident(out, "__tracing_attr_span");
    push_punct(out, '.', false);
    push_ident(out, "enter");
    let empty: Vec<Token> = Vec::new();
    assert(view_tokens(empty@) =~= Seq::empty());
    push_group(out, Delimiter::Parenthesis, empty);
    push_punct(out, ';', false);
    assert(view_tokens(out@) =~= view_tokens(old(out)@) + guard_statement());
}

/// Builds the arguments of the return event.
fn build_event_arguments(ret: &RetArgs, span: &String) -> (r: Vec<Token>)
    ensures
        view_tokens(r@) == event_arguments(ret@, span@),
{
    let mut out: Vec<Token> = Vec::new();
    assert(view_tokens(out@) =~= Seq::empty());
    let constant = event_level_of(ret, span);
    push_level_path(&mut out, &constant);
    push_punct(&mut out, ',', false);
    push_ident(&mut out, "return_value");
    push_punct(&mut out, '=', false);
    let mark = match ret.format_mode() {
        FormatMode::Debug => '?',
        FormatMode::Display => '%',
    };
    push_punct(&mut out, mark, false);
    push_ident(&mut out, "__tracing_attr_ret");
    assert(view_tokens(out@) =~= event_arguments(ret@, span@));
    out
}

/// Appends the body that the function had, wrapped where a return event is asked for.
#[verifier::rlimit(50)]
fn push_body_handling(
    out: &mut Vec<Token>,
    ret: &Option<RetArgs>,
    span: &String,
    body: &Vec<Token>,
)
    ensures
        view_tokens(final(out)@) == view_tokens(old(out)@) + body_handling(
            match *ret {
                Some(r) => Some(r@),
                None => None,
            },
            span@,
            view_tokens(body@),
        ),
{
    match ret {
        None => {
            extend_tokens(out, body);
        },
        Some(r) => {
            push_ident(out, "let");
            push_ident(out, "__tracing_attr_ret");
            push_punct(out, '=', false);
            let mut closure: Vec<Token> = Vec::new();
            push_punct(&mut closure, '|', true);
            push_punct(&mut closure, '|', false);
            extend_tokens(&mut closure, body);
            assert(view_tokens(closure@) =~= seq![
                TokenView::Punct('|', true),
                TokenView::Punct('|', false),
            ] + view_tokens(body@));
            push_group(out, Delimiter::Parenthesis, closure);
            let empty: Vec<Token> = Vec::new();
            assert(view_tokens(empty@) =~= Seq::empty());
            push_group(out, Delimiter::Parenthesis, empty);
            push_punct(out, ';', false);
            let inner = build_event_arguments(r, span);
            push_tracing_macro(out, "event", inner);
            push_punct(out, ';', false);
            push_ident(out, "__tracing_attr_ret");
            assert(view_tokens(out@) =~= view_tokens(old(out)@) + body_handling(
                Some(r@),
                span@,
                view_tokens(body@),
            ));
        },
    }
}

/// Appends an optional piece.
fn push_piece(out: &mut Vec<Token>, p: &Option<Vec<Token>>)
    ensures
        view_tokens(final(out)@) == view_tokens(old(out)@) + piece(opt_tokens(*p)),
{
    match p {
        Some(t) => extend_tokens(out, t),
        None => {
            assert(view_tokens(out@) + Seq::empty() =~= view_tokens(out@));
        },
    }
}

/// Writes everything of a function but its body.
#[verifier::rlimit(50)]
fn build_header(func: &SimpleFunction) -> (out: Vec<Token>)
    ensures
        view_tokens(out@) == func@.header_tokens(),
{
    let ghost parts = func@.attrs;
    let mut out: Vec<Token> = Vec::new();
    let mut i: usize = 0;
    assert(view_tokens(out@) =~= concat(parts.take(0)));
    while i < func.attrs.len()
        invariant
            i <= func.attrs.len(),
            parts == view_pieces(func.attrs@),
            view_tokens(out@) == concat(parts.take(i as int)),
        decreases func.attrs.len() - i,
    {
        extend_tokens(&mut out, &func.attrs[i]);
        proof {
            assert(parts.take(i + 1) =~= parts.take(i as int).push(parts[i as int]));
            lemma_concat_push(parts.take(i as int), parts[i as int]);
        }
        i += 1;
    }
    assert(parts.take(func.attrs.len() as int) =~= parts);
    push_piece(&mut out, &func.vis);
    push_piece(&mut out, &func.const_kw);
    push_piece(&mut out, &func.async_kw);
    push_piece(&mut out, &func.unsafe_kw);
    push_piece(&mut out, &func.extern_kw);
    let ghost before = view_tokens(out@);
    push_ident(&mut out, "fn");
    push_name(&mut out, &func.fn_name);
    assert(view_tokens(out@) =~= before + seq![kw("fn"@), kw(func.fn_name@)]);
    push_piece(&mut out, &func.generics);
    extend_tokens(&mut out, &func.params);
    push_piece(&mut out, &func.ret_type);
    push_piece(&mut out, &func.where_clause);
    out
}

/// Writes the function `func` with the header it had and a body that
/// creates the span, enters it and then runs the body that the function had, given the
/// literals that hold the span's name and target.
#[verifier::rlimit(50)]
pub fn assemble_function(
    args: &InstrumentArgs,
    func: &SimpleFunction,
    name: Token,
    target: Option<Token>,
) -> (r: Vec<Token>)
    ensures
        view_tokens(r@) == assembled(args@, func@, name@, opt_token(target)),
{
    let fields = extract_param_fields(&func.params);
    let span = span_level_of(&args.level);
    let mut body: Vec<Token> = Vec::new();
    assert(view_tokens(body@) =~= Seq::empty());
    push_span_statement(&mut body, args, name, target, &fields);
    push_guard_statement(&mut body);
    push_body_handling(&mut body, &args.ret_args, &span, &func.body);
    assert(view_tokens(body@) =~= new_body(args@, func@, name@, opt_token(target)));
    let mut out = build_header(func);
    let ghost header = view_tokens(out@);
    push_group(&mut out, Delimiter::Brace, body);
    assert(view_tokens(out@) =~= header + seq![
        TokenView::Group(Delimiter::Brace, new_body(args@, func@, name@, opt_token(target))),
    ]);
    extend_tokens(&mut out, &func.rest);
    out
}

/// Writes the instrumented function: the header unchanged, and a body that
/// creates a span with the name, severity, target, parent and fields that
/// the request and the parameters give, enters it, and runs the body that
/// the function had, with a return event where the request asks for one.
pub fn generate_instrumented_function(args: InstrumentArgs, func: SimpleFunction) -> (r: Vec<Token>)
    ensures
        view_tokens(r@) == instrumented(args@, func@),
{
    let name = match &args.name {
        Some(n) => Token::Literal(string_literal(n.as_str())),
        None => Token::Literal(string_literal(func.fn_name.as_str())),
    };
    let target = match &args.target {
        Some(t) => Some(Token::Literal(string_literal(t.as_str()))),
        None => None,
    };
    assemble_function(&args, &func, name, target)
}

/// The tokens that make the compiler fail with the message of `e`.
pub open spec fn failure(e: InstrumentError) -> Seq<TokenView> {
    seq![
        kw("compile_error"@),
        TokenView::Punct('!', false),
        TokenView::Group(
            Delimiter::Parenthesis,
            seq![TokenView::Literal(literal_text(e.text()))],
        ),
    ]
}

/// Writes the tokens that make the compiler fail with the message that
/// the literal `message` holds.
pub fn compile_error_tokens(message: Token) -> (r: Vec<Token>)
    ensures
        view_tokens(r@) == seq![
            kw("compile_error"@),
            TokenView::Punct('!', false),
            TokenView::Group(Delimiter::Parenthesis, seq![message@]),
        ],
{
    let mut inner: Vec<Token> = Vec::new();
    proof {
        lemma_view_tokens_push(inner@, message);
    }
    inner.push(message);
    assert(view_tokens(inner@) =~= seq![message@]);
    let mut out: Vec<Token> = Vec::new();
    push_ident(&mut out, "compile_error");
    push_punct(&mut out, '!', false);
    push_group(&mut out, Delimiter::Parenthesis, inner);
    assert(view_tokens(out@) =~= seq![
        kw("compile_error"@),
        TokenView::Punct('!', false),
        TokenView::Group(Delimiter::Parenthesis, seq![message@]),
    ]);
    out
}

/// Writes the tokens that make the compiler fail with the message of `e`.
pub fn failure_tokens(e: InstrumentError) -> (r: Vec<Token>)
    ensures
        view_tokens(r@) == failure(e),
{
    let message = e.message();
    compile_error_tokens(Token::Literal(string_literal(message.as_str())))
}

/// What instrumenting `item` on the request `args` gives: the instrumented
/// function with what stood behind it in `item`, or the failure for the
/// first thing that is wrong, the request before the item.
pub open spec fn instrument(args: Seq<TokenView>, item: Seq<TokenView>) -> Result<
    Seq<TokenView>,
    Seq<TokenView>,
> {
    match request(args) {
        Err(e) => Err(failure(e)),
        Ok(a) => match simple_function(item) {
            Err(e) => Err(failure(e)),
            Ok(f) => Ok(instrumented(a, f)),
        },
    }
}

/// Instruments the function that `item` begins with as `args` asks.
///
/// Returns the instrumented function exactly when `args` is a request that
/// is not refused and `item` begins with a function that has a body; tokens
/// behind the body stay behind it as they are. In every other case it
/// returns, as the error, tokens that make the compiler fail with a
/// message.
pub fn instrument_impl(args: Vec<Token>, item: Vec<Token>) -> (r: Result<Vec<Token>, Vec<Token>>)
    ensures
        match r {
            Ok(t) => Ok(view_tokens(t@)),
            Err(t) => Err(view_tokens(t@)),
        } == instrument(view_tokens(args@), view_tokens(item@)),
{
    let instrument_args = match parse_instrument_args(&args) {
        Ok(a) => a,
        Err(e) => {
            return Err(failure_tokens(e));
        },
    };
    let func = match parse_simple_function(&item) {
        Ok(f) => f,
        Err(e) => {
            return Err(failure_tokens(e));
        },
    };
    Ok(generate_instrumented_function(instrument_args, func))
}

} // verus!
