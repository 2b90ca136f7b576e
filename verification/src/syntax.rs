//! The parsed shapes: function signatures, parameters, patterns and the
//! containers that hold functions. Each shape has a mathematical view, and
//! each view says which tokens it stands for.

use crate::token::{
    clone_tokens, extend_tokens, lemma_view_tokens_push, view_tokens, Delimiter, Token, TokenView,
};
use vstd::string::StringExecFns;
use vstd::prelude::*;

verus! {

/// The view of each element of a sequence, in order.
pub open spec fn views<T: View>(s: Seq<T>) -> Seq<T::V> {
    Seq::new(s.len(), |i: int| s[i]@)
}

/// The view of what an option holds.
pub open spec fn opt_view<T: View>(o: Option<T>) -> Option<T::V> {
    match o {
        Some(t) => Some(t@),
        None => None,
    }
}

/// The sequences of `parts`, one after another.
pub open spec fn concat(parts: Seq<Seq<TokenView>>) -> Seq<TokenView>
    decreases parts.len(),
{
    if parts.len() == 0 {
        Seq::empty()
    } else {
        concat(parts.drop_last()) + parts.last()
    }
}

/// The identifier token with the given text.
pub open spec fn kw(text: Seq<char>) -> TokenView {
    TokenView::Ident(text)
}

/// The keyword `text` where `present`, nothing otherwise.
pub open spec fn flag_tokens(present: bool, text: Seq<char>) -> Seq<TokenView> {
    if present {
        seq![kw(text)]
    } else {
        Seq::empty()
    }
}

/// The comma that followed a list element, if there was one.
pub open spec fn comma_tokens(comma: Option<bool>) -> Seq<TokenView> {
    match comma {
        Some(joint) => seq![TokenView::Punct(',', joint)],
        None => Seq::empty(),
    }
}

/// An attribute: `#` and a bracket group.
#[derive(Debug)]
pub struct Attribute {
    /// The joint flag of the `#`.
    pub joint: bool,
    /// The tokens inside the brackets.
    pub content: Vec<Token>,
}

pub ghost struct AttributeView {
    pub joint: bool,
    pub content: Seq<TokenView>,
}

impl View for Attribute {
    type V = AttributeView;

    open spec fn view(&self) -> AttributeView {
        AttributeView { joint: self.joint, content: view_tokens(self.content@) }
    }
}

impl AttributeView {
    pub open spec fn tokens(self) -> Seq<TokenView> {
        seq![TokenView::Punct('#', self.joint), TokenView::Group(Delimiter::Bracket, self.content)]
    }
}

/// The tokens of a run of attributes.
pub open spec fn attributes_tokens(attrs: Seq<AttributeView>) -> Seq<TokenView> {
    concat(attrs.map_values(|a: AttributeView| a.tokens()))
}

/// A visibility qualifier.
#[derive(Debug)]
pub enum Visibility {
    /// `pub` with a parenthesised restriction; the tokens inside it.
    Restricted(Vec<Token>),
    /// Just `pub`.
    Public,
}

pub ghost enum VisibilityView {
    Restricted(Seq<TokenView>),
    Public,
}

impl View for Visibility {
    type V = VisibilityView;

    open spec fn view(&self) -> VisibilityView {
        match self {
            Visibility::Restricted(inner) => VisibilityView::Restricted(view_tokens(inner@)),
            Visibility::Public => VisibilityView::Public,
        }
    }
}

impl VisibilityView {
    pub open spec fn tokens(self) -> Seq<TokenView> {
        match self {
            VisibilityView::Restricted(inner) => seq![
                kw("pub"@),
                TokenView::Group(Delimiter::Parenthesis, inner),
            ],
            VisibilityView::Public => seq![kw("pub"@)],
        }
    }
}

/// The tokens of an optional visibility.
pub open spec fn visibility_tokens(v: Option<VisibilityView>) -> Seq<TokenView> {
    match v {
        Some(v) => v.tokens(),
        None => Seq::empty(),
    }
}

/// A foreign-linkage marker.
#[derive(Debug)]
pub enum ExternSpec {
    /// `extern` with an ABI; the source text of the string literal.
    WithAbi(String),
    /// Just `extern`.
    Bare,
}

pub ghost enum ExternSpecView {
    WithAbi(Seq<char>),
    Bare,
}

impl View for ExternSpec {
    type V = ExternSpecView;

    open spec fn view(&self) -> ExternSpecView {
        match self {
            ExternSpec::WithAbi(abi) => ExternSpecView::WithAbi(abi@),
            ExternSpec::Bare => ExternSpecView::Bare,
        }
    }
}

impl ExternSpecView {
    pub open spec fn tokens(self) -> Seq<TokenView> {
        match self {
            ExternSpecView::WithAbi(abi) => seq![kw("extern"@), TokenView::Literal(abi)],
            ExternSpecView::Bare => seq![kw("extern"@)],
        }
    }
}

/// The tokens of an optional foreign-linkage marker.
pub open spec fn extern_tokens(e: Option<ExternSpecView>) -> Seq<TokenView> {
    match e {
        Some(e) => e.tokens(),
        None => Seq::empty(),
    }
}

/// Generic parameters: `<`, what stands between, and the matching `>`.
#[derive(Debug)]
pub struct Generics {
    /// The joint flag of the `<`.
    pub lt_joint: bool,
    /// The tokens between the angle brackets, not parsed further.
    pub content: Vec<Token>,
    /// The joint flag of the `>`.
    pub gt_joint: bool,
}

pub ghost struct GenericsView {
    pub lt_joint: bool,
    pub content: Seq<TokenView>,
    pub gt_joint: bool,
}

impl View for Generics {
    type V = GenericsView;

    open spec fn view(&self) -> GenericsView {
        GenericsView {
            lt_joint: self.lt_joint,
            content: view_tokens(self.content@),
            gt_joint: self.gt_joint,
        }
    }
}

impl GenericsView {
    pub open spec fn tokens(self) -> Seq<TokenView> {
        seq![TokenView::Punct('<', self.lt_joint)] + self.content + seq![
            TokenView::Punct('>', self.gt_joint),
        ]
    }
}

/// The tokens of optional generics.
pub open spec fn generics_tokens(g: Option<GenericsView>) -> Seq<TokenView> {
    match g {
        Some(g) => g.tokens(),
        None => Seq::empty(),
    }
}

/// A return type: `->` and the type.
#[derive(Debug)]
pub struct ReturnType {
    /// The joint flag of the `>` of the arrow.
    pub gt_joint: bool,
    /// The tokens of the type, not parsed further.
    pub return_type: Vec<Token>,
}

pub ghost struct ReturnTypeView {
    pub gt_joint: bool,
    pub return_type: Seq<TokenView>,
}

impl View for ReturnType {
    type V = ReturnTypeView;

    open spec fn view(&self) -> ReturnTypeView {
        ReturnTypeView { gt_joint: self.gt_joint, return_type: view_tokens(self.return_type@) }
    }
}

impl ReturnTypeView {
    pub open spec fn tokens(self) -> Seq<TokenView> {
        seq![TokenView::Punct('-', true), TokenView::Punct('>', self.gt_joint)] + self.return_type
    }
}

/// The tokens of an optional return type.
pub open spec fn return_tokens(r: Option<ReturnTypeView>) -> Seq<TokenView> {
    match r {
        Some(r) => r.tokens(),
        None => Seq::empty(),
    }
}

/// One predicate of a `where` clause: a subject, `:` and its bounds.
#[derive(Debug)]
pub struct WhereClausePredicate {
    /// The tokens of what is constrained.
    pub pred: Vec<Token>,
    /// The joint flag of the `:`.
    pub colon_joint: bool,
    /// The tokens of the bounds.
    pub bounds: Vec<Token>,
    /// The joint flag of the comma behind the predicate, if there is one.
    pub comma: Option<bool>,
}

pub ghost struct WhereClausePredicateView {
    pub pred: Seq<TokenView>,
    pub colon_joint: bool,
    pub bounds: Seq<TokenView>,
    pub comma: Option<bool>,
}

impl View for WhereClausePredicate {
    type V = WhereClausePredicateView;

    open spec fn view(&self) -> WhereClausePredicateView {
        WhereClausePredicateView {
            pred: view_tokens(self.pred@),
            colon_joint: self.colon_joint,
            bounds: view_tokens(self.bounds@),
            comma: self.comma,
        }
    }
}

impl WhereClausePredicateView {
    pub open spec fn tokens(self) -> Seq<TokenView> {
        self.pred + seq![TokenView::Punct(':', self.colon_joint)] + self.bounds + comma_tokens(
            self.comma,
        )
    }
}

/// A `where` clause: the keyword and its predicates.
#[derive(Debug)]
pub struct WhereClauses {
    pub clauses: Vec<WhereClausePredicate>,
}

pub ghost struct WhereClausesView {
    pub clauses: Seq<WhereClausePredicateView>,
}

impl View for WhereClauses {
    type V = WhereClausesView;

    open spec fn view(&self) -> WhereClausesView {
        WhereClausesView { clauses: views(self.clauses@) }
    }
}

impl WhereClausesView {
    pub open spec fn tokens(self) -> Seq<TokenView> {
        seq![kw("where"@)] + concat(
            self.clauses.map_values(|c: WhereClausePredicateView| c.tokens()),
        )
    }
}

/// The tokens of an optional `where` clause.
pub open spec fn where_tokens(w: Option<WhereClausesView>) -> Seq<TokenView> {
    match w {
        Some(w) => w.tokens(),
        None => Seq::empty(),
    }
}

/// A receiver; a flag is the joint flag of the `&`.
#[derive(Clone, Copy, Debug, PartialEq, Eq, Structural)]
pub enum SelfParam {
    /// `self`
    Value,
    /// `&self`
    Ref(bool),
    /// `&mut self`
    RefMut(bool),
    /// `mut self`
    Mut,
}

impl SelfParam {
    pub open spec fn tokens(self) -> Seq<TokenView> {
        match self {
            SelfParam::Value => seq![kw("self"@)],
            SelfParam::Ref(j) => seq![TokenView::Punct('&', j), kw("self"@)],
            SelfParam::RefMut(j) => seq![TokenView::Punct('&', j), kw("mut"@), kw("self"@)],
            SelfParam::Mut => seq![kw("mut"@), kw("self"@)],
        }
    }
}

/// A parameter with a name and a type.
#[derive(Debug)]
pub struct NamedParam {
    /// Whether `mut` stands before the name.
    pub mut_kw: bool,
    pub name: String,
    /// The joint flag of the `:`.
    pub colon_joint: bool,
    /// The tokens of the type, not parsed further.
    pub param_type: Vec<Token>,
}

pub ghost struct NamedParamView {
    pub mut_kw: bool,
    pub name: Seq<char>,
    pub colon_joint: bool,
    pub param_type: Seq<TokenView>,
}

impl View for NamedParam {
    type V = NamedParamView;

    open spec fn view(&self) -> NamedParamView {
        NamedParamView {
            mut_kw: self.mut_kw,
            name: self.name@,
            colon_joint: self.colon_joint,
            param_type: view_tokens(self.param_type@),
        }
    }
}

impl NamedParamView {
    pub open spec fn tokens(self) -> Seq<TokenView> {
        flag_tokens(self.mut_kw, "mut"@) + seq![
            kw(self.name),
            TokenView::Punct(':', self.colon_joint),
        ] + self.param_type
    }
}

/// A pattern in parameter position.
#[derive(Debug)]
pub enum Pattern {
    /// A single name.
    Ident(String),
    /// A parenthesised, comma-separated list of patterns.
    Tuple(Vec<PatternField>),
    /// Anything else, kept as tokens.
    Other(Vec<Token>),
}

/// One element of a tuple pattern.
#[derive(Debug)]
pub struct PatternField {
    pub pattern: Pattern,
    /// The joint flag of the comma behind the element, if there is one.
    pub comma: Option<bool>,
}

pub ghost enum PatternView {
    Ident(Seq<char>),
    Tuple(Seq<PatternFieldView>),
    Other(Seq<TokenView>),
}

pub ghost struct PatternFieldView {
    pub pattern: PatternView,
    pub comma: Option<bool>,
}

/// The value of a pattern.
pub open spec fn view_pattern(p: Pattern) -> PatternView
    decreases p,
{
    match p {
        Pattern::Ident(name) => PatternView::Ident(name@),
        Pattern::Tuple(fields) => PatternView::Tuple(view_fields(fields@)),
        Pattern::Other(tokens) => PatternView::Other(view_tokens(tokens@)),
    }
}

/// The value of each element of a tuple pattern.
pub open spec fn view_fields(fields: Seq<PatternField>) -> Seq<PatternFieldView>
    decreases fields,
{
    Seq::new(
        fields.len(),
        |i: int|
            if 0 <= i < fields.len() {
                PatternFieldView {
                    pattern: view_pattern(fields[i].pattern),
                    comma: fields[i].comma,
                }
            } else {
                PatternFieldView { pattern: PatternView::Other(Seq::empty()), comma: None }
            },
    )
}

impl View for Pattern {
    type V = PatternView;

    open spec fn view(&self) -> PatternView {
        view_pattern(*self)
    }
}

impl View for PatternField {
    type V = PatternFieldView;

    open spec fn view(&self) -> PatternFieldView {
        PatternFieldView { pattern: view_pattern(self.pattern), comma: self.comma }
    }
}

/// The tokens that a pattern stands for.
pub open spec fn pattern_tokens(p: PatternView) -> Seq<TokenView>
    decreases p, 0int,
{
    match p {
        PatternView::Ident(name) => seq![kw(name)],
        PatternView::Tuple(fields) => seq![
            TokenView::Group(Delimiter::Parenthesis, fields_tokens(fields)),
        ],
        PatternView::Other(tokens) => tokens,
    }
}

/// The tokens inside the parentheses of a tuple pattern.
pub open spec fn fields_tokens(fields: Seq<PatternFieldView>) -> Seq<TokenView>
    decreases fields, 1int,
{
    concat(field_parts(fields))
}

/// The tokens of each element of a tuple pattern, with the comma behind it.
pub open spec fn field_parts(fields: Seq<PatternFieldView>) -> Seq<Seq<TokenView>>
    decreases fields, 0int,
{
    Seq::new(
        fields.len(),
        |i: int|
            if 0 <= i < fields.len() {
                pattern_tokens(fields[i].pattern) + comma_tokens(fields[i].comma)
            } else {
                Seq::empty()
            },
    )
}

/// The names that a pattern binds and that can be captured: the name of an
/// identifier pattern, and the names of the elements of a tuple pattern, in
/// order, at any depth. Other patterns give none.
pub open spec fn pattern_names(p: PatternView) -> Seq<Seq<char>>
    decreases p,
{
    match p {
        PatternView::Ident(name) => seq![name],
        PatternView::Tuple(fields) => fields_names(fields, fields.len() as int),
        PatternView::Other(_) => Seq::empty(),
    }
}

/// The names bound by the first `n` elements of a tuple pattern.
pub open spec fn fields_names(fields: Seq<PatternFieldView>, n: int) -> Seq<Seq<char>>
    decreases fields, n,
{
    if n <= 0 || n > fields.len() {
        Seq::empty()
    } else {
        fields_names(fields, n - 1) + pattern_names(fields[n - 1].pattern)
    }
}

/// A parameter that is a pattern with a type.
#[derive(Debug)]
pub struct PatternParam {
    /// Whether `mut` stands before the pattern.
    pub mut_kw: bool,
    pub pattern: Pattern,
    /// The joint flag of the `:`.
    pub colon_joint: bool,
    /// The tokens of the type, not parsed further.
    pub param_type: Vec<Token>,
}

pub ghost struct PatternParamView {
    pub mut_kw: bool,
    pub pattern: PatternView,
    pub colon_joint: bool,
    pub param_type: Seq<TokenView>,
}

impl View for PatternParam {
    type V = PatternParamView;

    open spec fn view(&self) -> PatternParamView {
        PatternParamView {
            mut_kw: self.mut_kw,
            pattern: self.pattern@,
            colon_joint: self.colon_joint,
            param_type: view_tokens(self.param_type@),
        }
    }
}

impl PatternParamView {
    pub open spec fn tokens(self) -> Seq<TokenView> {
        flag_tokens(self.mut_kw, "mut"@) + pattern_tokens(self.pattern) + seq![
            TokenView::Punct(':', self.colon_joint),
        ] + self.param_type
    }
}

/// One parameter of a function.
#[derive(Debug)]
pub enum FnParam {
    SelfParam(SelfParam),
    Named(NamedParam),
    Pattern(PatternParam),
}

pub ghost enum FnParamView {
    SelfParam(SelfParam),
    Named(NamedParamView),
    Pattern(PatternParamView),
}

impl View for FnParam {
    type V = FnParamView;

    open spec fn view(&self) -> FnParamView {
        match self {
            FnParam::SelfParam(s) => FnParamView::SelfParam(*s),
            FnParam::Named(n) => FnParamView::Named(n@),
            FnParam::Pattern(p) => FnParamView::Pattern(p@),
        }
    }
}

impl FnParamView {
    pub open spec fn tokens(self) -> Seq<TokenView> {
        match self {
            FnParamView::SelfParam(s) => s.tokens(),
            FnParamView::Named(n) => n.tokens(),
            FnParamView::Pattern(p) => p.tokens(),
        }
    }

    /// The names that this parameter contributes as span fields.
    pub open spec fn names(self) -> Seq<Seq<char>> {
        match self {
            FnParamView::SelfParam(_) => Seq::empty(),
            FnParamView::Named(n) => seq![n.name],
            FnParamView::Pattern(p) => pattern_names(p.pattern),
        }
    }
}

/// A parameter and the comma behind it.
#[derive(Debug)]
pub struct Param {
    pub value: FnParam,
    /// The joint flag of the comma behind the parameter, if there is one.
    pub comma: Option<bool>,
}

pub ghost struct ParamView {
    pub value: FnParamView,
    pub comma: Option<bool>,
}

impl View for Param {
    type V = ParamView;

    open spec fn view(&self) -> ParamView {
        ParamView { value: self.value@, comma: self.comma }
    }
}

impl ParamView {
    pub open spec fn tokens(self) -> Seq<TokenView> {
        self.value.tokens() + comma_tokens(self.comma)
    }
}

/// The tokens inside the parentheses of a parameter list.
pub open spec fn params_tokens(params: Seq<ParamView>) -> Seq<TokenView> {
    concat(params.map_values(|p: ParamView| p.tokens()))
}

/// The names that the first `n` parameters contribute as span fields, in
/// declared order.
pub open spec fn params_names(params: Seq<ParamView>, n: int) -> Seq<Seq<char>>
    decreases n,
{
    if n <= 0 || n > params.len() {
        Seq::empty()
    } else {
        params_names(params, n - 1) + params[n - 1].value.names()
    }
}

/// A function with a body.
#[derive(Debug)]
pub struct FnSig {
    pub attributes: Vec<Attribute>,
    pub visibility: Option<Visibility>,
    pub const_kw: bool,
    pub async_kw: bool,
    pub unsafe_kw: bool,
    pub extern_kw: Option<ExternSpec>,
    pub name: String,
    pub generics: Option<Generics>,
    pub params: Vec<Param>,
    pub return_type: Option<ReturnType>,
    pub where_clause: Option<WhereClauses>,
    /// The tokens inside the braces of the body.
    pub body: Vec<Token>,
}

pub ghost struct FnSigView {
    pub attributes: Seq<AttributeView>,
    pub visibility: Option<VisibilityView>,
    pub const_kw: bool,
    pub async_kw: bool,
    pub unsafe_kw: bool,
    pub extern_kw: Option<ExternSpecView>,
    pub name: Seq<char>,
    pub generics: Option<GenericsView>,
    pub params: Seq<ParamView>,
    pub return_type: Option<ReturnTypeView>,
    pub where_clause: Option<WhereClausesView>,
    pub body: Seq<TokenView>,
}

impl View for FnSig {
    type V = FnSigView;

    open spec fn view(&self) -> FnSigView {
        FnSigView {
            attributes: views(self.attributes@),
            visibility: opt_view(self.visibility),
            const_kw: self.const_kw,
            async_kw: self.async_kw,
            unsafe_kw: self.unsafe_kw,
            extern_kw: opt_view(self.extern_kw),
            name: self.name@,
            generics: opt_view(self.generics),
            params: views(self.params@),
            return_type: opt_view(self.return_type),
            where_clause: opt_view(self.where_clause),
            body: view_tokens(self.body@),
        }
    }
}

impl FnSigView {
    /// The qualifiers between the attributes and `fn`.
    pub open spec fn qualifier_tokens(self) -> Seq<TokenView> {
        visibility_tokens(self.visibility) + flag_tokens(self.const_kw, "const"@) + flag_tokens(
            self.async_kw,
            "async"@,
        ) + flag_tokens(self.unsafe_kw, "unsafe"@) + extern_tokens(self.extern_kw)
    }

    /// What stands between the name and the body.
    pub open spec fn signature_tokens(self) -> Seq<TokenView> {
        generics_tokens(self.generics) + seq![
            TokenView::Group(Delimiter::Parenthesis, params_tokens(self.params)),
        ] + return_tokens(self.return_type) + where_tokens(self.where_clause)
    }

    /// Everything but the body.
    pub open spec fn header_tokens(self) -> Seq<TokenView> {
        attributes_tokens(self.attributes) + self.qualifier_tokens() + seq![
            kw("fn"@),
            kw(self.name),
        ] + self.signature_tokens()
    }

    pub open spec fn tokens(self) -> Seq<TokenView> {
        self.header_tokens() + seq![TokenView::Group(Delimiter::Brace, self.body)]
    }
}

/// An `impl` block.
#[derive(Debug)]
pub struct ImplBlockSig {
    pub attributes: Vec<Attribute>,
    pub generics: Option<Generics>,
    /// The tokens of the type that is implemented.
    pub target_type: Vec<Token>,
    /// The tokens behind `for`, where the block implements a trait.
    pub for_trait: Option<Vec<Token>>,
    pub where_clause: Option<WhereClauses>,
    /// The tokens inside the braces.
    pub body: Vec<Token>,
}

pub ghost struct ImplBlockSigView {
    pub attributes: Seq<AttributeView>,
    pub generics: Option<GenericsView>,
    pub target_type: Seq<TokenView>,
    pub for_trait: Option<Seq<TokenView>>,
    pub where_clause: Option<WhereClausesView>,
    pub body: Seq<TokenView>,
}

/// The view of optional tokens.
pub open spec fn opt_tokens_view(o: Option<Vec<Token>>) -> Option<Seq<TokenView>> {
    match o {
        Some(v) => Some(view_tokens(v@)),
        None => None,
    }
}

impl View for ImplBlockSig {
    type V = ImplBlockSigView;

    open spec fn view(&self) -> ImplBlockSigView {
        ImplBlockSigView {
            attributes: views(self.attributes@),
            generics: opt_view(self.generics),
            target_type: view_tokens(self.target_type@),
            for_trait: opt_tokens_view(self.for_trait),
            where_clause: opt_view(self.where_clause),
            body: view_tokens(self.body@),
        }
    }
}

/// `for` and the tokens of the trait, where there are any.
pub open spec fn for_trait_tokens(f: Option<Seq<TokenView>>) -> Seq<TokenView> {
    match f {
        Some(t) => seq![kw("for"@)] + t,
        None => Seq::empty(),
    }
}

impl ImplBlockSigView {
    /// Everything but the body.
    pub open spec fn header_tokens(self) -> Seq<TokenView> {
        attributes_tokens(self.attributes) + seq![kw("impl"@)] + generics_tokens(self.generics)
            + self.target_type + for_trait_tokens(self.for_trait) + where_tokens(
            self.where_clause,
        )
    }

    pub open spec fn tokens(self) -> Seq<TokenView> {
        self.header_tokens() + seq![TokenView::Group(Delimiter::Brace, self.body)]
    }
}

/// A module with a body.
#[derive(Debug)]
pub struct ModuleSig {
    pub attributes: Vec<Attribute>,
    pub visibility: Option<Visibility>,
    pub name: String,
    /// The tokens inside the braces.
    pub body: Vec<Token>,
}

pub ghost struct ModuleSigView {
    pub attributes: Seq<AttributeView>,
    pub visibility: Option<VisibilityView>,
    pub name: Seq<char>,
    pub body: Seq<TokenView>,
}

impl View for ModuleSig {
    type V = ModuleSigView;

    open spec fn view(&self) -> ModuleSigView {
        ModuleSigView {
            attributes: views(self.attributes@),
            visibility: opt_view(self.visibility),
            name: self.name@,
            body: view_tokens(self.body@),
        }
    }
}

impl ModuleSigView {
    /// Everything but the body.
    pub open spec fn header_tokens(self) -> Seq<TokenView> {
        attributes_tokens(self.attributes) + visibility_tokens(self.visibility) + seq![
            kw("mod"@),
            kw(self.name),
        ]
    }

    pub open spec fn tokens(self) -> Seq<TokenView> {
        self.header_tokens() + seq![TokenView::Group(Delimiter::Brace, self.body)]
    }
}

/// The supertraits of a trait: `:` and what follows it.
#[derive(Debug)]
pub struct TraitBounds {
    /// The joint flag of the `:`.
    pub colon_joint: bool,
    /// The tokens of the bounds, not parsed further.
    pub bounds: Vec<Token>,
}

pub ghost struct TraitBoundsView {
    pub colon_joint: bool,
    pub bounds: Seq<TokenView>,
}

impl View for TraitBounds {
    type V = TraitBoundsView;

    open spec fn view(&self) -> TraitBoundsView {
        TraitBoundsView { colon_joint: self.colon_joint, bounds: view_tokens(self.bounds@) }
    }
}

/// The tokens of optional supertraits.
pub open spec fn bounds_tokens(b: Option<TraitBoundsView>) -> Seq<TokenView> {
    match b {
        Some(b) => seq![TokenView::Punct(':', b.colon_joint)] + b.bounds,
        None => Seq::empty(),
    }
}

/// A trait definition.
#[derive(Debug)]
pub struct TraitSig {
    pub attributes: Vec<Attribute>,
    pub visibility: Option<Visibility>,
    pub unsafe_kw: bool,
    pub name: String,
    pub generics: Option<Generics>,
    pub bounds: Option<TraitBounds>,
    pub where_clause: Option<WhereClauses>,
    /// The tokens inside the braces.
    pub body: Vec<Token>,
}

pub ghost struct TraitSigView {
    pub attributes: Seq<AttributeView>,
    pub visibility: Option<VisibilityView>,
    pub unsafe_kw: bool,
    pub name: Seq<char>,
    pub generics: Option<GenericsView>,
    pub bounds: Option<TraitBoundsView>,
    pub where_clause: Option<WhereClausesView>,
    pub body: Seq<TokenView>,
}

impl View for TraitSig {
    type V = TraitSigView;

    open spec fn view(&self) -> TraitSigView {
        TraitSigView {
            attributes: views(self.attributes@),
            visibility: opt_view(self.visibility),
            unsafe_kw: self.unsafe_kw,
            name: self.name@,
            generics: opt_view(self.generics),
            bounds: opt_view(self.bounds),
            where_clause: opt_view(self.where_clause),
            body: view_tokens(self.body@),
        }
    }
}

impl TraitSigView {
    /// Everything but the body.
    pub open spec fn header_tokens(self) -> Seq<TokenView> {
        attributes_tokens(self.attributes) + visibility_tokens(self.visibility) + flag_tokens(
            self.unsafe_kw,
            "unsafe"@,
        ) + seq![kw("trait"@), kw(self.name)] + generics_tokens(self.generics) + bounds_tokens(
            self.bounds,
        ) + where_tokens(self.where_clause)
    }

    pub open spec fn tokens(self) -> Seq<TokenView> {
        self.header_tokens() + seq![TokenView::Group(Delimiter::Brace, self.body)]
    }
}

/// One item of a module, an `impl` block or a trait.
#[derive(Debug)]
pub enum ModuleItem {
    Function(FnSig),
    ImplBlock(ImplBlockSig),
    Module(ModuleSig),
    Trait(TraitSig),
    /// Any other token, passed through.
    Other(Token),
}

pub ghost enum ModuleItemView {
    Function(FnSigView),
    ImplBlock(ImplBlockSigView),
    Module(ModuleSigView),
    Trait(TraitSigView),
    Other(TokenView),
}

impl View for ModuleItem {
    type V = ModuleItemView;

    open spec fn view(&self) -> ModuleItemView {
        match self {
            ModuleItem::Function(f) => ModuleItemView::Function(f@),
            ModuleItem::ImplBlock(i) => ModuleItemView::ImplBlock(i@),
            ModuleItem::Module(m) => ModuleItemView::Module(m@),
            ModuleItem::Trait(t) => ModuleItemView::Trait(t@),
            ModuleItem::Other(t) => ModuleItemView::Other(t@),
        }
    }
}

impl ModuleItemView {
    pub open spec fn tokens(self) -> Seq<TokenView> {
        match self {
            ModuleItemView::Function(f) => f.tokens(),
            ModuleItemView::ImplBlock(i) => i.tokens(),
            ModuleItemView::Module(m) => m.tokens(),
            ModuleItemView::Trait(t) => t.tokens(),
            ModuleItemView::Other(t) => seq![t],
        }
    }
}

/// The tokens of a run of items.
pub open spec fn items_tokens(items: Seq<ModuleItemView>) -> Seq<TokenView> {
    concat(items.map_values(|i: ModuleItemView| i.tokens()))
}

/// Appending one more part appends its tokens.
pub proof fn lemma_concat_push(parts: Seq<Seq<TokenView>>, x: Seq<TokenView>)
    ensures
        concat(parts.push(x)) == concat(parts) + x,
{
    assert(parts.push(x).drop_last() =~= parts);
}

/// The parts of a concatenation may be split anywhere.
pub proof fn lemma_concat_add(a: Seq<Seq<TokenView>>, b: Seq<Seq<TokenView>>)
    ensures
        concat(a + b) == concat(a) + concat(b),
    decreases b.len(),
{
    if b.len() == 0 {
        assert(a + b =~= a);
        assert(concat(a) + concat(b) =~= concat(a));
    } else {
        lemma_concat_add(a, b.drop_last());
        assert((a + b).drop_last() =~= a + b.drop_last());
        assert((a + b).last() == b.last());
        assert(concat(a) + (concat(b.drop_last()) + b.last()) =~= (concat(a) + concat(
            b.drop_last(),
        )) + b.last());
    }
}

/// A single part is its own concatenation.
pub proof fn lemma_concat_one(x: Seq<TokenView>)
    ensures
        concat(seq![x]) == x,
{
    assert(seq![x].drop_last() =~= Seq::<Seq<TokenView>>::empty());
    assert(concat(Seq::<Seq<TokenView>>::empty()) + x =~= x);
}

/// Appends the identifier `text`.
pub fn push_ident(out: &mut Vec<Token>, text: &str)
    ensures
        view_tokens(final(out)@) == view_tokens(old(out)@).push(kw(text@)),
{
    let t = Token::ident(text);
    proof {
        lemma_view_tokens_push(out@, t);
    }
    out.push(t);
}

/// Appends an identifier with a copy of the text `name`.
pub fn push_name(out: &mut Vec<Token>, name: &String)
    ensures
        view_tokens(final(out)@) == view_tokens(old(out)@).push(kw(name@)),
{
    let t = Token::Ident(name.clone());
    proof {
        lemma_view_tokens_push(out@, t);
    }
    out.push(t);
}

/// Appends a literal with a copy of the source text `text`.
pub fn push_literal(out: &mut Vec<Token>, text: &String)
    ensures
        view_tokens(final(out)@) == view_tokens(old(out)@).push(TokenView::Literal(text@)),
{
    let t = Token::Literal(text.clone());
    proof {
        lemma_view_tokens_push(out@, t);
    }
    out.push(t);
}

/// Appends the mark `c`.
pub fn push_punct(out: &mut Vec<Token>, c: char, joint: bool)
    ensures
        view_tokens(final(out)@) == view_tokens(old(out)@).push(TokenView::Punct(c, joint)),
{
    let t = Token::Punct(c, joint);
    proof {
        lemma_view_tokens_push(out@, t);
    }
    out.push(t);
}

/// Appends a group around `inner`.
pub fn push_group(out: &mut Vec<Token>, delimiter: Delimiter, inner: Vec<Token>)
    ensures
        view_tokens(final(out)@) == view_tokens(old(out)@).push(
            TokenView::Group(delimiter, view_tokens(inner@)),
        ),
{
    let t = Token::Group(delimiter, inner);
    proof {
        lemma_view_tokens_push(out@, t);
    }
    out.push(t);
}

/// Appends the keyword `text` where `present`.
pub fn push_flag(out: &mut Vec<Token>, present: bool, text: &str)
    ensures
        view_tokens(final(out)@) == view_tokens(old(out)@) + flag_tokens(present, text@),
{
    if present {
        push_ident(out, text);
        assert(view_tokens(old(out)@).push(kw(text@)) =~= view_tokens(old(out)@) + flag_tokens(
            present,
            text@,
        ));
    } else {
        assert(view_tokens(old(out)@) + flag_tokens(present, text@) =~= view_tokens(old(out)@));
    }
}

/// Appends the comma that followed a list element, if there was one.
pub fn push_comma(out: &mut Vec<Token>, comma: Option<bool>)
    ensures
        view_tokens(final(out)@) == view_tokens(old(out)@) + comma_tokens(comma),
{
    match comma {
        Some(joint) => {
            push_punct(out, ',', joint);
            assert(view_tokens(old(out)@).push(TokenView::Punct(',', joint)) =~= view_tokens(
                old(out)@,
            ) + comma_tokens(comma));
        },
        None => {
            assert(view_tokens(old(out)@) + comma_tokens(comma) =~= view_tokens(old(out)@));
        },
    }
}

impl Attribute {
    /// Appends the tokens of this attribute.
    pub fn to_tokens(&self, out: &mut Vec<Token>)
        ensures
            view_tokens(final(out)@) == view_tokens(old(out)@) + self@.tokens(),
    {
        push_punct(out, '#', self.joint);
        push_group(out, Delimiter::Bracket, clone_tokens(&self.content));
        assert(view_tokens(out@) =~= view_tokens(old(out)@) + self@.tokens());
    }
}

/// Appends the tokens of a run of attributes.
pub fn attributes_to_tokens(attrs: &Vec<Attribute>, out: &mut Vec<Token>)
    ensures
        view_tokens(final(out)@) == view_tokens(old(out)@) + attributes_tokens(views(attrs@)),
{
    let ghost all = views(attrs@);
    let mut i: usize = 0;
    assert(view_tokens(out@) + attributes_tokens(all.take(0)) =~= view_tokens(out@));
    while i < attrs.len()
        invariant
            i <= attrs.len(),
            all == views(attrs@),
            view_tokens(out@) == view_tokens(old(out)@) + attributes_tokens(all.take(i as int)),
        decreases attrs.len() - i,
    {
        attrs[i].to_tokens(out);
        proof {
            let f = |a: AttributeView| a.tokens();
            assert(all.take(i + 1).map_values(f) =~= all.take(i as int).map_values(f).push(
                all[i as int].tokens(),
            ));
            lemma_concat_push(all.take(i as int).map_values(f), all[i as int].tokens());
            assert(view_tokens(old(out)@) + attributes_tokens(all.take(i as int)) + all[i as int].tokens()
                =~= view_tokens(old(out)@) + attributes_tokens(all.take(i + 1)));
        }
        i += 1;
    }
    assert(all.take(attrs.len() as int) =~= all);
}

impl Visibility {
    /// Appends the tokens of this qualifier.
    pub fn to_tokens(&self, out: &mut Vec<Token>)
        ensures
            view_tokens(final(out)@) == view_tokens(old(out)@) + self@.tokens(),
    {
        push_ident(out, "pub");
        match self {
            Visibility::Restricted(inner) => {
                push_group(out, Delimiter::Parenthesis, clone_tokens(inner));
            },
            Visibility::Public => {},
        }
        assert(view_tokens(out@) =~= view_tokens(old(out)@) + self@.tokens());
    }
}

/// Appends the tokens of an optional visibility.
pub fn visibility_to_tokens(v: &Option<Visibility>, out: &mut Vec<Token>)
    ensures
        view_tokens(final(out)@) == view_tokens(old(out)@) + visibility_tokens(opt_view(*v)),
{
    match v {
        Some(v) => v.to_tokens(out),
        None => {
            assert(view_tokens(out@) + Seq::empty() =~= view_tokens(out@));
        },
    }
}

impl ExternSpec {
    /// Appends the tokens of this marker.
    pub fn to_tokens(&self, out: &mut Vec<Token>)
        ensures
            view_tokens(final(out)@) == view_tokens(old(out)@) + self@.tokens(),
    {
        push_ident(out, "extern");
        match self {
            ExternSpec::WithAbi(abi) => {
                push_literal(out, abi);
            },
            ExternSpec::Bare => {},
        }
        assert(view_tokens(out@) =~= view_tokens(old(out)@) + self@.tokens());
    }
}

/// Appends the tokens of an optional foreign-linkage marker.
pub fn extern_to_tokens(e: &Option<ExternSpec>, out: &mut Vec<Token>)
    ensures
        view_tokens(final(out)@) == view_tokens(old(out)@) + extern_tokens(opt_view(*e)),
{
    match e {
        Some(e) => e.to_tokens(out),
        None => {
            assert(view_tokens(out@) + Seq::empty() =~= view_tokens(out@));
        },
    }
}

impl Generics {
    /// Appends the tokens of these generics.
    pub fn to_tokens(&self, out: &mut Vec<Token>)
        ensures
            view_tokens(final(out)@) == view_tokens(old(out)@) + self@.tokens(),
    {
        push_punct(out, '<', self.lt_joint);
        extend_tokens(out, &self.content);
        push_punct(out, '>', self.gt_joint);
        assert(view_tokens(out@) =~= view_tokens(old(out)@) + self@.tokens());
    }
}

/// Appends the tokens of optional generics.
pub fn generics_to_tokens(g: &Option<Generics>, out: &mut Vec<Token>)
    ensures
        view_tokens(final(out)@) == view_tokens(old(out)@) + generics_tokens(opt_view(*g)),
{
    match g {
        Some(g) => g.to_tokens(out),
        None => {
            assert(view_tokens(out@) + Seq::empty() =~= view_tokens(out@));
        },
    }
}

impl ReturnType {
    /// Appends the tokens of this return type.
    pub fn to_tokens(&self, out: &mut Vec<Token>)
        ensures
            view_tokens(final(out)@) == view_tokens(old(out)@) + self@.tokens(),
    {
        push_punct(out, '-', true);
        push_punct(out, '>', self.gt_joint);
        extend_tokens(out, &self.return_type);
        assert(view_tokens(out@) =~= view_tokens(old(out)@) + self@.tokens());
    }
}

/// Appends the tokens of an optional return type.
pub fn return_to_tokens(r: &Option<ReturnType>, out: &mut Vec<Token>)
    ensures
        view_tokens(final(out)@) == view_tokens(old(out)@) + return_tokens(opt_view(*r)),
{
    match r {
        Some(r) => r.to_tokens(out),
        None => {
            assert(view_tokens(out@) + Seq::empty() =~= view_tokens(out@));
        },
    }
}

impl WhereClausePredicate {
    /// Appends the tokens of this predicate and of the comma behind it.
    pub fn to_tokens(&self, out: &mut Vec<Token>)
        ensures
            view_tokens(final(out)@) == view_tokens(old(out)@) + self@.tokens(),
    {
        extend_tokens(out, &self.pred);
        push_punct(out, ':', self.colon_joint);
        extend_tokens(out, &self.bounds);
        push_comma(out, self.comma);
        assert(view_tokens(out@) =~= view_tokens(old(out)@) + self@.tokens());
    }
}

impl WhereClauses {
    /// Appends the tokens of this clause.
    pub fn to_tokens(&self, out: &mut Vec<Token>)
        ensures
            view_tokens(final(out)@) == view_tokens(old(out)@) + self@.tokens(),
    {
        let ghost all = views(self.clauses@);
        let ghost f = |c: WhereClausePredicateView| c.tokens();
        push_ident(out, "where");
        let ghost base = view_tokens(out@);
        let mut i: usize = 0;
        assert(base + concat(all.take(0).map_values(f)) =~= base);
        while i < self.clauses.len()
            invariant
                i <= self.clauses.len(),
                all == views(self.clauses@),
                f == |c: WhereClausePredicateView| c.tokens(),
                view_tokens(out@) == base + concat(all.take(i as int).map_values(f)),
            decreases self.clauses.len() - i,
        {
            self.clauses[i].to_tokens(out);
            proof {
                assert(all.take(i + 1).map_values(f) =~= all.take(i as int).map_values(f).push(
                    all[i as int].tokens(),
                ));
                lemma_concat_push(all.take(i as int).map_values(f), all[i as int].tokens());
                assert(base + concat(all.take(i as int).map_values(f)) + all[i as int].tokens()
                    =~= base + concat(all.take(i + 1).map_values(f)));
            }
            i += 1;
        }
        assert(all.take(self.clauses.len() as int) =~= all);
        assert(view_tokens(out@) =~= view_tokens(old(out)@) + self@.tokens());
    }
}

/// Appends the tokens of an optional `where` clause.
pub fn where_to_tokens(w: &Option<WhereClauses>, out: &mut Vec<Token>)
    ensures
        view_tokens(final(out)@) == view_tokens(old(out)@) + where_tokens(opt_view(*w)),
{
    match w {
        Some(w) => w.to_tokens(out),
        None => {
            assert(view_tokens(out@) + Seq::empty() =~= view_tokens(out@));
        },
    }
}

impl SelfParam {
    /// Appends the tokens of this receiver.
    pub fn to_tokens(&self, out: &mut Vec<Token>)
        ensures
            view_tokens(final(out)@) == view_tokens(old(out)@) + self.tokens(),
    {
        match self {
            SelfParam::Value => {},
            SelfParam::Ref(j) => {
                push_punct(out, '&', *j);
            },
            SelfParam::RefMut(j) => {
                push_punct(out, '&', *j);
                push_ident(out, "mut");
            },
            SelfParam::Mut => {
                push_ident(out, "mut");
            },
        }
        push_ident(out, "self");
        assert(view_tokens(out@) =~= view_tokens(old(out)@) + self.tokens());
    }
}

impl NamedParam {
    /// Appends the tokens of this parameter.
    pub fn to_tokens(&self, out: &mut Vec<Token>)
        ensures
            view_tokens(final(out)@) == view_tokens(old(out)@) + self@.tokens(),
    {
        push_flag(out, self.mut_kw, "mut");
        push_name(out, &self.name);
        push_punct(out, ':', self.colon_joint);
        extend_tokens(out, &self.param_type);
        assert(view_tokens(out@) =~= view_tokens(old(out)@) + self@.tokens());
    }
}

impl Pattern {
    /// Appends the tokens of this pattern.
    #[verifier::loop_isolation(false)]
    pub fn to_tokens(&self, out: &mut Vec<Token>)
        ensures
            view_tokens(final(out)@) == view_tokens(old(out)@) + pattern_tokens(self@),
        decreases *self,
    {
        match self {
            Pattern::Ident(name) => {
                push_name(out, name);
                assert(view_tokens(out@) =~= view_tokens(old(out)@) + pattern_tokens(self@));
            },
            Pattern::Tuple(fields) => {
                let ghost all = view_fields(fields@);
                let ghost parts = field_parts(all);
                let mut inner: Vec<Token> = Vec::new();
                let mut i: usize = 0;
                assert(view_tokens(inner@) =~= concat(parts.take(0)));
                while i < fields.len()
                    invariant
                        i <= fields.len(),
                        view_tokens(inner@) == concat(parts.take(i as int)),
                    decreases fields.len() - i,
                {
                    fields[i].pattern.to_tokens(&mut inner);
                    push_comma(&mut inner, fields[i].comma);
                    proof {
                        assert(parts.take(i + 1) =~= parts.take(i as int).push(parts[i as int]));
                        lemma_concat_push(parts.take(i as int), parts[i as int]);
                        assert(view_tokens(inner@) =~= concat(parts.take(i as int))
                            + parts[i as int]);
                    }
                    i += 1;
                }
                assert(parts.take(fields.len() as int) =~= parts);
                assert(fields_tokens(all) == concat(parts));
                assert(self@ == PatternView::Tuple(all));
                assert(pattern_tokens(self@) == seq![
                    TokenView::Group(Delimiter::Parenthesis, fields_tokens(all)),
                ]);
                push_group(out, Delimiter::Parenthesis, inner);
                assert(view_tokens(out@) =~= view_tokens(old(out)@) + pattern_tokens(self@));
            },
            Pattern::Other(tokens) => {
                extend_tokens(out, tokens);
            },
        }
    }
}

impl PatternField {
    /// Appends the tokens of this element and of the comma behind it.
    pub fn to_tokens(&self, out: &mut Vec<Token>)
        ensures
            view_tokens(final(out)@) == view_tokens(old(out)@) + pattern_tokens(self@.pattern)
                + comma_tokens(self@.comma),
    {
        self.pattern.to_tokens(out);
        push_comma(out, self.comma);
    }
}

impl PatternParam {
    /// Appends the tokens of this parameter.
    pub fn to_tokens(&self, out: &mut Vec<Token>)
        ensures
            view_tokens(final(out)@) == view_tokens(old(out)@) + self@.tokens(),
    {
        push_flag(out, self.mut_kw, "mut");
        self.pattern.to_tokens(out);
        push_punct(out, ':', self.colon_joint);
        extend_tokens(out, &self.param_type);
        assert(view_tokens(out@) =~= view_tokens(old(out)@) + self@.tokens());
    }
}

impl FnParam {
    /// Appends the tokens of this parameter.
    pub fn to_tokens(&self, out: &mut Vec<Token>)
        ensures
            view_tokens(final(out)@) == view_tokens(old(out)@) + self@.tokens(),
    {
        match self {
            FnParam::SelfParam(s) => s.to_tokens(out),
            FnParam::Named(n) => n.to_tokens(out),
            FnParam::Pattern(p) => p.to_tokens(out),
        }
    }
}

impl Param {
    /// Appends the tokens of this parameter and of the comma behind it.
    pub fn to_tokens(&self, out: &mut Vec<Token>)
        ensures
            view_tokens(final(out)@) == view_tokens(old(out)@) + self@.tokens(),
    {
        self.value.to_tokens(out);
        push_comma(out, self.comma);
        assert(view_tokens(out@) =~= view_tokens(old(out)@) + self@.tokens());
    }
}

/// The parenthesis group of a parameter list.
pub fn params_group(params: &Vec<Param>) -> (r: Token)
    ensures
        r@ == TokenView::Group(Delimiter::Parenthesis, params_tokens(views(params@))),
{
    let ghost all = views(params@);
    let ghost f = |p: ParamView| p.tokens();
    let mut inner: Vec<Token> = Vec::new();
    let mut i: usize = 0;
    assert(view_tokens(inner@) =~= concat(all.take(0).map_values(f)));
    while i < params.len()
        invariant
            i <= params.len(),
            all == views(params@),
            f == |p: ParamView| p.tokens(),
            view_tokens(inner@) == concat(all.take(i as int).map_values(f)),
        decreases params.len() - i,
    {
        params[i].to_tokens(&mut inner);
        proof {
            assert(all.take(i + 1).map_values(f) =~= all.take(i as int).map_values(f).push(
                all[i as int].tokens(),
            ));
            lemma_concat_push(all.take(i as int).map_values(f), all[i as int].tokens());
        }
        i += 1;
    }
    assert(all.take(params.len() as int) =~= all);
    Token::Group(Delimiter::Parenthesis, inner)
}

/// A fresh token list that holds the attributes.
fn attributes_list(attrs: &Vec<Attribute>) -> (out: Vec<Token>)
    ensures
        view_tokens(out@) == attributes_tokens(views(attrs@)),
{
    let mut out: Vec<Token> = Vec::new();
    attributes_to_tokens(attrs, &mut out);
    assert(view_tokens(out@) =~= attributes_tokens(views(attrs@)));
    out
}

/// A fresh token list that holds a brace group around a copy of `body`.
fn body_list(body: &Vec<Token>) -> (out: Vec<Token>)
    ensures
        view_tokens(out@) == seq![TokenView::Group(Delimiter::Brace, view_tokens(body@))],
{
    let mut out: Vec<Token> = Vec::new();
    push_group(&mut out, Delimiter::Brace, clone_tokens(body));
    assert(view_tokens(out@) =~= seq![TokenView::Group(Delimiter::Brace, view_tokens(body@))]);
    out
}

impl FnSig {
    /// The qualifiers that stand between the attributes and `fn`.
    pub fn qualifiers(&self) -> (out: Vec<Token>)
        ensures
            view_tokens(out@) == self@.qualifier_tokens(),
    {
        let mut out: Vec<Token> = Vec::new();
        visibility_to_tokens(&self.visibility, &mut out);
        assert(view_tokens(out@) =~= visibility_tokens(self@.visibility));
        push_flag(&mut out, self.const_kw, "const");
        push_flag(&mut out, self.async_kw, "async");
        push_flag(&mut out, self.unsafe_kw, "unsafe");
        extern_to_tokens(&self.extern_kw, &mut out);
        out
    }

    /// What stands between the name and the body.
    pub fn signature(&self) -> (out: Vec<Token>)
        ensures
            view_tokens(out@) == self@.signature_tokens(),
    {
        let mut out: Vec<Token> = Vec::new();
        generics_to_tokens(&self.generics, &mut out);
        assert(view_tokens(out@) =~= generics_tokens(self@.generics));
        let ghost before = view_tokens(out@);
        let group = params_group(&self.params);
        proof {
            lemma_view_tokens_push(out@, group);
        }
        out.push(group);
        assert(view_tokens(out@) =~= before + seq![group@]);
        return_to_tokens(&self.return_type, &mut out);
        where_to_tokens(&self.where_clause, &mut out);
        out
    }

    /// Everything but the body.
    pub fn header(&self) -> (out: Vec<Token>)
        ensures
            view_tokens(out@) == self@.header_tokens(),
    {
        let mut out = attributes_list(&self.attributes);
        let q = self.qualifiers();
        extend_tokens(&mut out, &q);
        let ghost before = view_tokens(out@);
        push_ident(&mut out, "fn");
        push_name(&mut out, &self.name);
        assert(view_tokens(out@) =~= before + seq![kw("fn"@), kw(self.name@)]);
        let g = self.signature();
        extend_tokens(&mut out, &g);
        out
    }

    /// Appends everything but the body.
    pub fn header_to_tokens(&self, out: &mut Vec<Token>)
        ensures
            view_tokens(final(out)@) == view_tokens(old(out)@) + self@.header_tokens(),
    {
        let h = self.header();
        extend_tokens(out, &h);
    }

    /// The tokens of this function.
    pub fn tokens(&self) -> (out: Vec<Token>)
        ensures
            view_tokens(out@) == self@.tokens(),
    {
        let mut out = self.header();
        let b = body_list(&self.body);
        extend_tokens(&mut out, &b);
        out
    }

    /// Appends the tokens of this function.
    pub fn to_tokens(&self, out: &mut Vec<Token>)
        ensures
            view_tokens(final(out)@) == view_tokens(old(out)@) + self@.tokens(),
    {
        let t = self.tokens();
        extend_tokens(out, &t);
    }
}

impl ImplBlockSig {
    /// Everything but the body.
    pub fn header(&self) -> (out: Vec<Token>)
        ensures
            view_tokens(out@) == self@.header_tokens(),
    {
        let mut out = attributes_list(&self.attributes);
        let ghost before = view_tokens(out@);
        push_ident(&mut out, "impl");
        assert(view_tokens(out@) =~= before + seq![kw("impl"@)]);
        generics_to_tokens(&self.generics, &mut out);
        extend_tokens(&mut out, &self.target_type);
        let ghost mid = view_tokens(out@);
        match &self.for_trait {
            Some(t) => {
                push_ident(&mut out, "for");
                extend_tokens(&mut out, t);
                assert(view_tokens(out@) =~= mid + for_trait_tokens(self@.for_trait));
            },
            None => {
                assert(view_tokens(out@) =~= mid + for_trait_tokens(self@.for_trait));
            },
        }
        where_to_tokens(&self.where_clause, &mut out);
        out
    }

    /// Appends everything but the body.
    pub fn header_to_tokens(&self, out: &mut Vec<Token>)
        ensures
            view_tokens(final(out)@) == view_tokens(old(out)@) + self@.header_tokens(),
    {
        let h = self.header();
        extend_tokens(out, &h);
    }

    /// Appends the tokens of this block.
    pub fn to_tokens(&self, out: &mut Vec<Token>)
        ensures
            view_tokens(final(out)@) == view_tokens(old(out)@) + self@.tokens(),
    {
        let mut t = self.header();
        let b = body_list(&self.body);
        extend_tokens(&mut t, &b);
        extend_tokens(out, &t);
    }
}

impl ModuleSig {
    /// Everything but the body.
    pub fn header(&self) -> (out: Vec<Token>)
        ensures
            view_tokens(out@) == self@.header_tokens(),
    {
        let mut out = attributes_list(&self.attributes);
        visibility_to_tokens(&self.visibility, &mut out);
        let ghost before = view_tokens(out@);
        push_ident(&mut out, "mod");
        push_name(&mut out, &self.name);
        assert(view_tokens(out@) =~= before + seq![kw("mod"@), kw(self.name@)]);
        out
    }

    /// Appends everything but the body.
    pub fn header_to_tokens(&self, out: &mut Vec<Token>)
        ensures
            view_tokens(final(out)@) == view_tokens(old(out)@) + self@.header_tokens(),
    {
        let h = self.header();
        extend_tokens(out, &h);
    }

    /// Appends the tokens of this module.
    pub fn to_tokens(&self, out: &mut Vec<Token>)
        ensures
            view_tokens(final(out)@) == view_tokens(old(out)@) + self@.tokens(),
    {
        let mut t = self.header();
        let b = body_list(&self.body);
        extend_tokens(&mut t, &b);
        extend_tokens(out, &t);
    }
}

impl TraitSig {
    /// Everything but the body.
    pub fn header(&self) -> (out: Vec<Token>)
        ensures
            view_tokens(out@) == self@.header_tokens(),
    {
        let mut out = attributes_list(&self.attributes);
        visibility_to_tokens(&self.visibility, &mut out);
        push_flag(&mut out, self.unsafe_kw, "unsafe");
        let ghost before = view_tokens(out@);
        push_ident(&mut out, "trait");
        push_name(&mut out, &self.name);
        assert(view_tokens(out@) =~= before + seq![kw("trait"@), kw(self.name@)]);
        generics_to_tokens(&self.generics, &mut out);
        let ghost mid = view_tokens(out@);
        match &self.bounds {
            Some(b) => {
                push_punct(&mut out, ':', b.colon_joint);
                extend_tokens(&mut out, &b.bounds);
                assert(view_tokens(out@) =~= mid + bounds_tokens(self@.bounds));
            },
            None => {
                assert(view_tokens(out@) =~= mid + bounds_tokens(self@.bounds));
            },
        }
        where_to_tokens(&self.where_clause, &mut out);
        out
    }

    /// Appends everything but the body.
    pub fn header_to_tokens(&self, out: &mut Vec<Token>)
        ensures
            view_tokens(final(out)@) == view_tokens(old(out)@) + self@.header_tokens(),
    {
        let h = self.header();
        extend_tokens(out, &h);
    }

    /// Appends the tokens of this trait.
    pub fn to_tokens(&self, out: &mut Vec<Token>)
        ensures
            view_tokens(final(out)@) == view_tokens(old(out)@) + self@.tokens(),
    {
        let mut t = self.header();
        let b = body_list(&self.body);
        extend_tokens(&mut t, &b);
        extend_tokens(out, &t);
    }
}

impl ModuleItem {
    /// Appends the tokens of this item.
    pub fn to_tokens(&self, out: &mut Vec<Token>)
        ensures
            view_tokens(final(out)@) == view_tokens(old(out)@) + self@.tokens(),
    {
        match self {
            ModuleItem::Function(f) => f.to_tokens(out),
            ModuleItem::ImplBlock(i) => i.to_tokens(out),
            ModuleItem::Module(m) => m.to_tokens(out),
            ModuleItem::Trait(t) => t.to_tokens(out),
            ModuleItem::Other(t) => {
                let c = t.deep_clone();
                proof {
                    lemma_view_tokens_push(out@, c);
                }
                out.push(c);
                assert(view_tokens(out@) =~= view_tokens(old(out)@) + self@.tokens());
            },
        }
    }
}

} // verus!
