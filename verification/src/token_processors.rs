//! Walks a sequence of items, instruments every function that it finds, and
//! goes into the bodies of modules, `impl` blocks and traits.

use crate::grammar::{impl_block, module, module_item, module_items, trait_def};
use crate::parse::parse_module_items;
use crate::syntax::{
    push_group, views, FnSig, ImplBlockSig, ModuleItem, ModuleItemView, ModuleSig, TraitSig,
};
use crate::token::{
    lemma_token_weight_bound, lemma_view_tokens_push, token_size, view_tokens, Delimiter, Token,
    TokenView,
};
use crate::tracer::{
    generate_instrumented_function, instrumented, simple_of, simplify, InstrumentArgs,
    InstrumentArgsView,
};
use vstd::prelude::*;

verus! {

/// How much there is to go into below an item: for a container, the tokens
/// of its body and one more; nothing for a function or any other token.
pub open spec fn item_weight(item: ModuleItemView) -> nat {
    match item {
        ModuleItemView::ImplBlock(b) => 1 + token_size(b.body),
        ModuleItemView::Module(m) => 1 + token_size(m.body),
        ModuleItemView::Trait(t) => 1 + token_size(t.body),
        _ => 0,
    }
}

/// The largest weight among the first `n` items.
pub open spec fn max_weight(items: Seq<ModuleItemView>, n: int) -> nat
    decreases n,
{
    if n <= 0 || n > items.len() {
        0
    } else {
        let rest = max_weight(items, n - 1);
        let this = item_weight(items[n - 1]);
        if this > rest {
            this
        } else {
            rest
        }
    }
}

/// No item weighs more than the largest weight.
pub proof fn lemma_max_weight(items: Seq<ModuleItemView>, i: int, n: int)
    requires
        0 <= i < n <= items.len(),
    ensures
        item_weight(items[i]) <= max_weight(items, n),
    decreases n,
{
    if i < n - 1 {
        lemma_max_weight(items, i, n - 1);
    }
}

/// The largest weight is no more than a bound on every weight.
pub proof fn lemma_max_weight_bound(items: Seq<ModuleItemView>, n: int, bound: nat)
    requires
        forall|i: int| 0 <= i < items.len() ==> item_weight(#[trigger] items[i]) <= bound,
    ensures
        max_weight(items, n) <= bound,
    decreases n,
{
    if 0 < n <= items.len() {
        lemma_max_weight_bound(items, n - 1, bound);
    }
}

/// The body of a container item is what stands inside one of the tokens it
/// was read from.
pub proof fn lemma_item_bound(s: Seq<TokenView>, p: int)
    requires
        0 <= p < s.len(),
    ensures
        item_weight(module_item(s, p).0) <= token_size(s),
{
    let item = module_item(s, p).0;
    let e = module_item(s, p).1;
    match item {
        ModuleItemView::ImplBlock(b) => {
            assert(impl_block(s, p) == Some((b, e)));
            assert(0 <= e - 1 < s.len() && s[e - 1] is Group);
            assert(b.body == crate::token::group_inner(s[e - 1]));
            lemma_token_weight_bound(s, e - 1, s.len() as int);
        },
        ModuleItemView::Module(m) => {
            assert(module(s, p) == Some((m, e)));
            assert(0 <= e - 1 < s.len() && s[e - 1] is Group);
            assert(m.body == crate::token::group_inner(s[e - 1]));
            lemma_token_weight_bound(s, e - 1, s.len() as int);
        },
        ModuleItemView::Trait(t) => {
            assert(trait_def(s, p) == Some((t, e)));
            assert(0 <= e - 1 < s.len() && s[e - 1] is Group);
            assert(t.body == crate::token::group_inner(s[e - 1]));
            lemma_token_weight_bound(s, e - 1, s.len() as int);
        },
        _ => {},
    }
}

/// No item read from a sequence weighs more than the sequence.
pub proof fn lemma_items_bound(s: Seq<TokenView>, p: int)
    requires
        0 <= p,
    ensures
        forall|i: int|
            0 <= i < module_items(s, p).len() ==> item_weight(#[trigger] module_items(s, p)[i])
                <= token_size(s),
    decreases s.len() - p,
{
    if p < s.len() {
        let (item, e) = module_item(s, p);
        lemma_item_bound(s, p);
        if p < e <= s.len() {
            lemma_items_bound(s, e);
            let rest = module_items(s, e);
            assert forall|i: int| 0 <= i < module_items(s, p).len() implies item_weight(
                #[trigger] module_items(s, p)[i],
            ) <= token_size(s) by {
                if i > 0 {
                    assert(module_items(s, p)[i] == rest[i - 1]);
                }
            }
        }
    }
}

/// What processing the tokens `s` gives: `s` read as items, each item
/// processed, in the order of the items.
pub open spec fn processed(s: Seq<TokenView>) -> Seq<TokenView>
    decreases token_size(s), 3int, 0int,
{
    let items = module_items(s, 0);
    proof {
        lemma_items_bound(s, 0);
        lemma_max_weight_bound(items, items.len() as int, token_size(s));
    }
    processed_items(items, items.len() as int)
}

/// What processing the first `n` items gives.
pub open spec fn processed_items(items: Seq<ModuleItemView>, n: int) -> Seq<TokenView>
    decreases max_weight(items, items.len() as int), 2int, n,
{
    if n <= 0 || n > items.len() {
        Seq::empty()
    } else {
        proof {
            lemma_max_weight(items, n - 1, items.len() as int);
        }
        processed_items(items, n - 1) + processed_item(items[n - 1])
    }
}

/// What processing one item gives. A function is instrumented on the empty
/// request. A module, an `impl` block or a trait keeps its header, and its
/// body is processed in turn. Any other token stays as it is.
pub open spec fn processed_item(item: ModuleItemView) -> Seq<TokenView>
    decreases item_weight(item), 1int, 0int,
{
    match item {
        ModuleItemView::Function(f) => instrumented(InstrumentArgsView::empty(), simple_of(f)),
        ModuleItemView::ImplBlock(b) => b.header_tokens() + braced(processed(b.body)),
        ModuleItemView::Module(m) => m.header_tokens() + braced(processed(m.body)),
        ModuleItemView::Trait(t) => t.header_tokens() + braced(processed(t.body)),
        ModuleItemView::Other(t) => seq![t],
    }
}

/// A brace group around `inner`.
pub open spec fn braced(inner: Seq<TokenView>) -> Seq<TokenView> {
    seq![TokenView::Group(Delimiter::Brace, inner)]
}

/// Processes a token sequence item by item.
pub struct TokenProcessor {
    input: Vec<Token>,
}

impl View for TokenProcessor {
    type V = Seq<TokenView>;

    closed spec fn view(&self) -> Seq<TokenView> {
        view_tokens(self.input@)
    }
}

impl TokenProcessor {
    /// A processor for `input`.
    pub fn new(input: Vec<Token>) -> (r: Self)
        ensures
            r@ == view_tokens(input@),
    {
        Self { input }
    }

    /// Processes the input: every function found in it, at any depth of
    /// modules, `impl` blocks and traits, is instrumented on the empty
    /// request, and every other token stays where and as it is.
    pub fn process(self) -> (r: Vec<Token>)
        ensures
            view_tokens(r@) == processed(self@),
        decreases token_size(self@), 3int, 0int,
    {
        let items = parse_module_items(&self.input, 0);
        proof {
            lemma_items_bound(self@, 0);
            lemma_max_weight_bound(views(items@), items.len() as int, token_size(self@));
        }
        self.process_module_content(items)
    }

    /// Processes the items one after another.
    #[verifier::loop_isolation(false)]
    pub fn process_module_content(&self, content: Vec<ModuleItem>) -> (r: Vec<Token>)
        ensures
            view_tokens(r@) == processed_items(views(content@), content.len() as int),
        decreases max_weight(views(content@), content.len() as int), 2int, 0int,
    {
        let ghost items = views(content@);
        let ghost n = items.len() as int;
        // The items are handed on one by one, the first one first; a vector gives
        // its last element away, so the items are turned round before.
        let mut remaining = content;
        let mut reversed: Vec<ModuleItem> = Vec::new();
        while remaining.len() > 0
            invariant
                remaining.len() + reversed.len() == n,
                forall|k: int| 0 <= k < remaining.len() ==> (#[trigger] remaining@[k])@ == items[k],
                forall|k: int|
                    0 <= k < reversed.len() ==> (#[trigger] reversed@[k])@ == items[n - 1 - k],
            decreases remaining.len(),
        {
            let item = remaining.pop().unwrap();
            reversed.push(item);
        }
        let mut output: Vec<Token> = Vec::new();
        assert(view_tokens(output@) =~= processed_items(items, 0));
        while reversed.len() > 0
            invariant
                reversed.len() <= n,
                forall|k: int|
                    0 <= k < reversed.len() ==> (#[trigger] reversed@[k])@ == items[n - 1 - k],
                view_tokens(output@) == processed_items(items, n - reversed.len()),
            decreases reversed.len(),
        {
            let ghost i = n - reversed.len();
            let item = reversed.pop().unwrap();
            assert(item@ == items[i]);
            proof {
                lemma_max_weight(items, i, n);
            }
            let tokens = self.process_module_item(item);
            crate::token::extend_tokens(&mut output, &tokens);
        }
        output
    }

    /// Processes one item.
    pub fn process_module_item(&self, item: ModuleItem) -> (r: Vec<Token>)
        ensures
            view_tokens(r@) == processed_item(item@),
        decreases item_weight(item@), 1int, 1int,
    {
        match item {
            ModuleItem::Function(func_sig) => self.instrument_function(func_sig),
            ModuleItem::ImplBlock(impl_block) => self.process_impl_block(impl_block),
            ModuleItem::Module(module) => self.process_module_block(module),
            ModuleItem::Trait(trait_def) => self.process_trait_block(trait_def),
            ModuleItem::Other(token) => {
                let mut tokens: Vec<Token> = Vec::new();
                proof {
                    lemma_view_tokens_push(tokens@, token);
                }
                tokens.push(token);
                assert(view_tokens(tokens@) =~= seq![token@]);
                tokens
            },
        }
    }

    /// Writes an `impl` block again, with its body processed.
    pub fn process_impl_block(&self, impl_block: ImplBlockSig) -> (r: Vec<Token>)
        ensures
            view_tokens(r@) == processed_item(ModuleItemView::ImplBlock(impl_block@)),
        decreases 1 + token_size(impl_block@.body), 1int, 0int,
    {
        let mut output: Vec<Token> = Vec::new();
        impl_block.header_to_tokens(&mut output);
        assert(view_tokens(output@) =~= impl_block@.header_tokens());
        let processed_body = self.process_brace_group_content(impl_block.body);
        crate::token::extend_tokens(&mut output, &processed_body);
        output
    }

    /// Writes a module again, with its body processed.
    pub fn process_module_block(&self, module: ModuleSig) -> (r: Vec<Token>)
        ensures
            view_tokens(r@) == processed_item(ModuleItemView::Module(module@)),
        decreases 1 + token_size(module@.body), 1int, 0int,
    {
        let mut output: Vec<Token> = Vec::new();
        module.header_to_tokens(&mut output);
        assert(view_tokens(output@) =~= module@.header_tokens());
        let processed_body = self.process_brace_group_content(module.body);
        crate::token::extend_tokens(&mut output, &processed_body);
        output
    }

    /// Writes a trait again, with its body processed.
    pub fn process_trait_block(&self, trait_def: TraitSig) -> (r: Vec<Token>)
        ensures
            view_tokens(r@) == processed_item(ModuleItemView::Trait(trait_def@)),
        decreases 1 + token_size(trait_def@.body), 1int, 0int,
    {
        let mut output: Vec<Token> = Vec::new();
        trait_def.header_to_tokens(&mut output);
        assert(view_tokens(output@) =~= trait_def@.header_tokens());
        let processed_body = self.process_brace_group_content(trait_def.body);
        crate::token::extend_tokens(&mut output, &processed_body);
        output
    }

    /// Processes what stands inside a brace group and puts the braces
    /// around the result.
    pub fn process_brace_group_content(&self, inner_content: Vec<Token>) -> (r: Vec<Token>)
        ensures
            view_tokens(r@) == braced(processed(view_tokens(inner_content@))),
        decreases token_size(view_tokens(inner_content@)), 4int, 0int,
    {
        let processed_inner = TokenProcessor::new(inner_content).process();
        let mut output: Vec<Token> = Vec::new();
        push_group(&mut output, Delimiter::Brace, processed_inner);
        assert(view_tokens(output@) =~= braced(processed(view_tokens(inner_content@))));
        output
    }

    /// Instruments a function on the empty request.
    pub fn instrument_function(&self, func: FnSig) -> (r: Vec<Token>)
        ensures
            view_tokens(r@) == instrumented(InstrumentArgsView::empty(), simple_of(func@)),
    {
        generate_instrumented_function(InstrumentArgs::default(), simplify(&func))
    }
}

} // verus!
