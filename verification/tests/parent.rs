#![allow(dead_code)]

use crustrace::token::{Delimiter, Token};
use crustrace::instrument_impl;
use proc_macro2::{Spacing, TokenStream, TokenTree};

fn from_stream(stream: TokenStream) -> Vec<Token> {
    let mut out = Vec::new();
    for tree in stream {
        out.push(match tree {
            TokenTree::Ident(i) => Token::Ident(i.to_string()),
            TokenTree::Punct(p) => Token::Punct(p.as_char(), p.spacing() == Spacing::Joint),
            TokenTree::Literal(l) => Token::Literal(l.to_string()),
            TokenTree::Group(g) => {
                let delimiter = match g.delimiter() {
                    proc_macro2::Delimiter::Parenthesis => Delimiter::Parenthesis,
                    proc_macro2::Delimiter::Brace => Delimiter::Brace,
                    proc_macro2::Delimiter::Bracket => Delimiter::Bracket,
                    proc_macro2::Delimiter::None => Delimiter::Invisible,
                };
                Token::Group(delimiter, from_stream(g.stream()))
            }
        });
    }
    out
}

fn to_stream(tokens: &[Token]) -> TokenStream {
    let mut out = TokenStream::new();
    for token in tokens {
        let tree: TokenTree = match token {
            Token::Ident(text) => {
                TokenTree::Ident(proc_macro2::Ident::new(text, proc_macro2::Span::call_site()))
            }
            Token::Punct(c, joint) => TokenTree::Punct(proc_macro2::Punct::new(
                *c,
                if *joint { Spacing::Joint } else { Spacing::Alone },
            )),
            Token::Literal(text) => {
                TokenTree::Literal(text.parse::<proc_macro2::Literal>().unwrap())
            }
            Token::Group(d, inner) => {
                let delimiter = match d {
                    Delimiter::Parenthesis => proc_macro2::Delimiter::Parenthesis,
                    Delimiter::Brace => proc_macro2::Delimiter::Brace,
                    Delimiter::Bracket => proc_macro2::Delimiter::Bracket,
                    Delimiter::Invisible => proc_macro2::Delimiter::None,
                };
                TokenTree::Group(proc_macro2::Group::new(delimiter, to_stream(inner)))
            }
        };
        out.extend(std::iter::once(tree));
    }
    out
}

/// The tokens of a piece of source text.
fn lex(source: &str) -> Vec<Token> {
    from_stream(source.parse::<TokenStream>().unwrap())
}

/// The tokens as text.
fn show(tokens: &[Token]) -> String {
    to_stream(tokens).to_string()
}

/// The body that a function gets: the span with the given arguments, the
/// guard, and then `rest`.
fn body_with_span(span_args: &str, rest: &str) -> String {
    format!(
        "{{ let __tracing_attr_span = tracing::span!({span_args}); let __tracing_attr_guard = __tracing_attr_span.enter(); {rest} }}"
    )
}

/// A function with `header` whose own body `body` runs unchanged behind the span.
fn spanned(header: &str, span_args: &str, body: &str) -> String {
    format!("{header} {}", body_with_span(span_args, body))
}

/// A function with `header` whose own body `body` is wrapped to report what it returns.
fn spanned_ret(header: &str, span_args: &str, body: &str, level: &str, mark: &str) -> String {
    let rest = format!(
        "let __tracing_attr_ret = (|| {body})(); tracing::event!(tracing::Level::{level}, return_value = {mark} __tracing_attr_ret); __tracing_attr_ret"
    );
    format!("{header} {}", body_with_span(span_args, &rest))
}

/// Checks that `actual` holds the tokens of the source text `expected`.
fn assert_tokens(actual: &[Token], expected: &str) {
    let want = lex(expected);
    assert_eq!(show(actual), show(&want));
    assert!(actual == want.as_slice());
}

fn apply_instrument(args: &str, input: &str) -> Vec<Token> {
    let output = instrument_impl(lex(args), lex(input)).expect("Should instrument successfully");
    println!("Instrumented: {}", show(&output));
    output
}

#[test]
fn test_parent_parsing() {
    let output = apply_instrument("parent = \"my_parent_span\"", "fn test_function(x: u32) -> u32 { x + 1 }");
    let expected = spanned("fn test_function(x: u32) -> u32", "parent: \"my_parent_span\", tracing::Level::INFO, \"test_function\", x = x", "{ x + 1 }");
    assert_tokens(&output, &expected);
}

#[test]
fn test_parent_string_literal() {
    let output = apply_instrument("parent = \"my_parent_span\"", "fn test_function(x: u32) -> u32 { x + 1 }");
    let expected = spanned("fn test_function(x: u32) -> u32", "parent: \"my_parent_span\", tracing::Level::INFO, \"test_function\", x = x", "{ x + 1 }");
    assert_tokens(&output, &expected);
}

#[test]
fn test_parent_variable() {
    let output = apply_instrument("parent = my_span_variable", "fn test_function(x: u32) -> u32 { x + 1 }");
    let expected = spanned("fn test_function(x: u32) -> u32", "parent: my_span_variable, tracing::Level::INFO, \"test_function\", x = x", "{ x + 1 }");
    assert_tokens(&output, &expected);
}

#[test]
fn test_parent_reference() {
    let output = apply_instrument("parent = &parent_span", "fn test_function(x: u32) -> u32 { x + 1 }");
    let expected = spanned("fn test_function(x: u32) -> u32", "parent: &parent_span, tracing::Level::INFO, \"test_function\", x = x", "{ x + 1 }");
    assert_tokens(&output, &expected);
}

#[test]
fn test_parent_function_call() {
    let output = apply_instrument("parent = get_current_span()", "fn test_function(x: u32) -> u32 { x + 1 }");
    let expected = spanned("fn test_function(x: u32) -> u32", "parent: get_current_span(), tracing::Level::INFO, \"test_function\", x = x", "{ x + 1 }");
    assert_tokens(&output, &expected);
}

#[test]
fn test_parent_method_call() {
    let output = apply_instrument("parent = span_context.current_span()", "fn test_function(x: u32) -> u32 { x + 1 }");
    let expected = spanned("fn test_function(x: u32) -> u32", "parent: span_context.current_span(), tracing::Level::INFO, \"test_function\", x = x", "{ x + 1 }");
    assert_tokens(&output, &expected);
}

#[test]
fn test_parent_field_access() {
    let output = apply_instrument("parent = self.parent_span", "fn test_function(&self, x: u32) -> u32 { x + 1 }");
    let expected = spanned("fn test_function(&self, x: u32) -> u32", "parent: self.parent_span, tracing::Level::INFO, \"test_function\", x = x", "{ x + 1 }");
    assert_tokens(&output, &expected);
}

#[test]
fn test_parent_with_other_args() {
    let output = apply_instrument("level = \"debug\", name = \"custom_name\", parent = &context.span, target = \"my::module\"", "fn complex_function(a: i32, b: String) -> Result<i32, String> { Ok(a + b.len() as i32) }");
    let expected = spanned("fn complex_function(a: i32, b: String) -> Result<i32, String>", "target: \"my::module\", parent: &context.span, tracing::Level::DEBUG, \"custom_name\", a = a, b = b", "{ Ok(a + b.len() as i32) }");
    assert_tokens(&output, &expected);
}

#[test]
fn test_parent_none_expression() {
    let output = apply_instrument("parent = Option::<tracing::Span>::None", "fn test_function(x: u32) -> u32 { x + 1 }");
    let expected = spanned("fn test_function(x: u32) -> u32", "parent: Option::<tracing::Span>::None, tracing::Level::INFO, \"test_function\", x = x", "{ x + 1 }");
    assert_tokens(&output, &expected);
}
