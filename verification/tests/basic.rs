#![allow(dead_code)]

use crustrace::token::{Delimiter, Token};
use crustrace::trace_all_impl;
use proc_macro2::{Spacing, TokenStream, TokenTree};

fn from_stream(stream: TokenStream) -> Vec<Token> {
    let mut out = Vec::new();
    for tree in stream {
        out.push(match tree {
            TokenTree::Ident(i) => Token::Ident(i.to_string()),
            TokenTree::Punct(p) => Token::Punct(p.as_char(), p.spacing() == Spacing::Joint),
            TokenTree::Literal(l) => Token::Literal(l.to_string()),
            TokenTree::Group(g) => {
                let delimiter = match g.delimiter() {
                    proc_macro2::Delimiter::Parenthesis => Delimiter::Parenthesis,
                    proc_macro2::Delimiter::Brace => Delimiter::Brace,
                    proc_macro2::Delimiter::Bracket => Delimiter::Bracket,
                    proc_macro2::Delimiter::None => Delimiter::Invisible,
                };
                Token::Group(delimiter, from_stream(g.stream()))
            }
        });
    }
    out
}

fn to_stream(tokens: &[Token]) -> TokenStream {
    let mut out = TokenStream::new();
    for token in tokens {
        let tree: TokenTree = match token {
            Token::Ident(text) => {
                TokenTree::Ident(proc_macro2::Ident::new(text, proc_macro2::Span::call_site()))
            }
            Token::Punct(c, joint) => TokenTree::Punct(proc_macro2::Punct::new(
                *c,
                if *joint { Spacing::Joint } else { Spacing::Alone },
            )),
            Token::Literal(text) => {
                TokenTree::Literal(text.parse::<proc_macro2::Literal>().unwrap())
            }
            Token::Group(d, inner) => {
                let delimiter = match d {
                    Delimiter::Parenthesis => proc_macro2::Delimiter::Parenthesis,
                    Delimiter::Brace => proc_macro2::Delimiter::Brace,
                    Delimiter::Bracket => proc_macro2::Delimiter::Bracket,
                    Delimiter::Invisible => proc_macro2::Delimiter::None,
                };
                TokenTree::Group(proc_macro2::Group::new(delimiter, to_stream(inner)))
            }
        };
        out.extend(std::iter::once(tree));
    }
    out
}

/// The tokens of a piece of source text.
fn lex(source: &str) -> Vec<Token> {
    from_stream(source.parse::<TokenStream>().unwrap())
}

/// The tokens as text.
fn show(tokens: &[Token]) -> String {
    to_stream(tokens).to_string()
}

/// The body that a function gets: the span with the given arguments, the
/// guard, and then `rest`.
fn body_with_span(span_args: &str, rest: &str) -> String {
    format!(
        "{{ let __tracing_attr_span = tracing::span!({span_args}); let __tracing_attr_guard = __tracing_attr_span.enter(); {rest} }}"
    )
}

/// A function with `header` whose own body `body` runs unchanged behind the span.
fn spanned(header: &str, span_args: &str, body: &str) -> String {
    format!("{header} {}", body_with_span(span_args, body))
}

/// A function with `header` whose own body `body` is wrapped to report what it returns.
fn spanned_ret(header: &str, span_args: &str, body: &str, level: &str, mark: &str) -> String {
    let rest = format!(
        "let __tracing_attr_ret = (|| {body})(); tracing::event!(tracing::Level::{level}, return_value = {mark} __tracing_attr_ret); __tracing_attr_ret"
    );
    format!("{header} {}", body_with_span(span_args, &rest))
}

/// Checks that `actual` holds the tokens of the source text `expected`.
fn assert_tokens(actual: &[Token], expected: &str) {
    let want = lex(expected);
    assert_eq!(show(actual), show(&want));
    assert!(actual == want.as_slice());
}

#[test]
fn basic_test_single_function() {
    let output = trace_all_impl(lex("fn hello() { println!(\"world\"); }"));
    let expected = spanned("fn hello()", "tracing::Level::INFO, \"hello\"", "{ println!(\"world\"); }");
    assert_tokens(&output, &expected);
}

#[test]
fn basic_test_multiple_functions() {
    let output = trace_all_impl(lex("fn foo(x: i32) -> i32 { bar(x + 1) } fn bar(y: i32) -> i32 { y * 2 }"));
    let expected = format!("{} {}", spanned("fn foo(x: i32) -> i32", "tracing::Level::INFO, \"foo\", x = x", "{ bar(x + 1) }"), spanned("fn bar(y: i32) -> i32", "tracing::Level::INFO, \"bar\", y = y", "{ y * 2 }"));
    assert_tokens(&output, &expected);
}

#[test]
fn basic_test_generic_function() {
    let output = trace_all_impl(lex("fn generic<T: Clone>(value: T) -> T { value.clone() }"));
    let expected = spanned("fn generic<T: Clone>(value: T) -> T", "tracing::Level::INFO, \"generic\", value = value", "{ value.clone() }");
    assert_tokens(&output, &expected);
}

#[test]
fn basic_test_ignores_non_functions() {
    let output = trace_all_impl(lex("let x = \"fn not_a_function\"; struct Foo { field: i32 } fn actual_function() {}"));
    let expected = format!("{} {}", "let x = \"fn not_a_function\"; struct Foo { field: i32 }", spanned("fn actual_function()", "tracing::Level::INFO, \"actual_function\"", "{}"));
    assert_tokens(&output, &expected);
}
