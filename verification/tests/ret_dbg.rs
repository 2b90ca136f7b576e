#![allow(dead_code)]

use crustrace::token::{Delimiter, Token};
use crustrace::instrument_impl;
use crustrace::tracer::{parse_instrument_args, InstrumentError};
use crustrace::FormatMode;
use proc_macro2::{Spacing, TokenStream, TokenTree};

fn from_stream(stream: TokenStream) -> Vec<Token> {
    let mut out = Vec::new();
    for tree in stream {
        out.push(match tree {
            TokenTree::Ident(i) => Token::Ident(i.to_string()),
            TokenTree::Punct(p) => Token::Punct(p.as_char(), p.spacing() == Spacing::Joint),
            TokenTree::Literal(l) => Token::Literal(l.to_string()),
            TokenTree::Group(g) => {
                let delimiter = match g.delimiter() {
                    proc_macro2::Delimiter::Parenthesis => Delimiter::Parenthesis,
                    proc_macro2::Delimiter::Brace => Delimiter::Brace,
                    proc_macro2::Delimiter::Bracket => Delimiter::Bracket,
                    proc_macro2::Delimiter::None => Delimiter::Invisible,
                };
                Token::Group(delimiter, from_stream(g.stream()))
            }
        });
    }
    out
}

fn to_stream(tokens: &[Token]) -> TokenStream {
    let mut out = TokenStream::new();
    for token in tokens {
        let tree: TokenTree = match token {
            Token::Ident(text) => {
                TokenTree::Ident(proc_macro2::Ident::new(text, proc_macro2::Span::call_site()))
            }
            Token::Punct(c, joint) => TokenTree::Punct(proc_macro2::Punct::new(
                *c,
                if *joint { Spacing::Joint } else { Spacing::Alone },
            )),
            Token::Literal(text) => {
                TokenTree::Literal(text.parse::<proc_macro2::Literal>().unwrap())
            }
            Token::Group(d, inner) => {
                let delimiter = match d {
                    Delimiter::Parenthesis => proc_macro2::Delimiter::Parenthesis,
                    Delimiter::Brace => proc_macro2::Delimiter::Brace,
                    Delimiter::Bracket => proc_macro2::Delimiter::Bracket,
                    Delimiter::Invisible => proc_macro2::Delimiter::None,
                };
                TokenTree::Group(proc_macro2::Group::new(delimiter, to_stream(inner)))
            }
        };
        out.extend(std::iter::once(tree));
    }
    out
}

/// The tokens of a piece of source text.
fn lex(source: &str) -> Vec<Token> {
    from_stream(source.parse::<TokenStream>().unwrap())
}

/// The tokens as text.
fn show(tokens: &[Token]) -> String {
    to_stream(tokens).to_string()
}

/// The body that a function gets: the span with the given arguments, the
/// guard, and then `rest`.
fn body_with_span(span_args: &str, rest: &str) -> String {
    format!(
        "{{ let __tracing_attr_span = tracing::span!({span_args}); let __tracing_attr_guard = __tracing_attr_span.enter(); {rest} }}"
    )
}

/// A function with `header` whose own body `body` runs unchanged behind the span.
fn spanned(header: &str, span_args: &str, body: &str) -> String {
    format!("{header} {}", body_with_span(span_args, body))
}

/// A function with `header` whose own body `body` is wrapped to report what it returns.
fn spanned_ret(header: &str, span_args: &str, body: &str, level: &str, mark: &str) -> String {
    let rest = format!(
        "let __tracing_attr_ret = (|| {body})(); tracing::event!(tracing::Level::{level}, return_value = {mark} __tracing_attr_ret); __tracing_attr_ret"
    );
    format!("{header} {}", body_with_span(span_args, &rest))
}

/// Checks that `actual` holds the tokens of the source text `expected`.
fn assert_tokens(actual: &[Token], expected: &str) {
    let want = lex(expected);
    assert_eq!(show(actual), show(&want));
    assert!(actual == want.as_slice());
}


#[test]
fn test_ret_dbg_parse_bare() {
    let result = parse_instrument_args(&lex("ret"));
    assert!(result.is_ok());
    let parsed = result.unwrap();
    assert!(parsed.ret_args.is_some());
}

#[test]
fn test_ret_dbg_parse_display() {
    let result = parse_instrument_args(&lex("ret(Display)"));
    let parsed = result.expect("ret(Display) is a request");
    let ret_args = parsed.ret_args.expect("ret was asked for");
    assert_eq!(ret_args.format_mode(), FormatMode::Display);
}

#[test]
fn test_ret_dbg_codegen_display() {
    let result =
        instrument_impl(lex("ret(Display)"), lex("fn test() -> String { \"hello\".to_string() }"));
    assert!(result.is_ok());

    let output_str = show(&result.unwrap());
    assert!(
        output_str.contains("return_value = % __tracing_attr_ret"),
        "Expected Display format (%) but got: {}",
        output_str
    );
}

#[test]
fn test_ret_dbg_codegen_custom_level() {
    let result = instrument_impl(lex("ret(level = \"warn\")"), lex("fn test() -> i32 { 42 }"));
    assert!(result.is_ok());

    let output_str = show(&result.unwrap());
    assert!(
        output_str.contains("tracing :: event ! (tracing :: Level :: WARN"),
        "Expected WARN level but got: {}",
        output_str
    );
}

#[test]
fn test_ret_dbg_duplicate_validation() {
    let result = parse_instrument_args(&lex("ret, ret"));
    assert!(result.is_err(), "Expected error for duplicate ret arguments but parsing succeeded");
    assert_eq!(result.unwrap_err(), InstrumentError::DuplicateRet);
}
