#![allow(dead_code)]

use crustrace::token::{Delimiter, Token};
use crustrace::parse::parse_params;
use crustrace::syntax::FnParam;
use crustrace::tracer::extract_param_fields;
use proc_macro2::{Spacing, TokenStream, TokenTree};

fn from_stream(stream: TokenStream) -> Vec<Token> {
    let mut out = Vec::new();
    for tree in stream {
        out.push(match tree {
            TokenTree::Ident(i) => Token::Ident(i.to_string()),
            TokenTree::Punct(p) => Token::Punct(p.as_char(), p.spacing() == Spacing::Joint),
            TokenTree::Literal(l) => Token::Literal(l.to_string()),
            TokenTree::Group(g) => {
                let delimiter = match g.delimiter() {
                    proc_macro2::Delimiter::Parenthesis => Delimiter::Parenthesis,
                    proc_macro2::Delimiter::Brace => Delimiter::Brace,
                    proc_macro2::Delimiter::Bracket => Delimiter::Bracket,
                    proc_macro2::Delimiter::None => Delimiter::Invisible,
                };
                Token::Group(delimiter, from_stream(g.stream()))
            }
        });
    }
    out
}

fn to_stream(tokens: &[Token]) -> TokenStream {
    let mut out = TokenStream::new();
    for token in tokens {
        let tree: TokenTree = match token {
            Token::Ident(text) => {
                TokenTree::Ident(proc_macro2::Ident::new(text, proc_macro2::Span::call_site()))
            }
            Token::Punct(c, joint) => TokenTree::Punct(proc_macro2::Punct::new(
                *c,
                if *joint { Spacing::Joint } else { Spacing::Alone },
            )),
            Token::Literal(text) => {
                TokenTree::Literal(text.parse::<proc_macro2::Literal>().unwrap())
            }
            Token::Group(d, inner) => {
                let delimiter = match d {
                    Delimiter::Parenthesis => proc_macro2::Delimiter::Parenthesis,
                    Delimiter::Brace => proc_macro2::Delimiter::Brace,
                    Delimiter::Bracket => proc_macro2::Delimiter::Bracket,
                    Delimiter::Invisible => proc_macro2::Delimiter::None,
                };
                TokenTree::Group(proc_macro2::Group::new(delimiter, to_stream(inner)))
            }
        };
        out.extend(std::iter::once(tree));
    }
    out
}

/// The tokens of a piece of source text.
fn lex(source: &str) -> Vec<Token> {
    from_stream(source.parse::<TokenStream>().unwrap())
}

/// The tokens as text.
fn show(tokens: &[Token]) -> String {
    to_stream(tokens).to_string()
}

/// The body that a function gets: the span with the given arguments, the
/// guard, and then `rest`.
fn body_with_span(span_args: &str, rest: &str) -> String {
    format!(
        "{{ let __tracing_attr_span = tracing::span!({span_args}); let __tracing_attr_guard = __tracing_attr_span.enter(); {rest} }}"
    )
}

/// A function with `header` whose own body `body` runs unchanged behind the span.
fn spanned(header: &str, span_args: &str, body: &str) -> String {
    format!("{header} {}", body_with_span(span_args, body))
}

/// A function with `header` whose own body `body` is wrapped to report what it returns.
fn spanned_ret(header: &str, span_args: &str, body: &str, level: &str, mark: &str) -> String {
    let rest = format!(
        "let __tracing_attr_ret = (|| {body})(); tracing::event!(tracing::Level::{level}, return_value = {mark} __tracing_attr_ret); __tracing_attr_ret"
    );
    format!("{header} {}", body_with_span(span_args, &rest))
}

/// Checks that `actual` holds the tokens of the source text `expected`.
fn assert_tokens(actual: &[Token], expected: &str) {
    let want = lex(expected);
    assert_eq!(show(actual), show(&want));
    assert!(actual == want.as_slice());
}


fn fields_of(params: &str) -> String {
    show(&extract_param_fields(&lex(params)))
}

#[test]
fn test_no_parameters() {
    let result = extract_param_fields(&lex("()"));

    // Should be empty - no trailing commas or spaces
    assert_eq!(show(&result).trim(), "");
    assert!(result.is_empty());
}

#[test]
fn test_single_parameter() {
    let result_str = fields_of("(x: i32)");
    assert!(result_str.contains(", x = x"), "Should contain ', x = x' but got: {}", result_str);
    assert_eq!(result_str, ", x = x");
}

#[test]
fn test_multiple_parameters() {
    let result_str = fields_of("(name: &str, count: usize)");
    assert!(result_str.contains(", name = name"), "Should contain ', name = name'");
    assert!(result_str.contains(", count = count"), "Should contain ', count = count'");
    assert_eq!(result_str, ", name = name , count = count");
}

#[test]
fn test_mut_parameter() {
    let result_str = fields_of("(mut data: Vec<u8>)");
    assert!(
        result_str.contains(", data = data"),
        "Should extract parameter name 'data' despite 'mut' keyword"
    );
}

#[test]
fn test_self_parameter_skipped() {
    let result_str = fields_of("(&self, value: i32)");
    // Should contain value but not self
    assert!(result_str.contains(", value = value"), "Should contain 'value' parameter");
    assert!(!result_str.contains("self"), "Should NOT include 'self' in tracing fields");
}

#[test]
fn test_mut_self_parameter_skipped() {
    let result_str = fields_of("(&mut self, new_value: String)");
    // Should contain new_value but not self
    assert!(result_str.contains(", new_value = new_value"), "Should contain 'new_value' parameter");
    assert!(!result_str.contains("self"), "Should NOT include '&mut self' in tracing fields");
}

#[test]
fn test_complex_types() {
    let result_str = fields_of("(callback: fn(i32) -> String, data: Option<Vec<T>>)");
    assert!(result_str.contains(", callback = callback"), "Should handle function pointer types");
    assert!(result_str.contains(", data = data"), "Should handle complex generic types");
}

#[test]
fn test_generic_parameter() {
    let result_str = fields_of("(value: T, other: Option<U>)");
    assert!(result_str.contains(", value = value"), "Should handle generic type T");
    assert!(result_str.contains(", other = other"), "Should handle generic type Option<U>");
}

#[test]
fn test_mixed_parameters() {
    let result_str = fields_of("(&self, mut count: usize, name: &str, callback: impl Fn())");
    // Should have count, name, callback but not self
    assert!(result_str.contains(", count = count"), "Should extract 'count' despite 'mut'");
    assert!(result_str.contains(", name = name"), "Should extract 'name' reference parameter");
    assert!(result_str.contains(", callback = callback"), "Should extract 'callback' impl parameter");
    assert!(!result_str.contains("self"), "Should skip 'self' parameter");
}

#[test]
fn test_reference_parameters() {
    let result_str = fields_of("(data: &[u8], text: &mut String)");
    assert!(result_str.contains(", data = data"), "Should handle &[u8] slice reference");
    assert!(result_str.contains(", text = text"), "Should handle &mut String reference");
}

#[test]
fn test_pattern_parameter_skipped() {
    // A pattern whose type begins with a parenthesis group is not a parameter that the
    // grammar knows, so the list gives no fields.
    let result_str = fields_of("((x, y): (i32, i32))");
    assert_eq!(result_str.trim(), "", "Pattern parameters should be skipped");
}

#[test]
fn test_parsing_pipeline_debug() {
    let params = lex("(name: &str, count: usize)");
    let inner = match &params[0] {
        Token::Group(Delimiter::Parenthesis, inner) => inner,
        _ => panic!("not a parenthesis group"),
    };
    let list = parse_params(inner, 0).expect("Parse failed");
    assert_eq!(list.len(), 2);
    match &list[0].value {
        FnParam::Named(named) => {
            assert_eq!(named.name, "name");
            assert!(!named.mut_kw);
        }
        _ => panic!("expected a named parameter"),
    }
    match &list[1].value {
        FnParam::Named(named) => assert_eq!(named.name, "count"),
        _ => panic!("expected a named parameter"),
    }
    assert_eq!(show(&extract_param_fields(&params)), ", name = name , count = count");
}
