#![allow(dead_code)]

use crustrace::token::{Delimiter, Token};
use crustrace::token_processors::TokenProcessor;
use crustrace::trace_all_impl;
use proc_macro2::{Spacing, TokenStream, TokenTree};

fn from_stream(stream: TokenStream) -> Vec<Token> {
    let mut out = Vec::new();
    for tree in stream {
        out.push(match tree {
            TokenTree::Ident(i) => Token::Ident(i.to_string()),
            TokenTree::Punct(p) => Token::Punct(p.as_char(), p.spacing() == Spacing::Joint),
            TokenTree::Literal(l) => Token::Literal(l.to_string()),
            TokenTree::Group(g) => {
                let delimiter = match g.delimiter() {
                    proc_macro2::Delimiter::Parenthesis => Delimiter::Parenthesis,
                    proc_macro2::Delimiter::Brace => Delimiter::Brace,
                    proc_macro2::Delimiter::Bracket => Delimiter::Bracket,
                    proc_macro2::Delimiter::None => Delimiter::Invisible,
                };
                Token::Group(delimiter, from_stream(g.stream()))
            }
        });
    }
    out
}

fn to_stream(tokens: &[Token]) -> TokenStream {
    let mut out = TokenStream::new();
    for token in tokens {
        let tree: TokenTree = match token {
            Token::Ident(text) => {
                TokenTree::Ident(proc_macro2::Ident::new(text, proc_macro2::Span::call_site()))
            }
            Token::Punct(c, joint) => TokenTree::Punct(proc_macro2::Punct::new(
                *c,
                if *joint { Spacing::Joint } else { Spacing::Alone },
            )),
            Token::Literal(text) => {
                TokenTree::Literal(text.parse::<proc_macro2::Literal>().unwrap())
            }
            Token::Group(d, inner) => {
                let delimiter = match d {
                    Delimiter::Parenthesis => proc_macro2::Delimiter::Parenthesis,
                    Delimiter::Brace => proc_macro2::Delimiter::Brace,
                    Delimiter::Bracket => proc_macro2::Delimiter::Bracket,
                    Delimiter::Invisible => proc_macro2::Delimiter::None,
                };
                TokenTree::Group(proc_macro2::Group::new(delimiter, to_stream(inner)))
            }
        };
        out.extend(std::iter::once(tree));
    }
    out
}

/// The tokens of a piece of source text.
fn lex(source: &str) -> Vec<Token> {
    from_stream(source.parse::<TokenStream>().unwrap())
}

/// The tokens as text.
fn show(tokens: &[Token]) -> String {
    to_stream(tokens).to_string()
}

/// The body that a function gets: the span with the given arguments, the
/// guard, and then `rest`.
fn body_with_span(span_args: &str, rest: &str) -> String {
    format!(
        "{{ let __tracing_attr_span = tracing::span!({span_args}); let __tracing_attr_guard = __tracing_attr_span.enter(); {rest} }}"
    )
}

/// A function with `header` whose own body `body` runs unchanged behind the span.
fn spanned(header: &str, span_args: &str, body: &str) -> String {
    format!("{header} {}", body_with_span(span_args, body))
}

/// A function with `header` whose own body `body` is wrapped to report what it returns.
fn spanned_ret(header: &str, span_args: &str, body: &str, level: &str, mark: &str) -> String {
    let rest = format!(
        "let __tracing_attr_ret = (|| {body})(); tracing::event!(tracing::Level::{level}, return_value = {mark} __tracing_attr_ret); __tracing_attr_ret"
    );
    format!("{header} {}", body_with_span(span_args, &rest))
}

/// Checks that `actual` holds the tokens of the source text `expected`.
fn assert_tokens(actual: &[Token], expected: &str) {
    let want = lex(expected);
    assert_eq!(show(actual), show(&want));
    assert!(actual == want.as_slice());
}

#[test]
fn test_ignores_function_calls_in_expressions() {
    let output = trace_all_impl(lex("fn outer_function() { let result = some_fn_call(); another_fn_call(42, \"hello\"); nested::module::fn_call(); obj.method_fn_call(); }"));
    let expected = spanned("fn outer_function()", "tracing::Level::INFO, \"outer_function\"", "{ let result = some_fn_call(); another_fn_call(42, \"hello\"); nested::module::fn_call(); obj.method_fn_call(); }");
    assert_tokens(&output, &expected);
}

#[test]
fn test_ignores_fn_in_string_literals() {
    let output = trace_all_impl(lex("fn real_function() { let msg = \"This fn is not a function\"; let code = r#\"fn fake_function() { return \"not real\"; }\"#; println!(\"fn appears in this string too\"); } const TEMPLATE: &str = \"fn template_function() {}\";"));
    let expected = format!("{} {}", spanned("fn real_function()", "tracing::Level::INFO, \"real_function\"", "{ let msg = \"This fn is not a function\"; let code = r#\"fn fake_function() { return \"not real\"; }\"#; println!(\"fn appears in this string too\"); }"), "const TEMPLATE: &str = \"fn template_function() {}\";");
    assert_tokens(&output, &expected);
}

#[test]
fn test_ignores_fn_in_comments() {
    let output = trace_all_impl(lex(
        "// fn this_is_commented_out() {}
        /* fn this_is_also_commented() {} */

        fn actual_function() {
            // fn another_comment_function() {}
            /*
             * fn multiline_comment_function() {
             *     // More comments with fn
             * }
             */
            println!(\"Hello\");
        }

        /// Documentation comment with fn example() {}
        fn documented_function() {}",
    ));
    let expected = format!(
        "{}
        /// Documentation comment with fn example() {{}}
        {}",
        spanned(
            "fn actual_function()",
            "tracing::Level::INFO, \"actual_function\"",
            "{ println!(\"Hello\"); }"
        ),
        spanned(
            "fn documented_function()",
            "tracing::Level::INFO, \"documented_function\"",
            "{}"
        ),
    );
    assert_tokens(&output, &expected);
}

#[test]
fn test_complex_edge_cases() {
    let body = "{
            let variable = \"fn not_a_function\";
            some_function_call();
            if condition { another_fn_call(); }
            match value {
                Pattern => yet_another_fn_call(),
                _ => final_fn_call(),
            }
        }";
    let rest = "struct MyStruct { field: String, }
        const CODE_SAMPLE: &str = r#\"
            fn example() {
                println!(\"This fn is in a string\");
            }
        \"#;";
    let output = trace_all_impl(lex(&format!("fn legitimate_function() {body} {rest}")));
    let expected = format!(
        "{} {rest}",
        spanned(
            "fn legitimate_function()",
            "tracing::Level::INFO, \"legitimate_function\"",
            body
        ),
    );
    assert_tokens(&output, &expected);
}

#[test]
fn test_fn_keyword_in_various_contexts() {
    let output = trace_all_impl(lex(
        "fn real_function() { println!(\"Real function\"); }
        type FnPointer = fn() -> i32;
        fn function_with_fn_param(callback: fn(i32) -> String) -> String { callback(42) }
        fn returns_fn() -> fn() -> i32 { || 42 }
        trait MyTrait { fn trait_method(&self); }",
    ));
    let expected = format!(
        "{} type FnPointer = fn() -> i32; {} {} trait MyTrait {{ fn trait_method(&self); }}",
        spanned(
            "fn real_function()",
            "tracing::Level::INFO, \"real_function\"",
            "{ println!(\"Real function\"); }"
        ),
        spanned(
            "fn function_with_fn_param(callback: fn(i32) -> String) -> String",
            "tracing::Level::INFO, \"function_with_fn_param\", callback = callback",
            "{ callback(42) }"
        ),
        spanned("fn returns_fn() -> fn() -> i32", "tracing::Level::INFO, \"returns_fn\"", "{ || 42 }"),
    );
    assert_tokens(&output, &expected);
}

#[test]
fn test_basic_function_gets_instrumented() {
    let output = trace_all_impl(lex("fn real_function() { println!(\"Real function\"); }"));
    let expected = spanned("fn real_function()", "tracing::Level::INFO, \"real_function\"", "{ println!(\"Real function\"); }");
    assert_tokens(&output, &expected);
}

#[test]
fn test_ignores_type_alias_with_fn() {
    let source = "type FnPointer = fn() -> i32;";
    let output = trace_all_impl(lex(source));
    assert_tokens(&output, source);
}

#[test]
fn test_function_with_fn_type_parameter() {
    let output = trace_all_impl(lex("fn function_with_fn_param(callback: fn(i32) -> String) -> String { callback(42) }"));
    let expected = spanned("fn function_with_fn_param(callback: fn(i32) -> String) -> String", "tracing::Level::INFO, \"function_with_fn_param\", callback = callback", "{ callback(42) }");
    assert_tokens(&output, &expected);
}

#[test]
fn test_function_returning_fn_type() {
    let output = trace_all_impl(lex("fn returns_fn() -> fn() -> i32 { || 42 }"));
    let expected = spanned("fn returns_fn() -> fn() -> i32", "tracing::Level::INFO, \"returns_fn\"", "{ || 42 }");
    assert_tokens(&output, &expected);
}

#[test]
fn test_trait_method_declarations() {
    let source = "trait MyTrait { fn trait_method(&self); fn default_method(&self) { println!(\"This has a body and should be instrumented\"); } }";
    let expected = format!(
        "trait MyTrait {{ fn trait_method(&self); {} }}",
        spanned(
            "fn default_method(&self)",
            "tracing::Level::INFO, \"default_method\"",
            "{ println!(\"This has a body and should be instrumented\"); }"
        ),
    );
    assert_tokens(&trace_all_impl(lex(source)), &expected);
    assert_tokens(&TokenProcessor::new(lex(source)).process(), &expected);
}

#[test]
fn test_trait_with_default_method() {
    let output = trace_all_impl(lex("trait MyTrait { fn default_method(&self) { println!(\"This has a body and should be instrumented\"); } } struct MyStruct; impl MyTrait for MyStruct {} fn main() { let my_struct = MyStruct; my_struct.default_method(); }"));
    let expected = format!(
        "trait MyTrait {{ {} }} struct MyStruct; impl MyTrait for MyStruct {{}} {}",
        spanned(
            "fn default_method(&self)",
            "tracing::Level::INFO, \"default_method\"",
            "{ println!(\"This has a body and should be instrumented\"); }"
        ),
        spanned("fn main()", "tracing::Level::INFO, \"main\"", "{ let my_struct = MyStruct; my_struct.default_method(); }"),
    );
    assert_tokens(&output, &expected);
}

#[test]
fn test_trait_with_trait_method_and_default_method() {
    let output = trace_all_impl(lex("trait MyTrait { fn trait_method(&self); fn default_method(&self) { println!(\"This has a body and should be instrumented\"); } } struct MyStruct; impl MyTrait for MyStruct { fn trait_method(&self) { println!(\"This has an impl method and should be instrumented\"); } } fn main() { let my_struct = MyStruct; my_struct.default_method(); my_struct.trait_method(); }"));
    let expected = format!(
        "trait MyTrait {{ fn trait_method(&self); {} }} struct MyStruct; impl MyTrait for MyStruct {{ {} }} {}",
        spanned(
            "fn default_method(&self)",
            "tracing::Level::INFO, \"default_method\"",
            "{ println!(\"This has a body and should be instrumented\"); }"
        ),
        spanned(
            "fn trait_method(&self)",
            "tracing::Level::INFO, \"trait_method\"",
            "{ println!(\"This has an impl method and should be instrumented\"); }"
        ),
        spanned("fn main()", "tracing::Level::INFO, \"main\"", "{ let my_struct = MyStruct; my_struct.default_method(); my_struct.trait_method(); }"),
    );
    assert_tokens(&output, &expected);
}

#[test]
fn test_trait_with_trait_method_and_default_method_rev() {
    let output = trace_all_impl(lex("trait MyTrait { fn default_method(&self) { println!(\"This has a body and should be instrumented\"); } fn trait_method(&self); } struct MyStruct; impl MyTrait for MyStruct { fn trait_method(&self) { println!(\"This has an impl method and should be instrumented\"); } } fn main() { let my_struct = MyStruct; my_struct.default_method(); my_struct.trait_method(); }"));
    let expected = format!(
        "trait MyTrait {{ {} fn trait_method(&self); }} struct MyStruct; impl MyTrait for MyStruct {{ {} }} {}",
        spanned(
            "fn default_method(&self)",
            "tracing::Level::INFO, \"default_method\"",
            "{ println!(\"This has a body and should be instrumented\"); }"
        ),
        spanned(
            "fn trait_method(&self)",
            "tracing::Level::INFO, \"trait_method\"",
            "{ println!(\"This has an impl method and should be instrumented\"); }"
        ),
        spanned("fn main()", "tracing::Level::INFO, \"main\"", "{ let my_struct = MyStruct; my_struct.default_method(); my_struct.trait_method(); }"),
    );
    assert_tokens(&output, &expected);
}
