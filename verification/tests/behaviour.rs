#![allow(dead_code)]

use crustrace::token::{Delimiter, Token};
use crustrace::combinators::{scan_angle, scan_verbatim, Stop};
use crustrace::function_extractor::FunctionExtractor;
use crustrace::omnibus::{
    extract_functions, extract_tokens_between, extract_tokens_from, process_functions,
    process_impl_block, process_module,
};
use crustrace::parse::{parse_fn_sig, parse_module_items, parse_pattern};
use crustrace::syntax::{FnParam, ModuleItem, Pattern, SelfParam};
use crustrace::token_processors::TokenProcessor;
use crustrace::tracer::{
    extract_param_fields, failure_tokens, parse_instrument_args, parse_simple_function,
    InstrumentError,
};
use crustrace::{instrument_impl, trace_all_impl, FormatMode, LiteralKind};
use proc_macro2::{Spacing, TokenStream, TokenTree};

fn from_stream(stream: TokenStream) -> Vec<Token> {
    let mut out = Vec::new();
    for tree in stream {
        out.push(match tree {
            TokenTree::Ident(i) => Token::Ident(i.to_string()),
            TokenTree::Punct(p) => Token::Punct(p.as_char(), p.spacing() == Spacing::Joint),
            TokenTree::Literal(l) => Token::Literal(l.to_string()),
            TokenTree::Group(g) => {
                let delimiter = match g.delimiter() {
                    proc_macro2::Delimiter::Parenthesis => Delimiter::Parenthesis,
                    proc_macro2::Delimiter::Brace => Delimiter::Brace,
                    proc_macro2::Delimiter::Bracket => Delimiter::Bracket,
                    proc_macro2::Delimiter::None => Delimiter::Invisible,
                };
                Token::Group(delimiter, from_stream(g.stream()))
            }
        });
    }
    out
}

fn to_stream(tokens: &[Token]) -> TokenStream {
    let mut out = TokenStream::new();
    for token in tokens {
        let tree: TokenTree = match token {
            Token::Ident(text) => {
                TokenTree::Ident(proc_macro2::Ident::new(text, proc_macro2::Span::call_site()))
            }
            Token::Punct(c, joint) => TokenTree::Punct(proc_macro2::Punct::new(
                *c,
                if *joint { Spacing::Joint } else { Spacing::Alone },
            )),
            Token::Literal(text) => {
                TokenTree::Literal(text.parse::<proc_macro2::Literal>().unwrap())
            }
            Token::Group(d, inner) => {
                let delimiter = match d {
                    Delimiter::Parenthesis => proc_macro2::Delimiter::Parenthesis,
                    Delimiter::Brace => proc_macro2::Delimiter::Brace,
                    Delimiter::Bracket => proc_macro2::Delimiter::Bracket,
                    Delimiter::Invisible => proc_macro2::Delimiter::None,
                };
                TokenTree::Group(proc_macro2::Group::new(delimiter, to_stream(inner)))
            }
        };
        out.extend(std::iter::once(tree));
    }
    out
}

/// The tokens of a piece of source text.
fn lex(source: &str) -> Vec<Token> {
    from_stream(source.parse::<TokenStream>().unwrap())
}

/// The tokens as text.
fn show(tokens: &[Token]) -> String {
    to_stream(tokens).to_string()
}

/// The body that a function gets: the span with the given arguments, the
/// guard, and then `rest`.
fn body_with_span(span_args: &str, rest: &str) -> String {
    format!(
        "{{ let __tracing_attr_span = tracing::span!({span_args}); let __tracing_attr_guard = __tracing_attr_span.enter(); {rest} }}"
    )
}

/// A function with `header` whose own body `body` runs unchanged behind the span.
fn spanned(header: &str, span_args: &str, body: &str) -> String {
    format!("{header} {}", body_with_span(span_args, body))
}

/// A function with `header` whose own body `body` is wrapped to report what it returns.
fn spanned_ret(header: &str, span_args: &str, body: &str, level: &str, mark: &str) -> String {
    let rest = format!(
        "let __tracing_attr_ret = (|| {body})(); tracing::event!(tracing::Level::{level}, return_value = {mark} __tracing_attr_ret); __tracing_attr_ret"
    );
    format!("{header} {}", body_with_span(span_args, &rest))
}

/// Checks that `actual` holds the tokens of the source text `expected`.
fn assert_tokens(actual: &[Token], expected: &str) {
    let want = lex(expected);
    assert_eq!(show(actual), show(&want));
    assert!(actual == want.as_slice());
}


fn process(source: &str) -> Vec<Token> {
    TokenProcessor::new(lex(source)).process()
}

const INFO: &str = "tracing::Level::INFO";

#[test]
fn passthrough_keeps_every_token() {
    let source = "use a::b; struct S { x: i32 } static N: u8 = 1; type F = fn() -> i32; enum E { A, B(u8) }";
    assert_tokens(&process(source), source);
    assert_tokens(&trace_all_impl(lex(source)), source);
}

#[test]
fn passthrough_of_nothing_is_nothing() {
    assert!(process("").is_empty());
    assert!(trace_all_impl(Vec::new()).is_empty());
}

#[test]
fn two_named_parameters_give_two_fields_in_order() {
    let fields = extract_param_fields(&lex("(a: T, b: U)"));
    assert_eq!(fields, lex(", a = a, b = b"));
    assert_eq!(fields.len(), 8);
}

#[test]
fn receiver_and_one_parameter_give_one_field() {
    assert_eq!(extract_param_fields(&lex("(&self, v: i32)")), lex(", v = v"));
}

#[test]
fn lone_receiver_gives_no_field() {
    assert!(extract_param_fields(&lex("(&mut self)")).is_empty());
    assert!(extract_param_fields(&lex("(self)")).is_empty());
    assert!(extract_param_fields(&lex("(mut self)")).is_empty());
    assert!(extract_param_fields(&lex("(&self)")).is_empty());
}

#[test]
fn trailing_comma_in_parameters_is_accepted() {
    assert_eq!(extract_param_fields(&lex("(a: u8, b: u8,)")), lex(", a = a, b = b"));
}

#[test]
fn tuple_pattern_gives_its_names_at_any_depth() {
    assert_eq!(extract_param_fields(&lex("((a, b): Point, c: u8)")), lex(", a = a, b = b, c = c"));
    assert_eq!(extract_param_fields(&lex("(((a, b), c): Nested)")), lex(", a = a, b = b, c = c"));
    assert_eq!(extract_param_fields(&lex("(mut (x, y): Point)")), lex(", x = x, y = y"));
}

#[test]
fn opaque_pattern_gives_no_name() {
    // `&x` is no name and no tuple: it is kept as tokens and gives no field.
    assert!(extract_param_fields(&lex("(&x: T)")).is_empty());
    assert_eq!(extract_param_fields(&lex("(&x: T, z: u8)")), lex(", z = z"));
    // A struct pattern is not understood at all, so the list gives no field.
    assert!(extract_param_fields(&lex("(Point { x, y }: Point, z: u8)")).is_empty());
}

#[test]
fn parameters_that_are_not_a_group_give_no_field() {
    assert!(extract_param_fields(&lex("a: u8")).is_empty());
    assert!(extract_param_fields(&Vec::new()).is_empty());
    assert!(extract_param_fields(&lex("[a: u8]")).is_empty());
}

#[test]
fn pattern_shapes() {
    let tokens = lex("(a, (b, c)): T");
    let (pattern, end) = parse_pattern(&tokens, 0).unwrap();
    assert_eq!(end, 1);
    match &pattern {
        Pattern::Tuple(fields) => {
            assert_eq!(fields.len(), 2);
            assert!(matches!(&fields[0].pattern, Pattern::Ident(n) if n == "a"));
            assert_eq!(fields[0].comma, Some(false));
            assert!(matches!(&fields[1].pattern, Pattern::Tuple(inner) if inner.len() == 2));
            assert_eq!(fields[1].comma, None);
        }
        _ => panic!("expected a tuple pattern"),
    }
    assert_eq!(pattern.extract_identifiers(), vec!["a".to_string(), "b".to_string(), "c".to_string()]);
    let mut out = Vec::new();
    pattern.to_tokens(&mut out);
    assert_eq!(out, lex("(a, (b, c))"));

    let tokens = lex("&x: T");
    let (pattern, end) = parse_pattern(&tokens, 0).unwrap();
    assert_eq!(end, 2);
    assert!(matches!(&pattern, Pattern::Other(t) if *t == lex("&x")));
    assert!(pattern.extract_identifiers().is_empty());

    assert!(parse_pattern(&lex(": T"), 0).is_none());
    assert!(parse_pattern(&Vec::new(), 0).is_none());
}

#[test]
fn function_in_module_impl_and_trait_is_found() {
    let output = process("mod outer { impl Type { trait Inner { fn target(x: u8) { work(x) } } } }");
    let expected = format!(
        "mod outer {{ impl Type {{ trait Inner {{ {} }} }} }}",
        spanned("fn target(x: u8)", &format!("{INFO}, \"target\", x = x"), "{ work(x) }")
    );
    assert_tokens(&output, &expected);
}

#[test]
fn functions_at_every_depth_are_found() {
    let output = process(
        "fn top() {} pub mod a { fn one() {} mod b { fn two() {} mod c { fn three() {} } } }",
    );
    let expected = format!(
        "{} pub mod a {{ {} mod b {{ {} mod c {{ {} }} }} }}",
        spanned("fn top()", &format!("{INFO}, \"top\""), "{}"),
        spanned("fn one()", &format!("{INFO}, \"one\""), "{}"),
        spanned("fn two()", &format!("{INFO}, \"two\""), "{}"),
        spanned("fn three()", &format!("{INFO}, \"three\""), "{}"),
    );
    assert_tokens(&output, &expected);
}

#[test]
fn method_without_body_stays_and_default_method_is_instrumented() {
    let output = process("pub unsafe trait T: Send { fn required(&self); fn given(&self) -> u8 { 1 } }");
    let expected = format!(
        "pub unsafe trait T: Send {{ fn required(&self); {} }}",
        spanned("fn given(&self) -> u8", &format!("{INFO}, \"given\""), "{ 1 }")
    );
    assert_tokens(&output, &expected);
}

#[test]
fn declaration_that_ends_with_a_semicolon_is_passed_through() {
    let b = spanned("fn b()", &format!("{INFO}, \"b\""), "{}");
    for declaration in [
        "fn a();",
        "fn a() -> i32;",
        "fn a<T>(x: T) -> Vec<T>;",
        "fn a<T>() where T: Clone;",
        "fn a<T>() -> T where T: Clone, T: Copy;",
        "pub unsafe extern \"C\" fn a() -> i32;",
    ] {
        let source = format!("{declaration} fn b() {{}}");
        assert!(parse_fn_sig(&lex(&source), 0).is_none(), "{declaration}");
        let expected = format!("{declaration} {b}");
        assert_tokens(&process(&source), &expected);
        assert_tokens(&trace_all_impl(lex(&source)), &expected);
    }
    let output = process("trait T { fn a(&self) -> i32; fn b(&self) { 1 } }");
    let expected = format!(
        "trait T {{ fn a(&self) -> i32; {} }}",
        spanned("fn b(&self)", &format!("{INFO}, \"b\""), "{ 1 }")
    );
    assert_tokens(&output, &expected);
    // An opaque type behind `impl` that is no block does not reach over its `;`.
    let output = process("type A = impl Sized; fn b() {}");
    assert_tokens(&output, &format!("type A = impl Sized; {b}"));
}

#[test]
fn braces_inside_angle_brackets_are_no_body() {
    let inner = spanned("fn f()", &format!("{INFO}, \"f\""), "{}");
    assert_tokens(
        &process("impl Trait<{ N }> for Type<{ M }> { fn f() {} }"),
        &format!("impl Trait<{{ N }}> for Type<{{ M }}> {{ {inner} }}"),
    );
    assert_tokens(
        &process("trait T: Base<{ N }> { fn f() {} }"),
        &format!("trait T: Base<{{ N }}> {{ {inner} }}"),
    );
    assert_tokens(
        &process("fn f() -> Array<{ N }> {}"),
        &spanned("fn f() -> Array<{ N }>", &format!("{INFO}, \"f\""), "{}"),
    );
}

#[test]
fn arrows_inside_angle_brackets() {
    let output = process("fn apply<F: Fn(i32) -> i32>(f: F) -> i32 { f(1) }");
    assert_tokens(
        &output,
        &spanned(
            "fn apply<F: Fn(i32) -> i32>(f: F) -> i32",
            &format!("{INFO}, \"apply\", f = f"),
            "{ f(1) }",
        ),
    );
    assert_eq!(
        extract_param_fields(&lex("(x: Foo<dyn Fn() -> A, B>, y: u8)")),
        lex(", x = x, y = y")
    );
}

#[test]
fn where_clause_is_a_part_of_its_own() {
    let (sig, _) = parse_fn_sig(&lex("fn f<T>(x: T) -> T where T: Clone + Into<u8> , { x }"), 0).unwrap();
    assert_eq!(sig.return_type.as_ref().unwrap().return_type, lex("T"));
    let clauses = &sig.where_clause.as_ref().unwrap().clauses;
    assert_eq!(clauses.len(), 1);
    assert_eq!(clauses[0].bounds, lex("Clone + Into<u8>"));
    assert_eq!(clauses[0].comma, Some(false));
    let items = parse_module_items(&lex("impl<T> A<T> for B<T> where T: C {} trait D: E where F: G {} impl H where I: J {}"), 0);
    assert_eq!(items.len(), 3);
    match &items[0] {
        ModuleItem::ImplBlock(b) => {
            assert_eq!(b.target_type, lex("A<T>"));
            assert_eq!(b.for_trait.as_ref().unwrap(), &lex("B<T>"));
            assert_eq!(b.where_clause.as_ref().unwrap().clauses.len(), 1);
        }
        _ => panic!("expected an impl block"),
    }
    match &items[1] {
        ModuleItem::Trait(t) => {
            assert_eq!(t.bounds.as_ref().unwrap().bounds, lex("E"));
            assert_eq!(t.where_clause.as_ref().unwrap().clauses[0].pred, lex("F"));
        }
        _ => panic!("expected a trait"),
    }
    match &items[2] {
        ModuleItem::ImplBlock(b) => {
            assert_eq!(b.target_type, lex("H"));
            assert!(b.for_trait.is_none());
            assert_eq!(b.where_clause.as_ref().unwrap().clauses[0].bounds, lex("J"));
        }
        _ => panic!("expected an impl block"),
    }
}

#[test]
fn container_headers_stay_as_they_are() {
    let output = process(
        "#[cfg(test)] impl<T: Clone> Trait<T> for Type<T> { #[inline] pub(crate) const fn get(&self) -> u8 { 0 } }",
    );
    let expected = format!(
        "#[cfg(test)] impl<T: Clone> Trait<T> for Type<T> {{ {} }}",
        spanned("#[inline] pub(crate) const fn get(&self) -> u8", &format!("{INFO}, \"get\""), "{ 0 }")
    );
    assert_tokens(&output, &expected);
}

#[test]
fn items_are_classified_in_order() {
    let tokens = lex("struct S; fn f() {} impl S {} mod m {} trait T {}");
    let items = parse_module_items(&tokens, 0);
    assert_eq!(items.len(), 7);
    assert!(matches!(&items[0], ModuleItem::Other(Token::Ident(s)) if s == "struct"));
    assert!(matches!(&items[1], ModuleItem::Other(Token::Ident(s)) if s == "S"));
    assert!(matches!(&items[2], ModuleItem::Other(Token::Punct(';', false))));
    assert!(matches!(&items[3], ModuleItem::Function(f) if f.name == "f"));
    assert!(matches!(&items[4], ModuleItem::ImplBlock(b) if b.target_type == lex("S")));
    assert!(matches!(&items[5], ModuleItem::Module(m) if m.name == "m"));
    assert!(matches!(&items[6], ModuleItem::Trait(t) if t.name == "T"));
    let mut again = Vec::new();
    for item in &items {
        item.to_tokens(&mut again);
    }
    assert_eq!(again, tokens);
}

#[test]
fn bare_ret_renders_field_by_field() {
    let args = parse_instrument_args(&lex("ret")).unwrap();
    assert_eq!(args.ret_args.unwrap().format_mode(), FormatMode::Debug);
    let args = parse_instrument_args(&lex("ret()")).unwrap();
    assert_eq!(args.ret_args.unwrap().format_mode(), FormatMode::Debug);
    let args = parse_instrument_args(&lex("ret(level = \"warn\")")).unwrap();
    assert_eq!(args.ret_args.unwrap().format_mode(), FormatMode::Debug);
    assert_eq!(FormatMode::default(), FormatMode::Debug);
}

#[test]
fn first_format_mode_and_first_level_win() {
    let args = parse_instrument_args(&lex("ret(Display, Debug)")).unwrap();
    assert_eq!(args.ret_args.unwrap().format_mode(), FormatMode::Display);
    let args = parse_instrument_args(&lex("ret(Debug, Display)")).unwrap();
    assert_eq!(args.ret_args.unwrap().format_mode(), FormatMode::Debug);
    let args = parse_instrument_args(&lex("ret(level = \"warn\", level = \"error\",)")).unwrap();
    let ret = args.ret_args.unwrap();
    assert_eq!(ret.custom_level().map(|l| l.value.clone()), Some("warn".to_string()));
    let args = parse_instrument_args(&lex("ret")).unwrap();
    assert!(args.ret_args.unwrap().custom_level().is_none());
}

#[test]
fn return_event_has_the_level_of_the_span_unless_it_has_its_own() {
    let item = "fn f() -> u8 { 1 }";
    let inherited = instrument_impl(lex("level = \"debug\", ret"), lex(item)).unwrap();
    assert_tokens(
        &inherited,
        &spanned_ret("fn f() -> u8", "tracing::Level::DEBUG, \"f\"", "{ 1 }", "DEBUG", "?"),
    );
    let overridden =
        instrument_impl(lex("level = \"info\", ret(level = \"error\")"), lex(item)).unwrap();
    assert_tokens(
        &overridden,
        &spanned_ret("fn f() -> u8", "tracing::Level::INFO, \"f\"", "{ 1 }", "ERROR", "?"),
    );
}

#[test]
fn every_level_has_its_constant() {
    for (level, constant) in
        [("trace", "TRACE"), ("debug", "DEBUG"), ("info", "INFO"), ("warn", "WARN"), ("error", "ERROR")]
    {
        let output =
            instrument_impl(lex(&format!("level = \"{level}\"")), lex("fn f() {}")).unwrap();
        assert_tokens(
            &output,
            &spanned("fn f()", &format!("tracing::Level::{constant}, \"f\""), "{}"),
        );
    }
}

#[test]
fn later_level_name_and_target_replace_earlier_ones() {
    let output = instrument_impl(
        lex("level = \"debug\", name = \"a\", target = \"t1\", level = \"warn\", name = \"b\", target = \"t2\""),
        lex("fn f() {}"),
    )
    .unwrap();
    assert_tokens(
        &output,
        &spanned("fn f()", "target: \"t2\", tracing::Level::WARN, \"b\"", "{}"),
    );
}

#[test]
fn keyword_outside_a_definition_makes_no_function() {
    for source in [
        "const TEXT: &str = \"fn inside_a_string() {}\";",
        "static HANDLER: fn(i32) -> i32 = double;",
        "type Callback = fn() -> i32;",
        "struct S { f: fn(u8) -> u8 }",
        "fn declared_only();",
        "fn;",
    ] {
        assert_tokens(&process(source), source);
        assert!(!show(&trace_all_impl(lex(source))).contains("tracing"));
        assert!(parse_module_items(&lex(source), 0)
            .iter()
            .all(|item| !matches!(item, ModuleItem::Function(_))));
    }
}

#[test]
fn second_ret_is_refused() {
    assert_eq!(parse_instrument_args(&lex("ret, ret")).unwrap_err(), InstrumentError::DuplicateRet);
    assert_eq!(
        parse_instrument_args(&lex("ret(Debug), level = \"info\", ret(Display)")).unwrap_err(),
        InstrumentError::DuplicateRet
    );
    let failure = instrument_impl(lex("ret, ret"), lex("fn f() {}")).unwrap_err();
    assert_tokens(
        &failure,
        "compile_error!(\"expected only a single `ret` argument, found a duplicate\")",
    );
}

#[test]
fn arguments_that_are_not_understood_are_refused() {
    for source in [
        "foo = 1",
        "level = 5",
        "level",
        "level = \"debug\" name = \"x\"",
        "ret(Invalid)",
        "ret(level = warn)",
        "ret[Debug]",
        ", ret",
        "ret,,",
        "name = r\"raw\"",
        "parent =",
        "skip(x)",
    ] {
        assert_eq!(
            parse_instrument_args(&lex(source)).unwrap_err(),
            InstrumentError::UnrecognizedArgs,
            "{source}"
        );
        assert!(instrument_impl(lex(source), lex("fn f() {}")).is_err());
    }
}

#[test]
fn unknown_levels_are_refused() {
    for source in ["level = \"loud\"", "level = \"INFO\"", "ret(level = \"loud\")", "level = \"\""] {
        assert_eq!(
            parse_instrument_args(&lex(source)).unwrap_err(),
            InstrumentError::InvalidLevel,
            "{source}"
        );
    }
    // The first thing that is wrong decides.
    assert_eq!(
        parse_instrument_args(&lex("level = \"loud\", ret, ret")).unwrap_err(),
        InstrumentError::InvalidLevel
    );
    assert_eq!(
        parse_instrument_args(&lex("ret, ret, level = \"loud\"")).unwrap_err(),
        InstrumentError::DuplicateRet
    );
    assert_eq!(
        parse_instrument_args(&lex("ret, ret, nonsense")).unwrap_err(),
        InstrumentError::UnrecognizedArgs
    );
}

#[test]
fn what_is_no_function_is_refused() {
    for source in [
        "struct S;",
        "fn f();",
        "",
        "mod m { fn f() {} }",
        "fn f() -> {}",
        "fn f(x) {}",
        "fn a() -> i32; fn b() {}",
    ] {
        assert_eq!(
            parse_simple_function(&lex(source)).unwrap_err(),
            InstrumentError::NotAFunction,
            "{source}"
        );
        let failure = instrument_impl(Vec::new(), lex(source)).unwrap_err();
        assert_tokens(
            &failure,
            "compile_error!(\"Failed to parse function: expected a function with a body\")",
        );
    }
    // A request that is refused is reported before an item that is no function.
    let failure = instrument_impl(lex("ret, ret"), lex("struct S;")).unwrap_err();
    assert!(show(&failure).contains("duplicate"));
}

#[test]
fn messages_and_failures() {
    assert_eq!(
        InstrumentError::DuplicateRet.message(),
        "expected only a single `ret` argument, found a duplicate"
    );
    assert!(InstrumentError::UnrecognizedArgs.message().starts_with("Failed to parse instrument args: unknown"));
    assert!(InstrumentError::InvalidLevel.message().contains("unknown level"));
    assert!(InstrumentError::NotAFunction.message().starts_with("Failed to parse function"));
    let failure = failure_tokens(InstrumentError::InvalidLevel);
    assert_eq!(failure.len(), 3);
    assert_eq!(failure[0], Token::Ident("compile_error".to_string()));
    assert_eq!(failure[1], Token::Punct('!', false));
    match &failure[2] {
        Token::Group(Delimiter::Parenthesis, inner) => {
            // The quotes inside the message are escaped in the literal.
            assert_eq!(
                inner,
                &vec![Token::Literal(
                    "\"Failed to parse instrument args: unknown level, expected \\\"trace\\\", \\\"debug\\\", \\\"info\\\", \\\"warn\\\" or \\\"error\\\"\"".to_string()
                )]
            );
        }
        _ => panic!("expected a parenthesis group"),
    }
}

#[test]
fn add_gets_a_span_and_keeps_its_body() {
    let output = instrument_impl(Vec::new(), lex("fn add(a: i32, b: i32) -> i32 { a + b }")).unwrap();
    assert_tokens(
        &output,
        "fn add(a: i32, b: i32) -> i32 {
            let __tracing_attr_span = tracing::span!(tracing::Level::INFO, \"add\", a = a, b = b);
            let __tracing_attr_guard = __tracing_attr_span.enter();
            { a + b }
        }",
    );
    // The name of the span is a string literal, not the bare name.
    match output.last() {
        Some(Token::Group(Delimiter::Brace, body)) => match &body[8] {
            Token::Group(Delimiter::Parenthesis, inner) => {
                assert_eq!(inner[8], Token::Literal("\"add\"".to_string()));
            }
            other => panic!("expected the arguments of the span, found {:?}", other),
        },
        other => panic!("expected a body, found {:?}", other),
    }
}

#[test]
fn names_are_escaped_in_their_literal() {
    let output = instrument_impl(lex("name = \"say \\\"hi\\\"\""), lex("fn f() {}")).unwrap();
    // What stands between the quotes of the argument is taken as it stands, and the
    // literal that holds it escapes it once more.
    assert!(output.iter().any(|t| match t {
        Token::Group(_, body) => body.iter().any(|t| match t {
            Token::Group(_, inner) =>
                inner.contains(&Token::Literal("\"say \\\\\\\"hi\\\\\\\"\"".to_string())),
            _ => false,
        }),
        _ => false,
    }));
}

#[test]
fn tokens_behind_the_function_stay_behind_it() {
    let output = instrument_impl(Vec::new(), lex("fn f() {} struct Rest; fn g() {}")).unwrap();
    assert_tokens(
        &output,
        &format!("{} struct Rest; fn g() {{}}", spanned("fn f()", &format!("{INFO}, \"f\""), "{}")),
    );
    let func = parse_simple_function(&lex("fn f() {} struct Rest;")).unwrap();
    assert_eq!(func.rest, lex("struct Rest;"));
    assert_eq!(func.body, lex("{}"));
    assert_eq!(func.params, lex("()"));
    assert_eq!(func.fn_name, "f");
}

#[test]
fn signature_parts() {
    let tokens = lex("#[a] #[b(c)] pub(in x::y) const async unsafe extern \"C\" fn name<'a, T: Into<U>>(&self, x: u8) where T: Clone, U: Copy, { body }");
    let (sig, end) = parse_fn_sig(&tokens, 0).unwrap();
    assert_eq!(end, tokens.len());
    assert_eq!(sig.attributes.len(), 2);
    assert_eq!(sig.attributes[1].content, lex("b(c)"));
    assert!(sig.const_kw && sig.async_kw && sig.unsafe_kw);
    assert_eq!(sig.name, "name");
    assert_eq!(sig.generics.as_ref().unwrap().content.len(), 9);
    assert_eq!(sig.params.len(), 2);
    // `&'a self` is no receiver that the grammar knows, and no other parameter either.
    assert!(parse_fn_sig(&lex("fn f(&'a self) {}"), 0).is_none());
    assert!(sig.return_type.is_none());
    // A return type ends where the `where` clause begins.
    let (with_return, _) = parse_fn_sig(&lex("fn f() -> Vec<T> where T: Clone { body }"), 0).unwrap();
    assert_eq!(with_return.return_type.as_ref().unwrap().return_type, lex("Vec<T>"));
    let clauses = &with_return.where_clause.as_ref().unwrap().clauses;
    assert_eq!(clauses.len(), 1);
    assert_eq!(clauses[0].pred, lex("T"));
    assert_eq!(clauses[0].bounds, lex("Clone"));
    assert_eq!(clauses[0].comma, None);
    let clauses = &sig.where_clause.as_ref().unwrap().clauses;
    assert_eq!(clauses.len(), 2);
    assert_eq!(clauses[0].pred, lex("T"));
    assert_eq!(clauses[0].bounds, lex("Clone"));
    assert_eq!(clauses[1].comma, Some(false));
    assert_eq!(sig.body, lex("body"));
    assert_eq!(sig.tokens(), tokens);
}

#[test]
fn receivers() {
    for (source, expected) in [
        ("fn f(self) {}", SelfParam::Value),
        ("fn f(&self) {}", SelfParam::Ref(false)),
        ("fn f(&mut self) {}", SelfParam::RefMut(false)),
        ("fn f(mut self) {}", SelfParam::Mut),
    ] {
        let (sig, _) = parse_fn_sig(&lex(source), 0).unwrap();
        assert!(matches!(&sig.params[0].value, FnParam::SelfParam(s) if *s == expected));
    }
}

#[test]
fn order_of_qualifiers_is_fixed() {
    assert!(parse_fn_sig(&lex("async const fn f() {}"), 0).is_none());
    assert!(parse_fn_sig(&lex("unsafe async fn f() {}"), 0).is_none());
    assert!(parse_fn_sig(&lex("const async unsafe extern fn f() {}"), 0).is_some());
    assert!(parse_fn_sig(&lex("fn f {}"), 0).is_none());
    assert!(parse_fn_sig(&lex("fn f()"), 0).is_none());
    assert!(parse_fn_sig(&lex("fn f() ;"), 0).is_none());
    assert!(parse_fn_sig(&lex("fn f<>() {}"), 0).is_none());
    assert!(parse_fn_sig(&lex("x fn f() {}"), 0).is_none());
    assert!(parse_fn_sig(&lex("x fn f() {}"), 1).is_some());
}

#[test]
fn runs_and_units() {
    let tokens = lex("a < b , c > , d { e } f");
    // `< b , c >` is one unit, so the run ends at the comma behind it.
    assert_eq!(scan_angle(&tokens, 1), 6);
    assert_eq!(scan_verbatim(&tokens, 0, Stop::Comma), 6);
    assert_eq!(scan_verbatim(&tokens, 0, Stop::WhereOrEnd), 8);
    assert_eq!(scan_verbatim(&tokens, 0, Stop::Colon), tokens.len());
    assert_eq!(scan_verbatim(&tokens, 6, Stop::Comma), 6);
    // A `<` that is never closed is a unit by itself.
    let open = lex("a < b , c");
    assert_eq!(scan_angle(&open, 1), 2);
    assert_eq!(scan_verbatim(&open, 0, Stop::Comma), 3);
    assert_eq!(scan_verbatim(&lex("x for y"), 0, Stop::ForOrWhereOrEnd), 1);
    assert_eq!(scan_verbatim(&lex("x where y"), 0, Stop::ForOrWhereOrEnd), 1);
    assert_eq!(scan_verbatim(&lex("x for y where z"), 0, Stop::WhereOrEnd), 3);
    assert_eq!(scan_verbatim(&lex("x (y) z"), 0, Stop::CommaOrParen), 1);
    assert_eq!(scan_verbatim(&lex("x , z"), 0, Stop::CommaOrEnd), 1);
    assert_eq!(scan_verbatim(&lex("x y : z"), 0, Stop::ColonOrEnd), 2);
    // No run of an item's header reaches over a `;`, and no `<…>` does.
    for stop in [Stop::ColonOrEnd, Stop::CommaOrEnd, Stop::WhereOrEnd, Stop::ForOrWhereOrEnd] {
        assert_eq!(scan_verbatim(&lex("x y ; z"), 0, stop), 2);
        assert_eq!(scan_verbatim(&lex("x y { } z"), 0, stop), 2);
    }
    // The `>` of an arrow closes nothing.
    assert_eq!(scan_angle(&lex("< a -> b > c"), 0), 6);
    assert_eq!(scan_verbatim(&lex("Foo<dyn Fn() -> A, B>, y"), 0, Stop::Comma), 11);
    let cut = lex("a < b ; c > d");
    assert_eq!(scan_angle(&cut, 1), 2);
    assert_eq!(scan_verbatim(&cut, 0, Stop::WhereOrEnd), 3);
    assert_eq!(scan_verbatim(&cut, 0, Stop::Comma), cut.len());
}

#[test]
fn scanner_finds_functions_by_shape() {
    let tokens = lex("struct S; pub fn a() {} fn b(); fn c() {} pub(crate) fn d() {}");
    let found = FunctionExtractor::extract(lex("struct S; pub fn a() {} fn b(); fn c() {} pub(crate) fn d() {}"));
    let spans: Vec<(usize, usize)> = found.iter().map(|f| (f.start, f.end)).collect();
    assert_eq!(spans, vec![(3, 8), (12, 16), (18, 22)]);
    assert_eq!(found[0].tokens, lex("pub fn a() {}"));
    assert_eq!(found[1].tokens, lex("fn c() {}"));
    assert_eq!(found[2].tokens, lex("fn d() {}"));
    assert!(FunctionExtractor::is_function_start(&tokens, 3));
    assert!(!FunctionExtractor::is_function_start(&tokens, 4));
    assert!(FunctionExtractor::is_function_start(&tokens, 8));
    assert!(!FunctionExtractor::is_function_start(&tokens, 0));
    assert!(!FunctionExtractor::is_function_start(&tokens, 99));
    assert_eq!(FunctionExtractor::find_function_end(&tokens, 3), Some(7));
    assert_eq!(FunctionExtractor::find_function_end(&tokens, 8), None);
    assert_eq!(FunctionExtractor::find_function_end(&tokens, 99), None);
    assert!(FunctionExtractor::try_extract_function(&tokens, 8).is_none());
    assert!(FunctionExtractor::try_extract_function(&tokens, 0).is_none());
    assert!(FunctionExtractor::extract(Vec::new()).is_empty());
}

#[test]
fn flat_scan_skips_what_ends_with_a_semicolon() {
    let tokens = lex("fn b(); fn c() {} x");
    let found = extract_functions(&tokens);
    assert_eq!(found.len(), 1);
    assert_eq!((found[0].start, found[0].end), (4, 8));
    assert_eq!(found[0].tokens, lex("fn c() {}"));
    assert_tokens(
        &process_functions(lex("fn b(); fn c() {} x")),
        &format!("fn b(); {} x", spanned("fn c()", &format!("{INFO}, \"c\""), "{}")),
    );
    // What looks like a function and is none stays as it is.
    assert_tokens(&process_functions(lex("fn b {} fn c() {}")), &format!(
        "fn b {{}} {}",
        spanned("fn c()", &format!("{INFO}, \"c\""), "{}")
    ));
    assert_eq!(extract_tokens_between(&tokens, 1, 3), lex("b()"));
    assert!(extract_tokens_between(&tokens, 3, 3).is_empty());
    assert!(extract_tokens_between(&tokens, 4, 3).is_empty());
    assert!(extract_tokens_between(&tokens, 3, 99).is_empty());
    assert_eq!(extract_tokens_from(&tokens, 8), lex("x"));
    assert!(extract_tokens_from(&tokens, 9).is_empty());
    assert!(extract_tokens_from(&tokens, 99).is_empty());
}

#[test]
fn scan_of_module_and_impl() {
    // A module is entered only where `mod` is the first token.
    let inner = spanned("fn f()", &format!("{INFO}, \"f\""), "{}");
    assert_tokens(&trace_all_impl(lex("mod m { fn f() {} }")), &format!("mod m {{ {inner} }}"));
    assert_tokens(&trace_all_impl(lex("mod m { mod n { fn f() {} } }")), &format!("mod m {{ mod n {{ {inner} }} }}"));
    assert_tokens(&trace_all_impl(lex("pub mod m { fn f() {} }")), &format!("pub mod m {{ {inner} }}"));
    assert_tokens(
        &trace_all_impl(lex("#[cfg(test)] mod t { fn f() {} }")),
        &format!("#[cfg(test)] mod t {{ {inner} }}"),
    );
    assert_tokens(&process_module(lex("mod m { impl A { fn f() {} } }")), &format!("mod m {{ impl A {{ {inner} }} }}"));
    assert_tokens(
        &process_impl_block(lex("impl A { fn f() {} }")),
        &format!("impl A {{ {inner} }}"),
    );
    assert_tokens(&trace_all_impl(lex("mod m;")), "mod m;");
    assert_tokens(&trace_all_impl(lex("mod m")), "mod m");
    assert_tokens(&trace_all_impl(lex("mod m { fn f() {} } struct S;")), &format!("mod m {{ {inner} }} struct S;"));
    assert_tokens(
        &trace_all_impl(lex("impl<T> A for B<T> { fn f() {} } struct S;")),
        &format!("impl<T> A for B<T> {{ {inner} }} struct S;"),
    );
    assert_tokens(&process_impl_block(lex("impl A")), "impl A");
    assert_tokens(&trace_all_impl(lex("pub fn f() {} pub fn g(x: u8) {}")), &format!(
        "{} {}",
        spanned("pub fn f()", &format!("{INFO}, \"f\""), "{}"),
        spanned("pub fn g(x: u8)", &format!("{INFO}, \"g\", x = x"), "{}"),
    ));
}

#[test]
fn deep_clone_copies_groups() {
    let tokens = lex("a ( b [ c { d } ] ) \"s\" 1 +=");
    let copy: Vec<Token> = tokens.iter().map(|t| t.deep_clone()).collect();
    assert_eq!(copy, tokens);
    assert_eq!(crustrace::token::clone_tokens(&tokens), tokens);
    assert_eq!(crustrace::token::clone_range(&tokens, 1, 3), lex("( b [ c { d } ] ) \"s\""));
    assert!(tokens[0].is_ident("a") && !tokens[0].is_ident("b") && tokens[0].is_any_ident());
    assert!(tokens[1].is_group(Delimiter::Parenthesis) && !tokens[1].is_group(Delimiter::Brace));
    assert!(tokens[4].is_punct('+') && tokens[4].joint_flag());
    assert!(tokens[5].is_punct('=') && !tokens[5].joint_flag());
    assert_eq!(Token::ident("x"), Token::Ident("x".to_string()));
    assert_eq!(Token::alone(';'), Token::Punct(';', false));
    assert_eq!(Token::joint(':'), Token::Punct(':', true));
    assert_eq!(Token::literal("1"), Token::Literal("1".to_string()));
    assert_eq!(Token::group(Delimiter::Bracket, lex("a")), lex("[a]")[0]);
}

#[test]
fn kinds_of_literals() {
    let tokens = lex("\"text\" 1 'c' r\"raw\" b\"bytes\" \"\" name");
    let kinds: Vec<Option<LiteralKind>> = tokens.iter().map(|t| t.literal_kind()).collect();
    assert_eq!(
        kinds,
        vec![
            Some(LiteralKind::Str),
            Some(LiteralKind::Other),
            Some(LiteralKind::Other),
            Some(LiteralKind::Other),
            Some(LiteralKind::Other),
            Some(LiteralKind::Str),
            None,
        ]
    );
    assert_eq!(Token::Literal("\"".to_string()).literal_kind(), Some(LiteralKind::Other));
}
