use crustrace::mermaid::{clean_field_value, decimal_string};
use crustrace::{escape_mermaid, CallNode, GroupingMode, MermaidLayer, ParamRenderMode};

const STYLES: &str = "
classDef func fill:#c6f6d5,stroke:#2f855a,stroke-width:2px,color:#22543d;
classDef data fill:#bee3f8,stroke:#2b6cb0,stroke-width:1.5px,color:#1a365d;
classDef params fill:none,stroke:#e53e3e,stroke-width:2px,color:#742a2a;
";

/// A call with fields rendered as `Debug` renders them.
fn call(name: &str, fields: &[(&str, String)]) -> CallNode {
    let mut node = CallNode::new(name.to_string());
    for (key, raw) in fields {
        node.record_field(key.to_string(), raw);
    }
    node
}

fn debug<T: std::fmt::Debug>(value: T) -> String {
    format!("{:?}", value)
}

/// What `outer(10, 20)` records when it calls `inner(a + 1, b / 10)` and `inner(a * 2, b / 20)`.
fn outer_call() -> CallNode {
    let mut outer = call("outer", &[("a", debug(10)), ("b", debug(20))]);
    outer.add_child(call("inner", &[("x", debug(11)), ("y", debug(2))]));
    outer.add_child(call("inner", &[("x", debug(20)), ("y", debug(1))]));
    outer
}

fn layer_with(layer: MermaidLayer, root: CallNode) -> MermaidLayer {
    let mut layer = layer.without_auto_flush();
    assert!(!layer.record_root(root));
    layer
}

const OUTER_NODES: &str = "flowchart TD
subgraph Params1[\" \"]
  P2_0[\"a = 10\"]:::data
  P2_1[\"b = 20\"]:::data
  P2_0 --- P2_1
end
F1[\"outer()\"]:::func
Params1 --> F1
";

const INNER_NODES: &str = "subgraph Params2[\" \"]
  P3_0[\"x = 11\"]:::data
  P3_1[\"y = 2\"]:::data
  P3_0 --- P3_1
end
F2[\"inner()\"]:::func
Params2 --> F2
";

const SECOND_INNER_NODES: &str = "subgraph Params3[\" \"]
  P4_0[\"x = 20\"]:::data
  P4_1[\"y = 1\"]:::data
  P4_0 --- P4_1
end
F3[\"inner()\"]:::func
Params3 --> F3
";

#[test]
fn snapshot_merge_by_name() {
    let layer = layer_with(MermaidLayer::new().with_mode(GroupingMode::MergeByName), outer_call());
    let expected = format!(
        "{OUTER_NODES}subgraph innerCalls[\"inner(...)\"]\n  direction TB\n{INNER_NODES}{SECOND_INNER_NODES}end\n  F1 --> Params2\n  F1 --> Params3\n{STYLES}class Params1,Params2,Params3 params;\n"
    );
    assert_eq!(layer.render(), expected);
}

#[test]
fn snapshot_unique_per_call() {
    let layer =
        layer_with(MermaidLayer::new().with_mode(GroupingMode::UniquePerCall), outer_call());
    let expected = format!(
        "{OUTER_NODES}{INNER_NODES}  F1 --> Params2\n{SECOND_INNER_NODES}  F1 --> Params3\n{STYLES}class Params1,Params2,Params3 params;\n"
    );
    assert_eq!(layer.render(), expected);
}

const SINGLE_NODES: &str = "flowchart TD
F1[\"outer()\"]:::func
PK1[\"outer(params):
\u{2022} a = 10
\u{2022} b = 20\"]:::data
F1 -.-> PK1
F2[\"inner()\"]:::func
PK2[\"inner(params):
\u{2022} x = 11
\u{2022} y = 2\"]:::data
F2 -.-> PK2
  F1 --> F2
F3[\"inner()\"]:::func
PK3[\"inner(params):
\u{2022} x = 20
\u{2022} y = 1\"]:::data
F3 -.-> PK3
  F1 --> F3
";

#[test]
fn snapshot_single_node() {
    let layer = layer_with(
        MermaidLayer::new().with_params_mode(ParamRenderMode::SingleNode),
        outer_call(),
    );
    assert_eq!(layer.render(), format!("{SINGLE_NODES}{STYLES}"));
}

#[test]
fn snapshot_single_node_grouped() {
    let layer = layer_with(
        MermaidLayer::new().with_params_mode(ParamRenderMode::SingleNodeGrouped),
        outer_call(),
    );
    let expected = format!(
        "{SINGLE_NODES}subgraph ParamsKey[\"Parameters\"]\n  direction TB\n  PK1\n  PK2\n  PK3\nend\n{STYLES}class PK1,PK2,PK3 params;\n"
    );
    assert_eq!(layer.render(), expected);
}

#[test]
fn snapshot_needs_escaping() {
    let funky = call(
        "funky",
        &[
            (
                "json_object",
                debug(r#"{ "$schema": "https://json-schema.org/draft/2020-12/schema" }"#),
            ),
            ("record_stack", debug(r#"["document"]"#)),
        ],
    );
    let layer = layer_with(MermaidLayer::new(), funky);
    let expected = format!(
        "flowchart TD
subgraph Params1[\" \"]
  P2_0[\"json_object = &#123; \\&quot;$schema\\&quot;: \\&quot;https://json-schema.org/draft/2020-12/schema\\&quot; &#125;\"]:::data
  P2_1[\"record_stack = &#91;\\&quot;document\\&quot;&#93;\"]:::data
  P2_0 --- P2_1
end
F1[\"funky()\"]:::func
Params1 --> F1
{STYLES}class Params1 params;
"
    );
    assert_eq!(layer.render(), expected);
}

fn slice_call(name: &str, avro_schema: &[&str], record_stack: &[&str]) -> CallNode {
    call(
        "slice_cases",
        &[
            ("name", debug(name)),
            ("avro_schema", debug(avro_schema)),
            ("record_stack", debug(record_stack)),
        ],
    )
}

#[test]
fn snapshot_slice_cases() {
    let mut layer = MermaidLayer::new().without_auto_flush();
    // Case 1: non-empty slice
    layer.record_root(slice_call("document", &["field1", "field2"], &["document"]));
    // Case 2: empty slice
    layer.record_root(slice_call("empty_case", &[], &[]));
    let expected = format!(
        "flowchart TD
subgraph Params1[\" \"]
  P2_0[\"name = document\"]:::data
  P2_1[\"avro_schema = &#91;&quot;field1&quot;, &quot;field2&quot;&#93;\"]:::data
  P2_0 --- P2_1
  P2_2[\"record_stack = &#91;&quot;document&quot;&#93;\"]:::data
  P2_1 --- P2_2
end
F1[\"slice_cases()\"]:::func
Params1 --> F1
subgraph Params2[\" \"]
  P3_0[\"name = empty_case\"]:::data
  P3_1[\"avro_schema = &#91;&#93;\"]:::data
  P3_0 --- P3_1
  P3_2[\"record_stack = &#91;&#93;\"]:::data
  P3_1 --- P3_2
end
F2[\"slice_cases()\"]:::func
Params2 --> F2
{STYLES}class Params1,Params2 params;
"
    );
    assert_eq!(layer.render(), expected);
}

#[test]
fn escape_replaces_each_special_character() {
    assert_eq!(
        escape_mermaid("&<>\"'{}[]|"),
        "&amp;&lt;&gt;&quot;&#39;&#123;&#125;&#91;&#93;&#124;"
    );
    assert_eq!(escape_mermaid(""), "");
    assert_eq!(escape_mermaid("plain text, 1 + 2 = 3; caf\u{e9}"), "plain text, 1 + 2 = 3; caf\u{e9}");
    // What an entity is made of is not escaped again.
    assert_eq!(escape_mermaid("&amp;"), "&amp;amp;");
    assert_eq!(escape_mermaid("a<b>c"), "a&lt;b&gt;c");
}

#[test]
fn field_values_lose_their_outer_quotes() {
    assert_eq!(clean_field_value("\"foo\""), "foo");
    assert_eq!(clean_field_value("42"), "42");
    assert_eq!(clean_field_value("\"\"\"x\"\""), "x");
    assert_eq!(clean_field_value("\"\""), "");
    assert_eq!(clean_field_value("\""), "");
    assert_eq!(clean_field_value(""), "");
    // Quotes at one end only stay, and are escaped.
    assert_eq!(clean_field_value("\"open"), "&quot;open");
    assert_eq!(clean_field_value("a\"b"), "a&quot;b");
    assert_eq!(clean_field_value("\"a\"b\""), "a&quot;b");
    assert_eq!(clean_field_value("[\"x\"]"), "&#91;&quot;x&quot;&#93;");
}

#[test]
fn numbers_in_decimal() {
    assert_eq!(decimal_string(0), "0");
    assert_eq!(decimal_string(7), "7");
    assert_eq!(decimal_string(10), "10");
    assert_eq!(decimal_string(1234567890), "1234567890");
    assert_eq!(decimal_string(usize::MAX), usize::MAX.to_string());
}

#[test]
fn new_call_is_empty() {
    let node = CallNode::new("work".to_string());
    assert_eq!(node.name, "work");
    assert!(node.fields.is_empty());
    assert!(node.children.is_empty());
}

#[test]
fn empty_layer_renders_header_and_styles() {
    assert_eq!(MermaidLayer::new().render(), format!("flowchart TD\n{STYLES}"));
    assert_eq!(MermaidLayer::default().render(), format!("flowchart TD\n{STYLES}"));
    assert!(MermaidLayer::new().auto_flush());
    assert!(!MermaidLayer::new().without_auto_flush().auto_flush());
    let mut layer = MermaidLayer::new();
    assert!(layer.record_root(CallNode::new("r".to_string())));
}

#[test]
fn call_without_fields_has_no_parameter_node() {
    let mut root = CallNode::new("root".to_string());
    root.add_child(CallNode::new("leaf".to_string()));
    let layer = layer_with(MermaidLayer::new().with_params_mode(ParamRenderMode::SingleNodeGrouped), root);
    assert_eq!(
        layer.render(),
        format!("flowchart TD\nF1[\"root()\"]:::func\nF2[\"leaf()\"]:::func\n  F1 --> F2\n{STYLES}")
    );
}

#[test]
fn merged_children_come_in_the_order_of_their_names() {
    let mut root = CallNode::new("root".to_string());
    for name in ["zeta", "alpha", "zeta", "Beta", "alpha", "al"] {
        root.add_child(CallNode::new(name.to_string()));
    }
    let layer = layer_with(MermaidLayer::new(), root);
    let text = layer.render();
    let groups: Vec<&str> = text
        .lines()
        .filter(|l| l.starts_with("subgraph ") && l.contains("Calls["))
        .collect();
    assert_eq!(
        groups,
        vec![
            "subgraph BetaCalls[\"Beta(...)\"]",
            "subgraph alCalls[\"al(...)\"]",
            "subgraph alphaCalls[\"alpha(...)\"]",
            "subgraph zetaCalls[\"zeta(...)\"]",
        ]
    );
    // Within a group the calls keep the order in which they were made: the
    // numbers are given as the calls are rendered.
    let expected_start = "flowchart TD
subgraph Params1[\" \"]
end
F1[\"root()\"]:::func
Params1 --> F1
subgraph BetaCalls[\"Beta(...)\"]
  direction TB
subgraph Params2[\" \"]
end
F2[\"Beta()\"]:::func
Params2 --> F2
end
  F1 --> Params2
subgraph alCalls[\"al(...)\"]
";
    assert!(text.starts_with(expected_start), "{text}");
    assert!(text.ends_with("class Params1,Params2,Params3,Params4,Params5,Params6,Params7 params;\n"));
    assert!(text.contains("subgraph zetaCalls[\"zeta(...)\"]\n  direction TB\nsubgraph Params6[\" \"]\nend\nF6[\"zeta()\"]:::func\nParams6 --> F6\nsubgraph Params7[\" \"]\nend\nF7[\"zeta()\"]:::func\nParams7 --> F7\nend\n  F1 --> Params6\n  F1 --> Params7\n"));
}
