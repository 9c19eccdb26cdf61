//! The module tag on log lines.

use bge_router::logging::{prepend_module, wants_json, PrependModule, BGE_MODULE};

#[test]
fn object_gets_the_tag_first() {
    assert_eq!(BGE_MODULE, "router");
    assert_eq!(
        prepend_module("{\"level\":\"INFO\"}\n"),
        "{\"bge_module\":\"router\",\"level\":\"INFO\"}\n"
    );
    assert_eq!(
        prepend_module("{\"a\":{}}"),
        "{\"bge_module\":\"router\",\"a\":{}}"
    );
}

#[test]
fn empty_object_gets_the_tag_alone() {
    assert_eq!(prepend_module("{}"), "{\"bge_module\":\"router\"}");
    assert_eq!(prepend_module("{}\n"), "{\"bge_module\":\"router\"}\n");
    assert_eq!(prepend_module("{} x"), "{\"bge_module\":\"router\"} x");
}

#[test]
fn other_output_is_unchanged() {
    for rendered in ["", "\n", "plain", "plain\n", " {}", "[1]\n", "żółw\n", "}"] {
        assert_eq!(prepend_module(rendered), rendered);
    }
}

#[test]
fn tagged_lines_are_json_objects() {
    let line = prepend_module("{\"message\":\"zażółć\",\"n\":1}\n");
    let value: serde_json::Value = serde_json::from_str(&line).unwrap();
    assert_eq!(value["bge_module"], "router");
    assert_eq!(value["message"], "zażółć");
    assert_eq!(value["n"], 1);
}

#[test]
fn wrapper_hands_out_its_formatter() {
    assert_eq!(*PrependModule::new(7).inner(), 7);
}

#[test]
fn format_setting_decides_before_the_terminal() {
    for terminal in [true, false] {
        assert!(!wants_json(Some("text"), terminal));
        assert!(!wants_json(Some("pretty"), terminal));
        assert!(wants_json(Some("json"), terminal));
        assert_eq!(wants_json(Some("JSON"), terminal), !terminal);
        assert_eq!(wants_json(None, terminal), !terminal);
    }
}
