use minusagent::action::Action;
use minusagent::response::{interpret_decoded, parse_action, parse_response, Payload};
use minusagent::structured::{json_fields, yaml_fields, Entry, FieldValue};

fn entry(k: &str, v: &str) -> Entry {
    Entry { key: k.to_string(), value: FieldValue::Text(v.to_string()) }
}

#[test]
fn parser_is_total_on_odd_inputs() {
    for s in ["", "   ", "```", "```json", "<stop>", "</stop><stop>", "{", "\u{0}\u{ffff}"] {
        let r = parse_response(s);
        assert_eq!(r.action, Action::Stop);
        assert_eq!(r.payload, Payload::Text(s.trim().to_string()));
    }
}

#[test]
fn fenced_json_continue_keeps_other_fields() {
    let text = "Plan:\n```json\n{\"action\": \"continue\", \"task\": \"add\", \"n\": 2}\n```\nthanks";
    let r = parse_response(text);
    assert_eq!(r.action, Action::Continue);
    let mut fields = match r.payload {
        Payload::Fields(f) => f,
        Payload::Text(t) => panic!("expected fields, got text {}", t),
    };
    fields.sort_by(|a, b| a.key.cmp(&b.key));
    assert_eq!(
        fields,
        vec![
            Entry { key: "n".to_string(), value: FieldValue::Other("2".to_string()) },
            entry("task", "add"),
        ]
    );
    assert_eq!(r.text, "{\"action\": \"continue\", \"task\": \"add\", \"n\": 2}");
}

#[test]
fn fenced_yaml_continue() {
    let text = "```yaml\naction: continue\ntodos: one\n```";
    let r = parse_response(text);
    assert_eq!(r.action, Action::Continue);
    assert_eq!(r.payload, Payload::Fields(vec![entry("todos", "one")]));
}

#[test]
fn plain_text_is_final_answer() {
    let r = parse_response("  The answer is 42.\n");
    assert_eq!(r.action, Action::Stop);
    assert_eq!(r.payload, Payload::Text("The answer is 42.".to_string()));
    assert_eq!(r.text, "The answer is 42.");
}

#[test]
fn unfenced_object_and_other_actions() {
    let r = parse_response("{\"action\": \"search\", \"q\": \"x\"}");
    assert_eq!(r.action, Action::CallTool("search".to_string()));
    let r = parse_response("{\"answer\": \"42\"}");
    assert_eq!(r.action, Action::Stop);
    assert_eq!(r.payload, Payload::Fields(vec![entry("answer", "42")]));
    let r = parse_response("{\"action\": 3}");
    assert_eq!(r.action, Action::Stop);
}

#[test]
fn tag_dialect_wins_over_structure() {
    let r = parse_response("x <continue> {\"action\": \"stop\"} </continue> y");
    assert_eq!(r.action, Action::Continue);
    assert_eq!(r.payload, Payload::Text("{\"action\": \"stop\"}".to_string()));
    let r = parse_response("<stop>The answer is 42.</stop>");
    assert_eq!(r.action, Action::Stop);
    assert_eq!(r.text, "The answer is 42.");
}

#[test]
fn parse_action_tags() {
    assert_eq!(parse_action("<continue> more </continue>"), (Action::Continue, "more".to_string()));
    assert_eq!(parse_action("<stop>a</stop>b</stop>"), (Action::Stop, "a</stop>b".to_string()));
    assert_eq!(parse_action("  plain  "), (Action::Stop, "plain".to_string()));
    assert_eq!(parse_action("<stop>open only"), (Action::Stop, "<stop>open only".to_string()));
}

#[test]
fn interpret_decoded_by_value() {
    let r = interpret_decoded("raw", "cand", Some(vec![entry("action", "continue"), entry("k", "v")]));
    assert_eq!(r.action, Action::Continue);
    assert_eq!(r.payload, Payload::Fields(vec![entry("k", "v")]));
    assert_eq!(r.text, "cand");
    let r = interpret_decoded(" raw ", "cand", None);
    assert_eq!(r.action, Action::Stop);
    assert_eq!(r.payload, Payload::Text("raw".to_string()));
}

#[test]
fn json_and_yaml_fields_read_objects_only() {
    assert_eq!(json_fields("{\"a\": \"b\"}"), Some(vec![entry("a", "b")]));
    assert_eq!(json_fields("[1, 2]"), None);
    assert_eq!(json_fields("not json"), None);
    assert_eq!(yaml_fields("a: b"), Some(vec![entry("a", "b")]));
    assert_eq!(yaml_fields("- 1"), None);
    assert_eq!(
        json_fields("{\"o\": {\"x\": [1]}}"),
        Some(vec![Entry { key: "o".to_string(), value: FieldValue::Other("{\"x\":[1]}".to_string()) }])
    );
}
