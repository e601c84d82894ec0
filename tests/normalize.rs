use graph_prompt::gateway::{invocation_failed, model_request, respond, Reply, SYSTEM_PROMPT};
use graph_prompt::normalize::{bare_object, bracket, normalize, white_space, Outcome, INVALID_SCHEMA};
use serde_json::Value;

fn parsed(text: &str) -> Value {
    serde_json::from_str::<Value>(text).unwrap()
}

fn document(outcome: Outcome) -> Value {
    match outcome {
        Outcome::Document(v) => v,
        Outcome::Failure { message, .. } => panic!("unexpected failure: {}", message),
    }
}

fn failure_message(outcome: Outcome, raw: &str) -> String {
    match outcome {
        Outcome::Document(v) => panic!("unexpected document: {}", v),
        Outcome::Failure { message, raw: kept } => {
            assert_eq!(kept, raw);
            message
        }
    }
}

fn body(reply: Reply) -> Value {
    match reply {
        Reply::Document(v) => v,
        Reply::Error(m) => {
            let mut o = serde_json::Map::new();
            o.insert("error".to_string(), Value::String(m));
            Value::Object(o)
        }
    }
}

#[test]
fn scenario_tree_array_passes_through() {
    let text = r#"[{"node_id":1,"x":0,"y":0,"text":"Root","connected":[],"information":"root"}]"#;
    let (reply, diagnostic) = respond(Ok(text.to_string()));
    assert_eq!(body(reply), parsed(text));
    assert!(diagnostic.is_none());
}

#[test]
fn scenario_bare_object_is_returned_as_parsed() {
    let text = r#"{"node_id":1,"x":10,"y":20,"text":"Only","connected":[],"information":"i"}"#;
    let (reply, _) = respond(Ok(text.to_string()));
    assert_eq!(body(reply), parsed(text));
}

#[test]
fn scenario_truncated_text_is_invalid_schema() {
    let text = r#"[{"node_id":1,"x":0"#;
    let (reply, diagnostic) = respond(Ok(text.to_string()));
    assert_eq!(body(reply), parsed(r#"{"error":"Invalid schema from Gemini"}"#));
    assert_eq!(diagnostic, Some(text.to_string()));
}

#[test]
fn scenario_invocation_error_is_reported() {
    let (reply, diagnostic) = respond(Err("quota exceeded".to_string()));
    assert_eq!(body(reply), parsed(r#"{"error":"API call failed: quota exceeded"}"#));
    assert!(diagnostic.is_none());
}

#[test]
fn invocation_failed_embeds_error_text() {
    match invocation_failed("timeout") {
        Reply::Error(m) => assert_eq!(m, "API call failed: timeout"),
        Reply::Document(_) => panic!("expected an error"),
    }
}

#[test]
fn pass_through_keeps_structure() {
    let text = r#"[{"node_id":1,"x":5,"y":7,"text":"A","connected":[2],"information":"a"},
                  {"node_id":2,"x":300,"y":7,"text":"B","connected":[1],"information":"b"}]"#;
    assert_eq!(document(normalize(text)), parsed(text));
}

#[test]
fn pass_through_keeps_any_shape() {
    assert_eq!(document(normalize("42")), parsed("42"));
    assert_eq!(document(normalize("[]")), parsed("[]"));
}

#[test]
fn bracket_repair_of_object_sequence() {
    let text = r#"{"node_id":1,"x":0,"y":0,"text":"A","connected":[],"information":"a"},{"node_id":2,"x":0,"y":0,"text":"B","connected":[],"information":"b"}"#;
    let expected = parsed(&format!("[{}]", text));
    assert_eq!(document(normalize(text)), expected);
    assert_eq!(expected.as_array().unwrap().len(), 2);
}

#[test]
fn bracket_repair_with_surrounding_white_space() {
    let text = "\n  {\"node_id\":1},{\"node_id\":2}  \t\n";
    assert_eq!(document(normalize(text)), parsed(r#"[{"node_id":1},{"node_id":2}]"#));
}

#[test]
fn bracket_repair_wraps_untrimmed_text() {
    // U+00A0 is trimmed but is no JSON white space: the bracketed raw text
    // does not parse.
    let text = "\u{a0}{\"node_id\":1},{\"node_id\":2}";
    assert_eq!(failure_message(normalize(text), text), INVALID_SCHEMA);
}

#[test]
fn fenced_array_is_a_failure() {
    let text = "```json\n[{\"node_id\":1,\"x\":0,\"y\":0,\"text\":\"R\",\"connected\":[],\"information\":\"r\"}]\n```";
    assert_eq!(failure_message(normalize(text), text), "Invalid schema from Gemini");
}

#[test]
fn empty_text_is_a_failure() {
    assert_eq!(failure_message(normalize(""), ""), "Invalid schema from Gemini");
}

#[test]
fn garbage_is_a_failure() {
    for text in ["hello there", "{ not json }", "\u{0}\u{1}\u{fffd}", "   ", "[1,", "{"] {
        assert_eq!(failure_message(normalize(text), text), "Invalid schema from Gemini");
    }
}

#[test]
fn prose_around_json_is_a_failure() {
    let text = "Here is your graph: [{\"node_id\":1}]";
    assert_eq!(failure_message(normalize(text), text), "Invalid schema from Gemini");
}

#[test]
fn resubmitted_document_is_unchanged() {
    for text in [
        r#"[{"node_id":1,"x":0,"y":0,"text":"Root","connected":[],"information":"root"}]"#,
        r#"{"node_id":1},{"node_id":2}"#,
    ] {
        let first = document(normalize(text));
        let again = document(normalize(&serde_json::to_string(&first).unwrap()));
        assert_eq!(again, first);
    }
}

#[test]
fn bare_object_detection() {
    assert!(bare_object("{}"));
    assert!(bare_object(" \u{3000}{ x }\u{85}\n"));
    assert!(!bare_object("{"));
    assert!(!bare_object("}"));
    assert!(!bare_object(""));
    assert!(!bare_object("   "));
    assert!(!bare_object("[{}]"));
    assert!(!bare_object("{} ."));
}

#[test]
fn white_space_characters() {
    for c in ['\t', '\n', '\r', ' ', '\u{a0}', '\u{2028}', '\u{3000}'] {
        assert!(white_space(c));
    }
    for c in ['a', '{', '\u{200b}', '\u{feff}'] {
        assert!(!white_space(c));
    }
}

#[test]
fn bracket_wraps_text() {
    assert_eq!(bracket("{\"a\":1}"), "[{\"a\":1}]");
    assert_eq!(bracket(""), "[]");
}

#[test]
fn model_request_carries_prompt_and_instruction() {
    let r = model_request("draw a tree");
    assert_eq!(r.user_prompt, "draw a tree");
    assert_eq!(r.system_prompt, SYSTEM_PROMPT);
    assert!(SYSTEM_PROMPT.contains("node_id"));
    assert!(SYSTEM_PROMPT.contains("270px"));
    assert!(SYSTEM_PROMPT.contains("100px"));
}
