use blackroad_cli::chat_body;
use blackroad_cli::chat_url;
use blackroad_cli::escape_json;
use blackroad_cli::interpret_reply;
use blackroad_cli::offline_line;
use blackroad_cli::reply_line;
use blackroad_cli::reply_text;

#[test]
fn url_appends_the_chat_path() {
    assert_eq!(chat_url("http://127.0.0.1:8787"), "http://127.0.0.1:8787/chat");
}

#[test]
fn body_is_the_two_field_object() {
    assert_eq!(chat_body("CECE", "hi"), "{\"agent\":\"CECE\",\"message\":\"hi\"}");
}

#[test]
fn body_escapes_quotes_backslashes_and_controls() {
    assert_eq!(
        chat_body("A", "a\"b\\c\nd"),
        "{\"agent\":\"A\",\"message\":\"a\\\"b\\\\c\\u000ad\"}"
    );
}

#[test]
fn escape_leaves_plain_text_alone() {
    assert_eq!(escape_json(""), "");
    assert_eq!(escape_json("plain text!"), "plain text!");
    assert_eq!(escape_json("\u{1f}"), "\\u001f");
}

#[test]
fn body_round_trips_through_a_json_parser() {
    let body = chat_body("CECE", "say \"hi\"\n\\done");
    let v: serde_json::Value = serde_json::from_str(&body).unwrap();
    assert_eq!(v.get("agent").unwrap().as_str().unwrap(), "CECE");
    assert_eq!(v.get("message").unwrap().as_str().unwrap(), "say \"hi\"\n\\done");
}

#[test]
fn reply_field_is_printed() {
    assert_eq!(interpret_reply("{\"response\": \"hello\"}").unwrap(), "hello");
    let line = reply_line("CECE", "hello");
    assert_eq!(line, "CECE hello");
    assert!(line.contains("hello"));
}

#[test]
fn missing_reply_field_becomes_placeholder() {
    assert_eq!(interpret_reply("{}").unwrap(), "...");
    assert_eq!(interpret_reply("{\"other\": \"x\"}").unwrap(), "...");
    assert_eq!(interpret_reply("{\"response\": 7}").unwrap(), "...");
    assert_eq!(interpret_reply("[1, 2]").unwrap(), "...");
}

#[test]
fn non_json_body_is_a_failed_call() {
    assert!(interpret_reply("not json").is_none());
    assert!(interpret_reply("").is_none());
}

#[test]
fn defaulting_rule_is_exact() {
    assert_eq!(reply_text(None), None);
    assert_eq!(reply_text(Some(None)), Some(String::from("...")));
    assert_eq!(reply_text(Some(Some(String::from("x")))), Some(String::from("x")));
}

#[test]
fn offline_fallback_has_the_fixed_format() {
    assert_eq!(
        offline_line("CECE", "hi"),
        "[CECE] Gateway offline. Message queued: 'hi'"
    );
    assert_eq!(
        offline_line("LUCIDIA", "are you there?"),
        "[LUCIDIA] Gateway offline. Message queued: 'are you there?'"
    );
}
