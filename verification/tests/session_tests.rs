use blackroad_cli::Action;
use blackroad_cli::Session;
use blackroad_cli::step;
use blackroad_cli::str_eq;
use blackroad_cli::trim;

#[test]
fn exit_ends_the_session() {
    assert!(matches!(step("exit"), Action::Quit));
    assert!(matches!(step("quit"), Action::Quit));
}

#[test]
fn exit_is_recognised_after_trimming() {
    assert!(matches!(step("  exit  "), Action::Quit));
    assert!(matches!(step("\tquit\n"), Action::Quit));
}

#[test]
fn exit_is_case_sensitive() {
    assert!(matches!(step("Exit"), Action::Send(_)));
    assert!(matches!(step("QUIT"), Action::Send(_)));
}

#[test]
fn blank_input_reprompts() {
    assert!(matches!(step(""), Action::Prompt));
    assert!(matches!(step("   "), Action::Prompt));
    assert!(matches!(step(" \t\r\n"), Action::Prompt));
}

#[test]
fn chat_input_is_sent_trimmed() {
    match step("  hi  ") {
        Action::Send(m) => assert_eq!(m, "hi"),
        _ => panic!("expected a message to be sent"),
    }
    match step("hello world\n") {
        Action::Send(m) => assert_eq!(m, "hello world"),
        _ => panic!("expected a message to be sent"),
    }
}

#[test]
fn exit_with_extra_text_is_sent() {
    match step("exit now") {
        Action::Send(m) => assert_eq!(m, "exit now"),
        _ => panic!("expected a message to be sent"),
    }
}

#[test]
fn trim_removes_edges_only() {
    assert_eq!(trim("  a b  "), "a b");
    assert_eq!(trim("none"), "none");
    assert_eq!(trim("   "), "");
    assert_eq!(trim(""), "");
    assert_eq!(trim("\u{a0}x\u{a0}"), "x");
}

#[test]
fn str_eq_compares_contents() {
    assert!(str_eq("abc", "abc"));
    assert!(!str_eq("abc", "abd"));
    assert!(!str_eq("abc", "ab"));
    assert!(str_eq("", ""));
}

#[test]
fn session_keeps_its_fields() {
    let s = Session::new(String::from("CECE"), String::from("http://127.0.0.1:8787"));
    assert_eq!(s.agent, "CECE");
    assert_eq!(s.gateway, "http://127.0.0.1:8787");
}
