use gptchat::msg::Role;
use gptchat::render::TextColor;
use gptchat::session::{Outcome, Session};

const PROMPT: &str = "You are a large language model built into a command line interface.";

fn new_session() -> Session {
    Session::new(String::from("gpt-3.5-turbo"))
}

#[test]
fn fresh_session_holds_only_the_system_message() {
    let s = new_session();
    let h = s.transcript();
    assert_eq!(h.len(), 1);
    assert!(matches!(h.role_at(0), Role::System));
    assert_eq!(h.content_at(0), PROMPT);
    assert!(s.is_idle());
}

#[test]
fn successful_completion_appends_trimmed_reply() {
    // Submit("Hello") with a client that answers "  Hi there!  " in time.
    let mut s = new_session();
    s.submit_line(String::from("Hello"));
    let step = s.start_next();
    let req = step.request.expect("an idle session starts the request");
    assert_eq!(req.model, "gpt-3.5-turbo");
    assert_eq!(req.messages.len(), 2);
    assert!(matches!(req.messages[0].role, Role::System));
    assert!(matches!(req.messages[1].role, Role::User));
    assert_eq!(req.messages[1].content, "Hello");

    // The user's own line is echoed exactly once: label, then the line.
    assert_eq!(step.renders.len(), 2);
    assert_eq!(step.renders[0].text, "You: ");
    assert!(matches!(step.renders[0].fg, TextColor::Cyan));
    assert_eq!(step.renders[1].text, "Hello\n");

    let renders = s.resolve(Outcome::Completed(vec![String::from("  Hi there!  ")]));
    assert_eq!(renders.len(), 2);
    assert_eq!(renders[0].text, "GPT: ");
    assert!(matches!(renders[0].fg, TextColor::Blue));
    assert_eq!(renders[1].text, "Hi there!\n");

    let h = s.transcript();
    assert_eq!(h.len(), 3);
    assert!(matches!(h.role_at(1), Role::User));
    assert_eq!(h.content_at(1), "Hello");
    assert!(matches!(h.role_at(2), Role::Assistant));
    assert_eq!(h.content_at(2), "Hi there!");
    assert!(s.is_idle());
}

#[test]
fn timeout_appends_nothing_and_renders_timeout_line() {
    // Submit("ping") with a client that never answers: the timeout elapses.
    let mut s = new_session();
    s.submit_line(String::from("ping"));
    let step = s.start_next();
    assert!(step.request.is_some());

    let renders = s.resolve(Outcome::TimedOut);
    assert_eq!(renders.len(), 1);
    assert!(renders[0].text.contains("timed out"));
    assert!(matches!(renders[0].fg, TextColor::Red));

    let h = s.transcript();
    assert_eq!(h.len(), 2);
    assert!(matches!(h.role_at(1), Role::User));
    assert_eq!(h.content_at(1), "ping");
    assert!(s.is_idle());
}

#[test]
fn client_error_appends_nothing_and_renders_description() {
    // Submit("x") with a client that fails at once with an auth error.
    let mut s = new_session();
    s.submit_line(String::from("x"));
    let step = s.start_next();
    assert!(step.request.is_some());

    let renders = s.resolve(Outcome::Failed(String::from("invalid authentication token")));
    assert_eq!(renders.len(), 1);
    assert_eq!(renders[0].text, "Error: invalid authentication token\n");
    assert!(matches!(renders[0].fg, TextColor::Red));

    let h = s.transcript();
    assert_eq!(h.len(), 2);
    assert_eq!(h.content_at(1), "x");
    assert!(s.is_idle());
}

#[test]
fn second_line_waits_until_first_outcome_resolves() {
    // Two rapid submissions: "second" must not start while "first" is in
    // flight, and its user turn enters the transcript only afterwards.
    let mut s = new_session();
    s.submit_line(String::from("first"));
    let step1 = s.start_next();
    let req1 = step1.request.expect("the first line starts at once");
    assert_eq!(req1.messages.len(), 2);
    assert_eq!(req1.messages[1].content, "first");

    s.submit_line(String::from("second"));
    let blocked = s.start_next();
    assert!(blocked.request.is_none());
    assert!(blocked.renders.is_empty());
    assert_eq!(s.transcript().len(), 2);

    let renders = s.resolve(Outcome::Completed(vec![String::from("reply to first")]));
    assert_eq!(renders[1].text, "reply to first\n");

    let step2 = s.start_next();
    let req2 = step2.request.expect("the second line starts after the first resolves");
    assert_eq!(req2.messages.len(), 4);
    assert_eq!(req2.messages[1].content, "first");
    assert_eq!(req2.messages[2].content, "reply to first");
    assert_eq!(req2.messages[3].content, "second");

    let h = s.transcript();
    assert_eq!(h.len(), 4);
    assert!(matches!(h.role_at(0), Role::System));
    assert!(matches!(h.role_at(1), Role::User));
    assert!(matches!(h.role_at(2), Role::Assistant));
    assert!(matches!(h.role_at(3), Role::User));
}

#[test]
fn second_line_still_waits_when_first_fails() {
    let mut s = new_session();
    s.submit_line(String::from("first"));
    let _ = s.start_next();
    s.submit_line(String::from("second"));
    assert!(s.start_next().request.is_none());

    let _ = s.resolve(Outcome::Failed(String::from("rate limit exceeded")));

    let step2 = s.start_next();
    let req2 = step2.request.expect("the second line starts after the failure");
    // No assistant turn for the failed attempt: two consecutive user turns.
    assert_eq!(req2.messages.len(), 3);
    assert_eq!(req2.messages[1].content, "first");
    assert_eq!(req2.messages[2].content, "second");
    assert!(matches!(req2.messages[1].role, Role::User));
    assert!(matches!(req2.messages[2].role, Role::User));
}

#[test]
fn empty_candidate_list_is_an_error_not_a_silent_no_op() {
    let mut s = new_session();
    s.submit_line(String::from("hello"));
    let _ = s.start_next();
    let renders = s.resolve(Outcome::Completed(Vec::new()));
    assert_eq!(renders.len(), 1);
    assert_eq!(renders[0].text, "Error: The completion returned no choices.\n");
    assert_eq!(s.transcript().len(), 2);
    assert!(s.is_idle());
}

#[test]
fn empty_submitted_line_is_accepted() {
    let mut s = new_session();
    s.submit_line(String::new());
    let step = s.start_next();
    let req = step.request.expect("an empty line is still a submission");
    assert_eq!(req.messages[1].content, "");
    assert_eq!(step.renders[1].text, "\n");
}

#[test]
fn start_next_with_nothing_queued_does_nothing() {
    let mut s = new_session();
    let step = s.start_next();
    assert!(step.request.is_none());
    assert!(step.renders.is_empty());
    assert_eq!(s.transcript().len(), 1);
    assert!(s.is_idle());
}

#[test]
fn system_message_is_never_duplicated_or_removed() {
    let mut s = new_session();
    for i in 0..5 {
        s.submit_line(format!("line {}", i));
        let step = s.start_next();
        assert!(step.request.is_some());
        let outcome = if i % 2 == 0 {
            Outcome::Completed(vec![format!("reply {}", i)])
        } else {
            Outcome::TimedOut
        };
        let _ = s.resolve(outcome);
    }
    let h = s.transcript();
    assert!(matches!(h.role_at(0), Role::System));
    assert_eq!(h.content_at(0), PROMPT);
    for i in 1..h.len() {
        assert!(!matches!(h.role_at(i), Role::System));
    }
}
