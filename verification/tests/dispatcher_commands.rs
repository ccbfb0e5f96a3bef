use agent_bridge::claude::{build_args, Invocation, ProcessError};
use agent_bridge::dispatcher::{Action, Dispatcher};
use agent_bridge::protocol::{ChatParams, ContinueParams, Event, Request, ResumeParams};
use agent_bridge::translator::StreamTranslator;

fn chat(prompt: &str) -> ChatParams {
    ChatParams {
        prompt: prompt.to_string(),
        cwd: None,
        context: None,
        model: None,
        allowed_tools: None,
        append_system_prompt: None,
        permission_mode: None,
    }
}

fn dispatcher() -> Dispatcher {
    Dispatcher::new("agent".to_string())
}

/// A dispatcher whose run has reported the session `id`.
fn running_in_session(id: &str) -> Dispatcher {
    let mut d = dispatcher();
    d.handle(Request::Chat(chat("first")));
    let mut translator = StreamTranslator::new();
    let line = format!(
        "{{\"type\":\"system\",\"subtype\":\"init\",\"session_id\":\"{}\",\"model\":\"m\"}}",
        id
    );
    d.stdout_line(&mut translator, &line);
    d
}

#[test]
fn a_new_dispatcher_is_idle() {
    let d = dispatcher();
    assert!(!d.is_running());
    assert!(!d.session().get_state().active);
    assert_eq!(d.session().get_session_id(), None);
}

#[test]
fn chat_starts_a_run() {
    let mut d = dispatcher();
    let mut p = chat("hello");
    p.cwd = Some("/tmp".to_string());
    let actions = d.handle(Request::Chat(p.clone()));
    assert_eq!(
        actions,
        vec![Action::Spawn(Invocation {
            program: "agent".to_string(),
            args: build_args(&p, &None),
            cwd: Some("/tmp".to_string()),
            input: Some("hello".to_string()),
        })]
    );
    assert!(d.is_running());
}

#[test]
fn chat_while_running_retires_the_old_run_first() {
    let mut d = running_in_session("s1");
    assert!(d.session().get_state().active);
    let actions = d.handle(Request::Chat(chat("again")));
    assert_eq!(actions.len(), 2);
    assert_eq!(actions[0], Action::Kill);
    assert!(matches!(actions[1], Action::Spawn(_)));
    assert!(d.is_running());
    assert!(!d.session().get_state().active);
    assert_eq!(d.session().get_session_id(), Some("s1".to_string()));
}

#[test]
fn resume_runs_without_input_in_the_given_session() {
    let mut d = dispatcher();
    let actions = d.handle(Request::Resume(ResumeParams {
        session_id: "abc-123".to_string(),
        cwd: Some("/tmp".to_string()),
    }));
    assert_eq!(
        actions,
        vec![Action::Spawn(Invocation {
            program: "agent".to_string(),
            args: build_args(&chat(""), &Some("abc-123".to_string())),
            cwd: Some("/tmp".to_string()),
            input: None,
        })]
    );
    assert!(d.is_running());
}

#[test]
fn continue_without_a_session_is_an_error() {
    let mut d = dispatcher();
    let actions =
        d.handle(Request::Continue(ContinueParams { prompt: "next".to_string(), context: None }));
    assert_eq!(
        actions,
        vec![Action::Emit(Event::Error { message: "No active session to continue".to_string() })]
    );
    assert!(!d.is_running());
    assert_eq!(d.session().get_session_id(), None);
}

#[test]
fn continue_resumes_the_tracked_session() {
    let mut d = running_in_session("s1");
    let mut translator = StreamTranslator::new();
    d.stdout_line(&mut translator, "{\"type\":\"result\"}");
    d.run_finished();
    assert!(!d.is_running());
    let actions = d.handle(Request::Continue(ContinueParams {
        prompt: "next".to_string(),
        context: Some("ctx".to_string()),
    }));
    assert_eq!(
        actions,
        vec![Action::Spawn(Invocation {
            program: "agent".to_string(),
            args: build_args(&chat("next"), &Some("s1".to_string())),
            cwd: None,
            input: Some("ctx\n\nnext".to_string()),
        })]
    );
    assert!(d.is_running());
}

#[test]
fn continue_while_running_retires_the_old_run_first() {
    let mut d = running_in_session("s1");
    let actions =
        d.handle(Request::Continue(ContinueParams { prompt: "next".to_string(), context: None }));
    assert_eq!(actions.len(), 2);
    assert_eq!(actions[0], Action::Kill);
    assert!(matches!(actions[1], Action::Spawn(_)));
    assert!(!d.session().get_state().active);
}

#[test]
fn abort_while_idle_does_nothing() {
    let mut d = dispatcher();
    assert_eq!(d.handle(Request::Abort), vec![]);
    assert!(!d.is_running());
}

#[test]
fn abort_while_running_kills_and_reports_done() {
    let mut d = running_in_session("s1");
    let actions = d.handle(Request::Abort);
    assert_eq!(actions, vec![Action::Kill, Action::Emit(Event::Done)]);
    assert!(!d.is_running());
    assert!(!d.session().get_state().active);
    assert_eq!(d.session().get_session_id(), Some("s1".to_string()));
    assert_eq!(d.handle(Request::Abort), vec![]);
}

#[test]
fn status_reports_the_session() {
    let mut d = dispatcher();
    assert_eq!(
        d.handle(Request::Status),
        vec![Action::Emit(Event::Status { active: false, session_id: None })]
    );
    let mut d = running_in_session("s1");
    assert_eq!(
        d.handle(Request::Status),
        vec![Action::Emit(Event::Status { active: true, session_id: Some("s1".to_string()) })]
    );
    assert!(d.is_running());
}

#[test]
fn a_failed_start_is_reported_and_leaves_the_dispatcher_idle() {
    let mut d = dispatcher();
    d.handle(Request::Chat(chat("hello")));
    assert!(d.is_running());
    let event = d.spawn_failed(&ProcessError::Spawn("not found".to_string()));
    assert_eq!(event, Event::Error { message: "Failed to spawn agent: not found".to_string() });
    assert!(!d.is_running());
    let event = d.spawn_failed(&ProcessError::NoStdin);
    assert_eq!(event, Event::Error { message: "No stdin".to_string() });
}

#[test]
fn a_finished_run_empties_the_slot() {
    let mut d = running_in_session("s1");
    d.run_finished();
    assert!(!d.is_running());
    assert_eq!(d.session().get_session_id(), Some("s1".to_string()));
    assert_eq!(d.handle(Request::Abort), vec![]);
}

#[test]
fn a_line_that_is_no_command_gives_one_error() {
    assert_eq!(
        Dispatcher::decode_failed("expected value at line 1 column 1"),
        Event::Error { message: "Invalid request: expected value at line 1 column 1".to_string() }
    );
}

#[test]
fn output_lines_update_the_session() {
    let mut d = dispatcher();
    d.handle(Request::Chat(chat("x")));
    let mut translator = StreamTranslator::new();
    let events = d.stdout_line(
        &mut translator,
        "{\"type\":\"system\",\"subtype\":\"init\",\"session_id\":\"s9\",\"model\":\"m\"}",
    );
    assert_eq!(events.len(), 1);
    assert!(d.session().get_state().active);
    let events = d.stdout_line(&mut translator, "{\"type\":\"result\"}");
    assert_eq!(events.len(), 2);
    assert!(!d.session().get_state().active);
    assert!(d.is_running());
    assert!(d.stdout_line(&mut translator, "garbage").is_empty());
}

#[test]
fn the_end_of_output_marks_the_session_inactive() {
    let mut d = running_in_session("s1");
    let translator = StreamTranslator::new();
    d.stdout_closed(&translator);
    assert!(!d.session().get_state().active);
    assert!(d.is_running());
}
