use benthic_client::cmd::{parse_line, trim_spaces, LineResponse};
use benthic_client::engine::Engine;
use benthic_client::msg::{Command, InboundEvent, OutboundAction, TraceRecord};
use benthic_client::timing::RunMode;
use benthic_client::trace::render_trace_line;

fn interactive() -> Engine {
    Engine::new(0, &RunMode::Interactive)
}

fn login_cmd() -> Command {
    Command::Login {
        first: "Ada".to_string(),
        last: "Lovelace".to_string(),
        pass: "secret".to_string(),
        uri: "http://127.0.0.1:9000/".to_string(),
    }
}

fn login_success() -> InboundEvent {
    InboundEvent::LoginResponse {
        firstname: "Ada".to_string(),
        lastname: "Lovelace".to_string(),
    }
}

fn trace_tuple(t: &TraceRecord) -> (&str, &str, &str) {
    (t.sys.as_str(), t.sig.as_str(), t.val.as_str())
}

#[test]
fn login_then_success_logs_in_and_confirms_presence_once() {
    let mut e = interactive();
    assert!(!e.session.logged_in);

    let out = e.apply_command(login_cmd(), 0);
    assert!(!e.session.logged_in);
    assert!(!out.stop);
    assert_eq!(out.actions.len(), 1);
    match &out.actions[0] {
        OutboundAction::SendLogin { details } => {
            assert_eq!(details.first, "Ada");
            assert_eq!(details.last, "Lovelace");
            assert_eq!(details.passwd, "secret");
            assert_eq!(details.start, "home");
            assert_eq!(details.channel, "benthic_deepsea");
            assert!(details.agree_to_tos);
            assert!(details.read_critical);
            assert_eq!(details.url, "http://127.0.0.1:9000/");
        }
        _ => panic!("expected the login request"),
    }

    let out2 = e.apply_event(login_success(), 0);
    assert!(e.session.logged_in);
    assert!(!out2.stop);
    assert_eq!(out2.actions.len(), 1);
    assert!(matches!(out2.actions[0], OutboundAction::SendAgentUpdate));
    assert_eq!(out2.traces.len(), 1);
    assert_eq!(trace_tuple(&out2.traces[0]), ("Login", "Success", "Agent: Ada Lovelace"));
}

#[test]
fn whoami_reports_identity_only_once_logged_in() {
    let mut e = interactive();
    let out = e.apply_command(Command::WhoAmI, 0);
    assert!(out.traces.is_empty());
    assert_eq!(out.notes, vec!["Not connected.".to_string()]);

    e.apply_event(login_success(), 0);
    let out2 = e.apply_command(Command::WhoAmI, 0);
    assert!(out2.notes.is_empty());
    assert_eq!(out2.traces.len(), 1);
    assert_eq!(
        trace_tuple(&out2.traces[0]),
        ("Self", "Identity", "Name: Ada Lovelace, UUID: Unknown (Not Exposed)"),
    );
}

#[test]
fn presence_updates_are_deduplicated_and_reset_by_other_events() {
    let mut e = interactive();

    let first = e.apply_event(InboundEvent::PresenceOrLandUpdate, 0);
    assert_eq!(first.traces.len(), 1);
    assert_eq!(trace_tuple(&first.traces[0]), ("Territory", "Impression", "LandUpdate received"));

    let second = e.apply_event(InboundEvent::PresenceOrLandUpdate, 0);
    assert!(second.traces.is_empty());

    let chat = e.apply_event(
        InboundEvent::ChatFromServer {
            from_name: "Grace".to_string(),
            message: "hello".to_string(),
        },
        0,
    );
    assert_eq!(chat.traces.len(), 1);
    assert_eq!(trace_tuple(&chat.traces[0]), ("Chat", "Heard", "From: Grace, Msg: hello"));

    let third = e.apply_event(InboundEvent::PresenceOrLandUpdate, 0);
    assert_eq!(third.traces.len(), 1);
    assert_eq!(trace_tuple(&third.traces[0]), ("Territory", "Impression", "LandUpdate received"));
}

#[test]
fn subjective_because_then_why_round_trips_the_text() {
    let mut e = interactive();
    let set = e.apply_command(
        Command::SubjectiveBecause { text: "testing".to_string() },
        0,
    );
    assert_eq!(set.traces.len(), 1);
    assert_eq!(trace_tuple(&set.traces[0]), ("Cognition", "Because", "Updated"));

    let ask = e.apply_command(Command::SubjectiveWhy, 0);
    assert_eq!(ask.traces.len(), 1);
    assert_eq!(trace_tuple(&ask.traces[0]), ("Cognition", "Why", "testing"));
}

#[test]
fn subjective_why_starts_empty() {
    let mut e = interactive();
    let ask = e.apply_command(Command::SubjectiveWhy, 0);
    assert_eq!(trace_tuple(&ask.traces[0]), ("Cognition", "Why", ""));
}

#[test]
fn unimplemented_commands_only_announce_themselves() {
    let mut e = interactive();
    let cases: Vec<(Command, &str)> = vec![
        (Command::Who, "WHO is not yet implemented in Benthic."),
        (Command::Where, "WHERE is not yet implemented in Benthic."),
        (Command::When, "WHEN is not yet implemented in Benthic."),
        (Command::SubjectiveLook, "SUBJECTIVE_LOOK is not yet implemented in Benthic."),
        (
            Command::SubjectiveGoto { dest: "x".to_string() },
            "SUBJECTIVE_GOTO is not yet implemented in Benthic.",
        ),
        (Command::Pos { dest: "x".to_string() }, "POS is not yet implemented in Benthic."),
    ];
    for (cmd, text) in cases {
        let out = e.apply_command(cmd, 0);
        assert!(!out.stop);
        assert!(out.actions.is_empty());
        assert_eq!(out.traces.len(), 1);
        assert_eq!(trace_tuple(&out.traces[0]), ("System", "NotImplemented", text));
        assert!(!e.session.logged_in);
    }
}

#[test]
fn chat_command_emits_a_chat_action_on_channel_zero() {
    let mut e = interactive();
    let out = e.apply_command(Command::Chat { text: "hi there".to_string() }, 0);
    assert_eq!(out.actions.len(), 1);
    match &out.actions[0] {
        OutboundAction::SendChat { text, channel } => {
            assert_eq!(text, "hi there");
            assert_eq!(*channel, 0);
        }
        _ => panic!("expected a chat action"),
    }
    assert_eq!(
        trace_tuple(&out.traces[0]),
        ("DEBUG", "Main", "Received Command::Chat msg='hi there'"),
    );
}

#[test]
fn logout_and_exit_end_the_run() {
    let mut e = interactive();
    let out = e.apply_command(Command::Logout, 0);
    assert!(out.stop);
    assert_eq!(trace_tuple(&out.traces[0]), ("Logout", "REPL", "Director requested logout"));

    let mut e2 = interactive();
    let out2 = e2.apply_command(Command::Exit, 0);
    assert!(out2.stop);
    assert_eq!(trace_tuple(&out2.traces[0]), ("Exit", "REPL", "Director requested exit"));
}

#[test]
fn server_error_ends_the_session() {
    let mut e = interactive();
    let out = e.apply_event(InboundEvent::ServerError { detail: "boom".to_string() }, 0);
    assert!(out.stop);
    assert_eq!(trace_tuple(&out.traces[0]), ("Login", "Fail", "Connection error: boom"));
}

#[test]
fn server_shutdown_ends_the_session() {
    let mut e = interactive();
    let out = e.apply_event(InboundEvent::DisableServer, 0);
    assert!(out.stop);
    assert_eq!(trace_tuple(&out.traces[0]), ("Alert", "Heard", "Simulation Closing"));
}

#[test]
fn quiet_events_do_nothing() {
    let mut e = interactive();
    for ev in [
        InboundEvent::CoarseLocationUpdate,
        InboundEvent::MeshUpdate,
        InboundEvent::CameraPosition,
    ] {
        let out = e.apply_event(ev, 0);
        assert!(!out.stop);
        assert!(out.actions.is_empty());
        assert!(out.traces.is_empty());
    }
}

#[test]
fn unhandled_event_kinds_are_logged_and_ignored() {
    let mut e = interactive();
    let out = e.apply_event(InboundEvent::Unhandled, 0);
    assert!(!out.stop);
    assert!(out.actions.is_empty());
    assert_eq!(out.traces.len(), 1);
    assert_eq!(trace_tuple(&out.traces[0]), ("Territory", "Unhandled", "Unhandled event received"));
    assert!(!e.session.logged_in);
}

#[test]
fn specter_mode_vanishes_on_login() {
    let mut e = Engine::new(0, &RunMode::Specter);
    let out = e.apply_event(login_success(), 0);
    assert!(out.stop);
    assert!(e.session.logged_in);
    assert_eq!(out.actions.len(), 1);
    assert!(matches!(out.actions[0], OutboundAction::SendAgentUpdate));
    assert_eq!(out.traces.len(), 2);
    assert_eq!(trace_tuple(&out.traces[0]), ("Login", "Success", "Agent: Ada Lovelace"));
    assert_eq!(trace_tuple(&out.traces[1]), ("Behavior", "Ghost", "Vanishing immediately..."));
}

#[test]
fn operator_line_to_trace_line_end_to_end() {
    let mut e = interactive();

    let set = match parse_line(trim_spaces("  SUBJECTIVE_BECAUSE testing \r\n")) {
        LineResponse::Dispatch(c) => c,
        _ => panic!("expected a command"),
    };
    e.apply_command(set, 0);

    let ask = match parse_line("SUBJECTIVE_WHY") {
        LineResponse::Dispatch(c) => c,
        _ => panic!("expected a command"),
    };
    let out = e.apply_command(ask, 0);
    let line = render_trace_line("T", "", &out.traces[0]);
    assert_eq!(
        line,
        "{ \"at\": \"T\", \"via\": \"Visitant\", \
         \"sys\": \"Cognition\", \"sig\": \"Why\", \"val\": \"testing\" }",
    );
}
