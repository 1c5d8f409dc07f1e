use benthic_client::cmd::{parse_line, trim_spaces, LineResponse};
use benthic_client::msg::Command;

fn expect_notice(line: &str) -> String {
    match parse_line(line) {
        LineResponse::Notice(s) => s,
        _ => panic!("expected a notice for {:?}", line),
    }
}

fn expect_command(line: &str) -> Command {
    match parse_line(line) {
        LineResponse::Dispatch(c) => c,
        _ => panic!("expected a command for {:?}", line),
    }
}

#[test]
fn empty_line_is_ignored() {
    assert!(matches!(parse_line(""), LineResponse::Ignore));
}

#[test]
fn unknown_line_yields_unknown_notice() {
    assert_eq!(expect_notice("FOOBAR"), "Unknown command: FOOBAR");
    assert_eq!(expect_notice("login a b c"), "Unknown command: login a b c");
    assert_eq!(expect_notice("WHOAMI extra"), "Unknown command: WHOAMI extra");
    assert_eq!(expect_notice("SLEEP"), "Unknown command: SLEEP");
}

#[test]
fn login_with_three_tokens_uses_default_uri() {
    match expect_command("LOGIN Ada Lovelace secret") {
        Command::Login { first, last, pass, uri } => {
            assert_eq!(first, "Ada");
            assert_eq!(last, "Lovelace");
            assert_eq!(pass, "secret");
            assert_eq!(uri, "http://127.0.0.1:9000/");
        }
        _ => panic!("expected a login command"),
    }
}

#[test]
fn login_with_uri_token_keeps_it() {
    match expect_command("LOGIN Ada Lovelace secret http://grid.example:9000/") {
        Command::Login { uri, .. } => assert_eq!(uri, "http://grid.example:9000/"),
        _ => panic!("expected a login command"),
    }
}

#[test]
fn login_tolerates_extra_whitespace_between_tokens() {
    match expect_command("LOGIN   Ada\t Lovelace   secret") {
        Command::Login { first, last, pass, .. } => {
            assert_eq!(first, "Ada");
            assert_eq!(last, "Lovelace");
            assert_eq!(pass, "secret");
        }
        _ => panic!("expected a login command"),
    }
}

#[test]
fn login_with_too_few_tokens_yields_usage() {
    assert_eq!(expect_notice("LOGIN Ada Lovelace"), "Usage: LOGIN First Last Pass [URI]");
    assert_eq!(expect_notice("LOGIN "), "Usage: LOGIN First Last Pass [URI]");
}

#[test]
fn chat_takes_the_remainder_verbatim() {
    match expect_command("CHAT hello  world") {
        Command::Chat { text } => assert_eq!(text, "hello  world"),
        _ => panic!("expected a chat command"),
    }
}

#[test]
fn sleep_parses_decimal_seconds_to_millis() {
    assert!(matches!(expect_command("SLEEP 2"), Command::Sleep { millis: 2000 }));
    assert!(matches!(expect_command("SLEEP 2.5"), Command::Sleep { millis: 2500 }));
    assert!(matches!(expect_command("SLEEP .5"), Command::Sleep { millis: 500 }));
    assert!(matches!(expect_command("SLEEP 1."), Command::Sleep { millis: 1000 }));
    assert!(matches!(expect_command("SLEEP 0.0005"), Command::Sleep { millis: 0 }));
    assert!(matches!(expect_command("SLEEP 1.2345"), Command::Sleep { millis: 1234 }));
    assert!(matches!(expect_command("SLEEP +0.25"), Command::Sleep { millis: 250 }));
}

#[test]
fn sleep_of_a_negative_number_wakes_immediately() {
    assert!(matches!(expect_command("SLEEP -2.5"), Command::Sleep { millis: 0 }));
}

#[test]
fn sleep_saturates_on_enormous_numbers() {
    assert!(matches!(
        expect_command("SLEEP 99999999999999999999999999"),
        Command::Sleep { millis: u64::MAX }
    ));
}

#[test]
fn sleep_rejects_malformed_numbers() {
    assert_eq!(expect_notice("SLEEP abc"), "Usage: SLEEP float_seconds");
    assert_eq!(expect_notice("SLEEP 1.2.3"), "Usage: SLEEP float_seconds");
    assert_eq!(expect_notice("SLEEP ."), "Usage: SLEEP float_seconds");
    assert_eq!(expect_notice("SLEEP -"), "Usage: SLEEP float_seconds");
    assert_eq!(expect_notice("SLEEP  2"), "Usage: SLEEP float_seconds");
    assert_eq!(expect_notice("SLEEP 2 3"), "Usage: SLEEP float_seconds");
}

#[test]
fn exact_keywords_dispatch() {
    assert!(matches!(expect_command("WHOAMI"), Command::WhoAmI));
    assert!(matches!(expect_command("WHO"), Command::Who));
    assert!(matches!(expect_command("WHERE"), Command::Where));
    assert!(matches!(expect_command("WHEN"), Command::When));
    assert!(matches!(expect_command("SUBJECTIVE_WHY"), Command::SubjectiveWhy));
    assert!(matches!(expect_command("SUBJECTIVE_LOOK"), Command::SubjectiveLook));
    assert!(matches!(expect_command("LOGOUT"), Command::Logout));
    assert!(matches!(expect_command("EXIT"), Command::Exit));
}

#[test]
fn keyword_arguments_are_taken_verbatim() {
    match expect_command("SUBJECTIVE_BECAUSE testing") {
        Command::SubjectiveBecause { text } => assert_eq!(text, "testing"),
        _ => panic!("expected an annotation command"),
    }
    match expect_command("SUBJECTIVE_GOTO the garden") {
        Command::SubjectiveGoto { dest } => assert_eq!(dest, "the garden"),
        _ => panic!("expected a goto command"),
    }
    match expect_command("POS 1 2 3") {
        Command::Pos { dest } => assert_eq!(dest, "1 2 3"),
        _ => panic!("expected a pos command"),
    }
}

#[test]
fn trim_strips_surrounding_whitespace_only() {
    assert_eq!(trim_spaces("  WHOAMI \r\n"), "WHOAMI");
    assert_eq!(trim_spaces("\t CHAT a b \t"), "CHAT a b");
    assert_eq!(trim_spaces(""), "");
    assert_eq!(trim_spaces(" \t "), "");
    assert_eq!(trim_spaces("plain"), "plain");
}
