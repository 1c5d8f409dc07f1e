use benthic_client::msg::{trace_of, TraceRecord};
use benthic_client::trace::{escape_quotes, render_sleep_note, render_trace_line, u64_to_dec};

#[test]
fn quotes_are_escaped_and_nothing_else() {
    assert_eq!(escape_quotes(""), "");
    assert_eq!(escape_quotes("plain text"), "plain text");
    assert_eq!(escape_quotes("a\"b"), "a\\\"b");
    assert_eq!(escape_quotes("\"\""), "\\\"\\\"");
    assert_eq!(escape_quotes("back\\slash"), "back\\slash");
}

#[test]
fn decimals_render_exactly() {
    assert_eq!(u64_to_dec(0), "0");
    assert_eq!(u64_to_dec(7), "7");
    assert_eq!(u64_to_dec(10), "10");
    assert_eq!(u64_to_dec(2500), "2500");
    assert_eq!(u64_to_dec(u64::MAX), "18446744073709551615");
}

#[test]
fn sleep_notes_render_in_seconds_without_trailing_zeros() {
    assert_eq!(render_sleep_note(2000), "Slept 2s");
    assert_eq!(render_sleep_note(2500), "Slept 2.5s");
    assert_eq!(render_sleep_note(2050), "Slept 2.05s");
    assert_eq!(render_sleep_note(2005), "Slept 2.005s");
    assert_eq!(render_sleep_note(500), "Slept 0.5s");
    assert_eq!(render_sleep_note(0), "Slept 0s");
    assert_eq!(render_sleep_note(1234), "Slept 1.234s");
}

#[test]
fn trace_line_without_tag_omits_the_ua_field() {
    let rec = trace_of("Login", "Start", "URI: http://x/");
    let line = render_trace_line("2020-01-01T00:00:00.000Z", "", &rec);
    assert_eq!(
        line,
        "{ \"at\": \"2020-01-01T00:00:00.000Z\", \"via\": \"Visitant\", \
         \"sys\": \"Login\", \"sig\": \"Start\", \"val\": \"URI: http://x/\" }",
    );
}

#[test]
fn trace_line_with_tag_carries_it_and_escapes_the_payload() {
    let rec = TraceRecord {
        sys: "Chat".to_string(),
        sig: "Heard".to_string(),
        val: "said \"hi\"".to_string(),
    };
    let line = render_trace_line("T", "tag-1", &rec);
    assert_eq!(
        line,
        "{ \"at\": \"T\", \"ua\": \"tag-1\", \"via\": \"Visitant\", \
         \"sys\": \"Chat\", \"sig\": \"Heard\", \"val\": \"said \\\"hi\\\"\" }",
    );
}
