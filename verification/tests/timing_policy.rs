use benthic_client::engine::Engine;
use benthic_client::msg::{Command, InboundEvent};
use benthic_client::timing::{
    auto_logout_policy, effective_password, mode_from_name, sat_add, secs_to_ms, AutoLogout,
    RunMode,
};

fn login_success() -> InboundEvent {
    InboundEvent::LoginResponse {
        firstname: "Ada".to_string(),
        lastname: "Lovelace".to_string(),
    }
}

#[test]
fn timeout_fires_strictly_after_the_deadline_with_a_timeout_trace() {
    let mut e = Engine::new(5, &RunMode::Interactive);

    let before = e.tick(5000);
    assert!(!before.stop);
    assert!(before.drain_commands);
    assert!(before.traces.is_empty());

    let after = e.tick(5001);
    assert!(after.stop);
    assert!(!after.drain_commands);
    assert_eq!(after.traces.len(), 1);
    assert_eq!(after.traces[0].sys, "System");
    assert_eq!(after.traces[0].sig, "Timeout");
    assert_eq!(after.traces[0].val, "Max run time reached.");
}

#[test]
fn zero_timeout_disables_the_deadline() {
    let mut e = Engine::new(0, &RunMode::Interactive);
    let t = e.tick(u64::MAX);
    assert!(!t.stop);
    assert!(t.drain_commands);
}

#[test]
fn sleep_pauses_command_intake_but_not_events() {
    let mut e = Engine::new(0, &RunMode::Interactive);

    let armed = e.apply_command(Command::Sleep { millis: 2000 }, 1000);
    assert!(!armed.stop);
    assert!(armed.traces.is_empty());

    let during = e.tick(1500);
    assert!(!during.stop);
    assert!(!during.drain_commands);
    assert!(during.traces.is_empty());

    let chat = e.apply_event(
        InboundEvent::ChatFromServer {
            from_name: "Grace".to_string(),
            message: "still here".to_string(),
        },
        1500,
    );
    assert_eq!(chat.traces.len(), 1);

    let still = e.tick(2999);
    assert!(!still.drain_commands);

    let woken = e.tick(3000);
    assert!(!woken.stop);
    assert!(woken.drain_commands);
    assert_eq!(woken.traces.len(), 1);
    assert_eq!(woken.traces[0].sys, "System");
    assert_eq!(woken.traces[0].sig, "Sleep");
    assert_eq!(woken.traces[0].val, "Slept 2s");

    let afterwards = e.tick(3001);
    assert!(afterwards.drain_commands);
    assert!(afterwards.traces.is_empty());
}

#[test]
fn fractional_sleep_lengths_are_traced_in_seconds() {
    let mut e = Engine::new(0, &RunMode::Interactive);
    e.apply_command(Command::Sleep { millis: 2500 }, 0);
    let woken = e.tick(2500);
    assert_eq!(woken.traces[0].val, "Slept 2.5s");
}

#[test]
fn standard_mode_announces_auto_logout_five_seconds_after_login() {
    let mut e = Engine::new(0, &RunMode::Standard);

    let idle = e.tick(10_000);
    assert!(!idle.stop, "no auto-logout while logged out");

    e.apply_event(login_success(), 0);
    let before = e.tick(5000);
    assert!(!before.stop);

    let after = e.tick(5001);
    assert!(after.stop);
    assert_eq!(after.traces.len(), 1);
    assert_eq!(after.traces[0].sys, "Logout");
    assert_eq!(after.traces[0].sig, "Initiate");
    assert_eq!(after.traces[0].val, "");
}

#[test]
fn auto_logout_deadline_is_anchored_at_the_login_instant() {
    let mut e = Engine::new(0, &RunMode::Standard);
    e.apply_event(login_success(), 3000);

    let before = e.tick(8000);
    assert!(!before.stop);

    let after = e.tick(8001);
    assert!(after.stop);
}

#[test]
fn wallflower_mode_lingers_then_leaves_silently() {
    let mut e = Engine::new(0, &RunMode::Wallflower);
    e.apply_event(login_success(), 0);

    let early = e.tick(60_000);
    assert!(!early.stop);

    let late = e.tick(90_001);
    assert!(late.stop);
    assert!(late.traces.is_empty());
}

#[test]
fn mode_names_resolve_to_policies() {
    assert!(matches!(
        auto_logout_policy(&mode_from_name("standard")),
        AutoLogout::Announced { after_ms: 5000 }
    ));
    assert!(matches!(
        auto_logout_policy(&mode_from_name("rejection")),
        AutoLogout::Announced { after_ms: 5000 }
    ));
    assert!(matches!(
        auto_logout_policy(&mode_from_name("chatter")),
        AutoLogout::Announced { after_ms: 5000 }
    ));
    assert!(matches!(
        auto_logout_policy(&mode_from_name("wallflower")),
        AutoLogout::Silent { after_ms: 90_000 }
    ));
    assert!(matches!(auto_logout_policy(&mode_from_name("ghost")), AutoLogout::Never));
    assert!(matches!(auto_logout_policy(&mode_from_name("interactive")), AutoLogout::Never));
    assert!(matches!(
        auto_logout_policy(&mode_from_name("no such mode")),
        AutoLogout::Announced { after_ms: 5000 }
    ));
}

#[test]
fn ghost_name_selects_exit_on_login() {
    let mut e = Engine::new(0, &mode_from_name("ghost"));
    let out = e.apply_event(login_success(), 0);
    assert!(out.stop);
}

#[test]
fn rejection_mode_spoils_the_password() {
    assert_eq!(effective_password(&RunMode::Rejection, "secret".to_string()), "badpassword");
    assert_eq!(effective_password(&RunMode::Standard, "secret".to_string()), "secret");
}

#[test]
fn millisecond_conversions_saturate() {
    assert_eq!(secs_to_ms(5), 5000);
    assert_eq!(secs_to_ms(0), 0);
    assert_eq!(secs_to_ms(u64::MAX), u64::MAX);
    assert_eq!(sat_add(1000, 2000), 3000);
    assert_eq!(sat_add(u64::MAX, 1), u64::MAX);
}
