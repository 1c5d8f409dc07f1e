//! Timing policy: the process-lifetime timeout, the mode-selected
//! auto-logout deadline, and one-shot sleep requests.
//!
//! All instants are milliseconds since the engine was created, so the
//! run start is time zero. The engine never reads a clock itself; every
//! step is handed the current instant by its caller.

use vstd::prelude::*;

verus! {

/// An armed one-shot sleep: the instant at which it wakes, and the
/// requested length (kept for the wake-up trace).
pub struct SleepDeadline {
    pub at_ms: u64,
    pub len_ms: u64,
}

/// The mode-selected auto-logout policy: how long after a successful
/// login the session is ended, and whether ending it is announced with
/// a trace record.
pub enum AutoLogout {
    Never,
    Silent { after_ms: u64 },
    Announced { after_ms: u64 },
}

/// Timer state owned by the session engine.
///
/// `timeout_ms == 0` means the process-lifetime timeout is disabled.
/// `logout_at` is the auto-logout deadline, armed when a login
/// succeeds.
pub struct TimerState {
    pub wake: Option<SleepDeadline>,
    pub timeout_ms: u64,
    pub logout_at: Option<u64>,
}

/// The run mode selects the auto-logout policy and whether a successful
/// login ends the session immediately.
pub enum RunMode {
    Standard,
    Rejection,
    Wallflower,
    Specter,
    Chatter,
    Interactive,
}

/// `n * 1000`, capped at `u64::MAX`.
pub open spec fn spec_secs_to_ms(n: u64) -> u64 {
    if n * 1000 > u64::MAX {
        u64::MAX
    } else {
        (n * 1000) as u64
    }
}

/// Converts whole seconds to milliseconds, capping at `u64::MAX`.
pub fn secs_to_ms(n: u64) -> (r: u64)
    ensures
        r == spec_secs_to_ms(n),
{
    if n > u64::MAX / 1000 {
        u64::MAX
    } else {
        n * 1000
    }
}

/// `a + b`, capped at `u64::MAX`.
pub open spec fn spec_sat_add(a: u64, b: u64) -> u64 {
    if a + b > u64::MAX {
        u64::MAX
    } else {
        (a + b) as u64
    }
}

/// Adds two instants/durations, capping at `u64::MAX`.
pub fn sat_add(a: u64, b: u64) -> (r: u64)
    ensures
        r == spec_sat_add(a, b),
{
    if a > u64::MAX - b {
        u64::MAX
    } else {
        a + b
    }
}

/// The process-lifetime timeout has elapsed: a timeout is configured
/// and the run time strictly exceeds it.
pub open spec fn timeout_due(timeout_ms: u64, now_ms: u64) -> bool {
    timeout_ms > 0 && now_ms > timeout_ms
}

/// The auto-logout deadline armed at login has elapsed.
pub open spec fn auto_logout_due(logout_at: Option<u64>, now_ms: u64) -> bool {
    logout_at matches Some(t) && now_ms > t
}

/// The auto-logout deadline a policy arms when a login succeeds at
/// `now_ms`.
pub open spec fn spec_logout_deadline(policy: AutoLogout, now_ms: u64) -> Option<u64> {
    match policy {
        AutoLogout::Never => None,
        AutoLogout::Silent { after_ms } => Some(spec_sat_add(now_ms, after_ms)),
        AutoLogout::Announced { after_ms } => Some(spec_sat_add(now_ms, after_ms)),
    }
}

/// Arms the auto-logout deadline for a login at `now_ms`.
pub fn logout_deadline(policy: &AutoLogout, now_ms: u64) -> (r: Option<u64>)
    ensures
        r == spec_logout_deadline(*policy, now_ms),
{
    match policy {
        AutoLogout::Never => None,
        AutoLogout::Silent { after_ms } => Some(sat_add(now_ms, *after_ms)),
        AutoLogout::Announced { after_ms } => Some(sat_add(now_ms, *after_ms)),
    }
}

/// The auto-logout policy each run mode selects: scripted modes end an
/// established session shortly after login and announce it, the
/// wallflower mode lingers silently, and the specter and interactive
/// modes never end the session on a deadline.
pub open spec fn spec_auto_logout_policy(mode: RunMode) -> AutoLogout {
    match mode {
        RunMode::Standard => AutoLogout::Announced { after_ms: 5000 },
        RunMode::Rejection => AutoLogout::Announced { after_ms: 5000 },
        RunMode::Chatter => AutoLogout::Announced { after_ms: 5000 },
        RunMode::Wallflower => AutoLogout::Silent { after_ms: 90000 },
        RunMode::Specter => AutoLogout::Never,
        RunMode::Interactive => AutoLogout::Never,
    }
}

/// Resolves a run mode into its auto-logout policy.
pub fn auto_logout_policy(mode: &RunMode) -> (r: AutoLogout)
    ensures
        r == spec_auto_logout_policy(*mode),
{
    match mode {
        RunMode::Standard => AutoLogout::Announced { after_ms: 5000 },
        RunMode::Rejection => AutoLogout::Announced { after_ms: 5000 },
        RunMode::Chatter => AutoLogout::Announced { after_ms: 5000 },
        RunMode::Wallflower => AutoLogout::Silent { after_ms: 90000 },
        RunMode::Specter => AutoLogout::Never,
        RunMode::Interactive => AutoLogout::Never,
    }
}

/// In specter mode the session ends the moment a login succeeds.
pub open spec fn spec_exits_on_login(mode: RunMode) -> bool {
    mode is Specter
}

/// Whether a successful login ends the session immediately.
pub fn exits_on_login(mode: &RunMode) -> (r: bool)
    ensures
        r == spec_exits_on_login(*mode),
{
    match mode {
        RunMode::Specter => true,
        _ => false,
    }
}

/// Which run mode a mode name selects. Every name that is not a known
/// scripted mode behaves as the standard mode does.
pub open spec fn spec_mode_from_name(s: Seq<char>) -> RunMode {
    if s == "rejection"@ {
        RunMode::Rejection
    } else if s == "wallflower"@ {
        RunMode::Wallflower
    } else if s == "ghost"@ {
        RunMode::Specter
    } else if s == "chatter"@ {
        RunMode::Chatter
    } else if s == "interactive"@ {
        RunMode::Interactive
    } else {
        RunMode::Standard
    }
}

/// Resolves a mode name into its run mode.
pub fn mode_from_name(s: &str) -> (r: RunMode)
    ensures
        r == spec_mode_from_name(s@),
{
    if crate::cmd::str_equal(s, "rejection") {
        RunMode::Rejection
    } else if crate::cmd::str_equal(s, "wallflower") {
        RunMode::Wallflower
    } else if crate::cmd::str_equal(s, "ghost") {
        RunMode::Specter
    } else if crate::cmd::str_equal(s, "chatter") {
        RunMode::Chatter
    } else if crate::cmd::str_equal(s, "interactive") {
        RunMode::Interactive
    } else {
        RunMode::Standard
    }
}

/// The rejection mode deliberately replaces the configured password
/// with one the server will refuse; every other mode keeps it.
pub fn effective_password(mode: &RunMode, given: String) -> (r: String)
    ensures
        *mode is Rejection ==> r@ == "badpassword"@,
        !(*mode is Rejection) ==> r@ == given@,
{
    match mode {
        RunMode::Rejection => "badpassword".to_owned(),
        _ => given,
    }
}

} // verus!
