//! The session engine: the state machine at the centre of the client.
//!
//! The engine owns the session state and the timer state. Its callers
//! run the event loop: each turn they ask [`Engine::tick`] whether the
//! run is over and whether command intake is paused, then apply queued
//! operator commands with [`Engine::apply_command`] and at most one
//! inbound event with [`Engine::apply_event`]. Every step returns the
//! outbound actions to transmit, the trace records to emit, and whether
//! the session is over; the engine itself performs no input or output.

use crate::msg::{
    ActionView, CmdView, Command, EventView, InboundEvent, LoginDetails, LoginDetailsView,
    OutboundAction, TraceRecord, TraceView,
};
use crate::timing::{
    auto_logout_due, auto_logout_policy, exits_on_login, logout_deadline, sat_add, secs_to_ms,
    spec_auto_logout_policy, spec_exits_on_login, spec_logout_deadline, spec_sat_add,
    spec_secs_to_ms, timeout_due, AutoLogout, RunMode, SleepDeadline, TimerState,
};
use crate::trace::{render_sleep_note, sleep_note};
use vstd::prelude::*;

verus! {

/// The session state. It is mutated only through the engine's step
/// methods; `logged_in` becomes true only when an inbound login-success
/// event is applied.
pub struct SessionState {
    pub logged_in: bool,
    pub first_name: String,
    pub last_name: String,
    pub uuid_or_unknown: String,
    pub subjective_reason: String,
    pub last_event_was_presence_update: bool,
}

/// The mathematical value of a [`SessionState`].
pub struct SessionView {
    pub logged_in: bool,
    pub first_name: Seq<char>,
    pub last_name: Seq<char>,
    pub uuid_or_unknown: Seq<char>,
    pub subjective_reason: Seq<char>,
    pub last_event_was_presence_update: bool,
}

impl View for SessionState {
    type V = SessionView;

    open spec fn view(&self) -> SessionView {
        SessionView {
            logged_in: self.logged_in,
            first_name: self.first_name@,
            last_name: self.last_name@,
            uuid_or_unknown: self.uuid_or_unknown@,
            subjective_reason: self.subjective_reason@,
            last_event_was_presence_update: self.last_event_was_presence_update,
        }
    }
}

impl DeepView for SessionState {
    type V = SessionView;

    open spec fn deep_view(&self) -> SessionView {
        self.view()
    }
}

/// The session state at engine start: nothing known, nobody logged in.
pub open spec fn initial_session() -> SessionView {
    SessionView {
        logged_in: false,
        first_name: Seq::empty(),
        last_name: Seq::empty(),
        uuid_or_unknown: Seq::empty(),
        subjective_reason: Seq::empty(),
        last_event_was_presence_update: false,
    }
}

/// The session engine.
pub struct Engine {
    pub session: SessionState,
    pub timer: TimerState,
    pub auto_logout: AutoLogout,
    pub exit_on_login: bool,
}

/// The mathematical value of an [`Engine`].
pub struct EngineView {
    pub session: SessionView,
    pub timer: TimerState,
    pub auto_logout: AutoLogout,
    pub exit_on_login: bool,
}

impl View for Engine {
    type V = EngineView;

    open spec fn view(&self) -> EngineView {
        EngineView {
            session: self.session@,
            timer: self.timer,
            auto_logout: self.auto_logout,
            exit_on_login: self.exit_on_login,
        }
    }
}

/// What one engine step yields besides the new engine state: outbound
/// actions to transmit, trace records to emit, plain console notes for
/// the operator, and whether the session is over.
pub struct StepOutput {
    pub actions: Vec<OutboundAction>,
    pub traces: Vec<TraceRecord>,
    pub notes: Vec<String>,
    pub stop: bool,
}

/// The mathematical value of one engine step: the engine state after
/// it, and the step's outputs.
pub struct StepView {
    pub engine: EngineView,
    pub actions: Seq<ActionView>,
    pub traces: Seq<TraceView>,
    pub notes: Seq<Seq<char>>,
    pub stop: bool,
}

/// How an exec step has to relate to its specification: the new engine
/// state and every output agree with the spec-level step.
pub open spec fn step_post(s: StepView, e_new: EngineView, r: StepOutput) -> bool {
    &&& e_new == s.engine
    &&& r.actions.deep_view() == s.actions
    &&& r.traces.deep_view() == s.traces
    &&& r.notes.deep_view() == s.notes
    &&& r.stop == s.stop
}

/// What one timer turn yields: trace records, whether the run is over,
/// and whether queued commands may be drained this turn.
pub struct TickOutput {
    pub traces: Vec<TraceRecord>,
    pub stop: bool,
    pub drain_commands: bool,
}

/// The mathematical value of one timer turn.
pub struct TickView {
    pub engine: EngineView,
    pub traces: Seq<TraceView>,
    pub stop: bool,
    pub drain_commands: bool,
}

/// How an exec tick has to relate to its specification.
pub open spec fn tick_post(s: TickView, e_new: EngineView, r: TickOutput) -> bool {
    &&& e_new == s.engine
    &&& r.traces.deep_view() == s.traces
    &&& r.stop == s.stop
    &&& r.drain_commands == s.drain_commands
}

/// A step that leaves the engine as it is and produces nothing but the
/// given outputs.
pub open spec fn plain_step(
    e: EngineView,
    actions: Seq<ActionView>,
    traces: Seq<TraceView>,
    notes: Seq<Seq<char>>,
    stop: bool,
) -> StepView {
    StepView { engine: e, actions, traces, notes, stop }
}

/// One trace record as a spec value.
pub open spec fn tr(sys: Seq<char>, sig: Seq<char>, val: Seq<char>) -> TraceView {
    TraceView { sys, sig, val }
}

/// The fixed start location of every login request.
pub open spec fn login_start() -> Seq<char> {
    "home"@
}

/// The fixed channel name this client logs in under.
pub open spec fn login_channel() -> Seq<char> {
    "benthic_deepsea"@
}

/// The placeholder identity text used until the protocol exposes an
/// agent id.
pub open spec fn unknown_uuid() -> Seq<char> {
    "Unknown (Not Exposed)"@
}

/// The login request the engine sends for the given credentials: the
/// operator-supplied names, password and grid URL, with the fixed start
/// location, channel name and terms flags filled in.
pub open spec fn login_details_for(
    first: Seq<char>,
    last: Seq<char>,
    pass: Seq<char>,
    uri: Seq<char>,
) -> LoginDetailsView {
    LoginDetailsView {
        first,
        last,
        passwd: pass,
        start: login_start(),
        channel: login_channel(),
        agree_to_tos: true,
        read_critical: true,
        url: uri,
    }
}

/// How the engine applies one operator command.
///
/// Commands never change `logged_in`; the only state they touch is the
/// subjective annotation and the sleep deadline. `Login` and `Chat`
/// emit outbound actions, the query commands emit traces or notes, the
/// unimplemented commands announce themselves, and `Logout` and `Exit`
/// end the run.
pub open spec fn spec_apply_command(e: EngineView, c: CmdView, now_ms: u64) -> StepView {
    match c {
        CmdView::Login { first, last, pass, uri } => plain_step(
            e,
            seq![ActionView::SendLogin { details: login_details_for(first, last, pass, uri) }],
            seq![tr("DEBUG"@, "Main"@, "Received Command::Login"@)],
            Seq::empty(),
            false,
        ),
        CmdView::Chat { text } => plain_step(
            e,
            seq![ActionView::SendChat { text, channel: 0 }],
            seq![tr("DEBUG"@, "Main"@, "Received Command::Chat msg='"@ + text + "'"@)],
            Seq::empty(),
            false,
        ),
        CmdView::Sleep { millis } => StepView {
            engine: EngineView {
                timer: TimerState {
                    wake: Some(
                        SleepDeadline { at_ms: spec_sat_add(now_ms, millis), len_ms: millis },
                    ),
                    ..e.timer
                },
                ..e
            },
            actions: Seq::empty(),
            traces: Seq::empty(),
            notes: Seq::empty(),
            stop: false,
        },
        CmdView::WhoAmI => {
            if e.session.logged_in {
                plain_step(
                    e,
                    Seq::empty(),
                    seq![
                        tr(
                            "Self"@,
                            "Identity"@,
                            "Name: "@ + e.session.first_name + " "@ + e.session.last_name
                                + ", UUID: "@ + e.session.uuid_or_unknown,
                        ),
                    ],
                    Seq::empty(),
                    false,
                )
            } else {
                plain_step(e, Seq::empty(), Seq::empty(), seq!["Not connected."@], false)
            }
        },
        CmdView::Who => plain_step(
            e,
            Seq::empty(),
            seq![
                tr("System"@, "NotImplemented"@, "WHO is not yet implemented in Benthic."@),
            ],
            Seq::empty(),
            false,
        ),
        CmdView::Where => plain_step(
            e,
            Seq::empty(),
            seq![
                tr("System"@, "NotImplemented"@, "WHERE is not yet implemented in Benthic."@),
            ],
            Seq::empty(),
            false,
        ),
        CmdView::When => plain_step(
            e,
            Seq::empty(),
            seq![
                tr("System"@, "NotImplemented"@, "WHEN is not yet implemented in Benthic."@),
            ],
            Seq::empty(),
            false,
        ),
        CmdView::SubjectiveWhy => plain_step(
            e,
            Seq::empty(),
            seq![tr("Cognition"@, "Why"@, e.session.subjective_reason)],
            Seq::empty(),
            false,
        ),
        CmdView::SubjectiveBecause { text } => StepView {
            engine: EngineView {
                session: SessionView { subjective_reason: text, ..e.session },
                ..e
            },
            actions: Seq::empty(),
            traces: seq![tr("Cognition"@, "Because"@, "Updated"@)],
            notes: Seq::empty(),
            stop: false,
        },
        CmdView::SubjectiveLook => plain_step(
            e,
            Seq::empty(),
            seq![
                tr(
                    "System"@,
                    "NotImplemented"@,
                    "SUBJECTIVE_LOOK is not yet implemented in Benthic."@,
                ),
            ],
            Seq::empty(),
            false,
        ),
        CmdView::SubjectiveGoto { dest } => plain_step(
            e,
            Seq::empty(),
            seq![
                tr(
                    "System"@,
                    "NotImplemented"@,
                    "SUBJECTIVE_GOTO is not yet implemented in Benthic."@,
                ),
            ],
            Seq::empty(),
            false,
        ),
        CmdView::Pos { dest } => plain_step(
            e,
            Seq::empty(),
            seq![
                tr("System"@, "NotImplemented"@, "POS is not yet implemented in Benthic."@),
            ],
            Seq::empty(),
            false,
        ),
        CmdView::Logout => plain_step(
            e,
            Seq::empty(),
            seq![tr("Logout"@, "REPL"@, "Director requested logout"@)],
            Seq::empty(),
            true,
        ),
        CmdView::Exit => plain_step(
            e,
            Seq::empty(),
            seq![tr("Exit"@, "REPL"@, "Director requested exit"@)],
            Seq::empty(),
            true,
        ),
    }
}

/// How the engine applies one inbound event.
///
/// Any event other than a presence/land update clears the dedup flag. A
/// login success records the identity, sets `logged_in`, arms the
/// mode's auto-logout deadline from this instant, and emits exactly one
/// presence confirmation; a server error and a server shutdown end the
/// session; a presence/land update is traced only on its first
/// occurrence after any other event; chat from the server is traced; a
/// message kind the engine has no reaction to is logged and ignored;
/// the quiet location and rendering updates are ignored silently.
pub open spec fn spec_apply_event(e: EngineView, v: EventView, now_ms: u64) -> StepView {
    let s0 = if !(v is PresenceOrLandUpdate) {
        SessionView { last_event_was_presence_update: false, ..e.session }
    } else {
        e.session
    };
    let e0 = EngineView { session: s0, ..e };
    match v {
        EventView::LoginResponse { firstname, lastname } => StepView {
            engine: EngineView {
                session: SessionView {
                    logged_in: true,
                    first_name: firstname,
                    last_name: lastname,
                    uuid_or_unknown: unknown_uuid(),
                    ..s0
                },
                timer: TimerState {
                    logout_at: spec_logout_deadline(e.auto_logout, now_ms),
                    ..e.timer
                },
                ..e0
            },
            actions: seq![ActionView::SendAgentUpdate],
            traces: if e.exit_on_login {
                seq![
                    tr("Login"@, "Success"@, "Agent: "@ + firstname + " "@ + lastname),
                    tr("Behavior"@, "Ghost"@, "Vanishing immediately..."@),
                ]
            } else {
                seq![tr("Login"@, "Success"@, "Agent: "@ + firstname + " "@ + lastname)]
            },
            notes: Seq::empty(),
            stop: e.exit_on_login,
        },
        EventView::ServerError { detail } => plain_step(
            e0,
            Seq::empty(),
            seq![tr("Login"@, "Fail"@, "Connection error: "@ + detail)],
            Seq::empty(),
            true,
        ),
        EventView::CoarseLocationUpdate => plain_step(
            e0,
            Seq::empty(),
            Seq::empty(),
            Seq::empty(),
            false,
        ),
        EventView::PresenceOrLandUpdate => {
            if !e.session.last_event_was_presence_update {
                StepView {
                    engine: EngineView {
                        session: SessionView { last_event_was_presence_update: true, ..s0 },
                        ..e0
                    },
                    actions: Seq::empty(),
                    traces: seq![tr("Territory"@, "Impression"@, "LandUpdate received"@)],
                    notes: Seq::empty(),
                    stop: false,
                }
            } else {
                plain_step(e0, Seq::empty(), Seq::empty(), Seq::empty(), false)
            }
        },
        EventView::MeshUpdate => plain_step(e0, Seq::empty(), Seq::empty(), Seq::empty(), false),
        EventView::CameraPosition => plain_step(
            e0,
            Seq::empty(),
            Seq::empty(),
            Seq::empty(),
            false,
        ),
        EventView::ChatFromServer { from_name, message } => plain_step(
            e0,
            Seq::empty(),
            seq![tr("Chat"@, "Heard"@, "From: "@ + from_name + ", Msg: "@ + message)],
            Seq::empty(),
            false,
        ),
        EventView::DisableServer => plain_step(
            e0,
            Seq::empty(),
            seq![tr("Alert"@, "Heard"@, "Simulation Closing"@)],
            Seq::empty(),
            true,
        ),
        EventView::Unhandled => plain_step(
            e0,
            Seq::empty(),
            seq![tr("Territory"@, "Unhandled"@, "Unhandled event received"@)],
            Seq::empty(),
            false,
        ),
    }
}

/// How the engine decides one timer turn.
///
/// The process-lifetime timeout is checked first, then the auto-logout
/// deadline; either ends the run and pauses command intake. Otherwise a
/// pending sleep pauses command intake until its deadline passes, and
/// its passing is traced; with nothing pending, commands may be
/// drained.
pub open spec fn spec_tick(e: EngineView, now_ms: u64) -> TickView {
    if timeout_due(e.timer.timeout_ms, now_ms) {
        TickView {
            engine: e,
            traces: seq![tr("System"@, "Timeout"@, "Max run time reached."@)],
            stop: true,
            drain_commands: false,
        }
    } else if auto_logout_due(e.timer.logout_at, now_ms) {
        TickView {
            engine: e,
            traces: if e.auto_logout is Announced {
                seq![tr("Logout"@, "Initiate"@, ""@)]
            } else {
                Seq::empty()
            },
            stop: true,
            drain_commands: false,
        }
    } else {
        match e.timer.wake {
            Some(d) => {
                if now_ms >= d.at_ms {
                    TickView {
                        engine: EngineView { timer: TimerState { wake: None, ..e.timer }, ..e },
                        traces: seq![tr("System"@, "Sleep"@, sleep_note(d.len_ms))],
                        stop: false,
                        drain_commands: true,
                    }
                } else {
                    TickView {
                        engine: e,
                        traces: Seq::empty(),
                        stop: false,
                        drain_commands: false,
                    }
                }
            },
            None => TickView {
                engine: e,
                traces: Seq::empty(),
                stop: false,
                drain_commands: true,
            },
        }
    }
}

/// Law: a login command followed by a login-success event takes the
/// session from logged-out to logged-in, arms the mode's auto-logout
/// deadline from the event's instant, and exactly one outbound
/// presence-confirmation action is emitted — by the event; the command
/// itself emits only the login request.
pub proof fn lemma_login_then_success(
    e: EngineView,
    first: Seq<char>,
    last: Seq<char>,
    pass: Seq<char>,
    uri: Seq<char>,
    fname: Seq<char>,
    lname: Seq<char>,
    now_ms: u64,
    evt_ms: u64,
)
    requires
        !e.session.logged_in,
    ensures
        ({
            let s1 = spec_apply_command(e, CmdView::Login { first, last, pass, uri }, now_ms);
            let s2 = spec_apply_event(
                s1.engine,
                EventView::LoginResponse { firstname: fname, lastname: lname },
                evt_ms,
            );
            &&& s1.engine == e
            &&& !s1.engine.session.logged_in
            &&& s1.actions == seq![
                ActionView::SendLogin { details: login_details_for(first, last, pass, uri) },
            ]
            &&& s2.engine.session.logged_in
            &&& s2.engine.session.first_name == fname
            &&& s2.engine.session.last_name == lname
            &&& s2.engine.timer.logout_at == spec_logout_deadline(e.auto_logout, evt_ms)
            &&& s2.actions == seq![ActionView::SendAgentUpdate]
        }),
{
}

/// Law: while a sleep deadline is pending, no timer turn drains
/// commands, so commands queued in the window are not applied before
/// the deadline; once it has passed (and neither the timeout nor the
/// auto-logout deadline ends the run), the next turn drains them again.
pub proof fn lemma_sleep_gates_commands(e: EngineView, millis: u64, now_ms: u64, later: u64)
    ensures
        ({
            let s1 = spec_apply_command(e, CmdView::Sleep { millis }, now_ms);
            let wake = spec_sat_add(now_ms, millis);
            &&& s1.engine.timer.wake == Some(SleepDeadline { at_ms: wake, len_ms: millis })
            &&& s1.engine.session == e.session
            &&& later < wake ==> !spec_tick(s1.engine, later).drain_commands
            &&& (later >= wake && !timeout_due(e.timer.timeout_ms, later) && !auto_logout_due(
                e.timer.logout_at,
                later,
            )) ==> spec_tick(s1.engine, later).drain_commands
        }),
{
}

/// Law: inbound events are applied regardless of any pending sleep:
/// two engines that differ only in their timer deadlines react to
/// every event with the same session state, actions, traces, notes and
/// verdict.
pub proof fn lemma_events_ignore_sleep(e1: EngineView, e2: EngineView, v: EventView, now_ms: u64)
    requires
        e2.session == e1.session,
        e2.auto_logout == e1.auto_logout,
        e2.exit_on_login == e1.exit_on_login,
        e2.timer.timeout_ms == e1.timer.timeout_ms,
    ensures
        ({
            let s1 = spec_apply_event(e1, v, now_ms);
            let s2 = spec_apply_event(e2, v, now_ms);
            &&& s1.engine.session == s2.engine.session
            &&& s1.actions == s2.actions
            &&& s1.traces == s2.traces
            &&& s1.notes == s2.notes
            &&& s1.stop == s2.stop
        }),
{
}

/// Law: after any applied event, the dedup flag records exactly
/// whether that event was a presence/land update — so the flag is
/// clear at engine start and again after every other event kind.
pub proof fn lemma_presence_flag_tracks_events(e: EngineView, v: EventView, now_ms: u64)
    ensures
        spec_apply_event(e, v, now_ms).engine.session.last_event_was_presence_update == (v
            is PresenceOrLandUpdate),
{
}

/// Law: a presence/land update is traced exactly once per run of
/// updates: a second update in a row is silent, and after any other
/// event the next update is traced again. The starting condition — the
/// dedup flag is clear — holds at engine start and after any event
/// that is not itself a presence/land update, by
/// [`lemma_presence_flag_tracks_events`].
pub proof fn lemma_presence_update_dedup(
    e: EngineView,
    from: Seq<char>,
    msg: Seq<char>,
    now_ms: u64,
)
    requires
        !e.session.last_event_was_presence_update,
    ensures
        ({
            let s1 = spec_apply_event(e, EventView::PresenceOrLandUpdate, now_ms);
            let s2 = spec_apply_event(s1.engine, EventView::PresenceOrLandUpdate, now_ms);
            let s3 = spec_apply_event(
                s2.engine,
                EventView::ChatFromServer { from_name: from, message: msg },
                now_ms,
            );
            let s4 = spec_apply_event(s3.engine, EventView::PresenceOrLandUpdate, now_ms);
            &&& s1.traces == seq![tr("Territory"@, "Impression"@, "LandUpdate received"@)]
            &&& s2.traces == Seq::<TraceView>::empty()
            &&& s4.traces == seq![tr("Territory"@, "Impression"@, "LandUpdate received"@)]
        }),
{
}

/// Law: once a configured process-lifetime timeout has elapsed, the
/// timer turn ends the run with exactly the timeout trace; and before
/// it has elapsed, no timer turn ends the run of a session that never
/// logged in (so no auto-logout deadline was ever armed).
pub proof fn lemma_timeout_terminates(e: EngineView, now_ms: u64, earlier: u64)
    requires
        e.timer.timeout_ms > 0,
        now_ms > e.timer.timeout_ms,
        earlier <= e.timer.timeout_ms,
        e.timer.logout_at is None,
    ensures
        ({
            let t = spec_tick(e, now_ms);
            &&& t.stop
            &&& t.traces == seq![tr("System"@, "Timeout"@, "Max run time reached."@)]
            &&& t.engine == e
        }),
        !spec_tick(e, earlier).stop,
{
}

/// Law: setting the subjective annotation and then asking for it yields
/// a trace whose payload is exactly the annotation text.
pub proof fn lemma_subjective_round_trip(e: EngineView, text: Seq<char>, n1: u64, n2: u64)
    ensures
        ({
            let s1 = spec_apply_command(e, CmdView::SubjectiveBecause { text }, n1);
            let s2 = spec_apply_command(s1.engine, CmdView::SubjectiveWhy, n2);
            &&& s1.engine.session.subjective_reason == text
            &&& s2.traces == seq![tr("Cognition"@, "Why"@, text)]
            &&& s2.engine == s1.engine
        }),
{
}

/// A step output with no actions, no traces, no notes, and the given
/// verdict.
fn empty_step(stop: bool) -> (r: StepOutput)
    ensures
        r.actions@ == Seq::<OutboundAction>::empty(),
        r.traces@ == Seq::<TraceRecord>::empty(),
        r.notes@ == Seq::<String>::empty(),
        r.actions.deep_view() == Seq::<ActionView>::empty(),
        r.traces.deep_view() == Seq::<TraceView>::empty(),
        r.notes.deep_view() == Seq::<Seq<char>>::empty(),
        r.stop == stop,
{
    let r = StepOutput { actions: Vec::new(), traces: Vec::new(), notes: Vec::new(), stop };
    proof {
        assert(r.actions.deep_view() =~= Seq::<ActionView>::empty());
        assert(r.traces.deep_view() =~= Seq::<TraceView>::empty());
        assert(r.notes.deep_view() =~= Seq::<Seq<char>>::empty());
    }
    r
}

/// A step output holding one trace record and nothing else.
fn trace_step(t: TraceRecord, stop: bool) -> (r: StepOutput)
    ensures
        r.actions@ == Seq::<OutboundAction>::empty(),
        r.traces@ == seq![t],
        r.notes@ == Seq::<String>::empty(),
        r.actions.deep_view() == Seq::<ActionView>::empty(),
        r.traces.deep_view() == seq![t@],
        r.notes.deep_view() == Seq::<Seq<char>>::empty(),
        r.stop == stop,
{
    let mut r = empty_step(stop);
    r.traces.push(t);
    proof {
        assert(r.traces@ =~= seq![t]);
        assert(r.traces.deep_view() =~= seq![t@]);
    }
    r
}

impl Engine {
    /// A fresh engine: empty session, no sleep pending, the given
    /// process-lifetime timeout (in whole seconds, 0 disables it), and
    /// the policies the run mode selects.
    pub fn new(timeout_secs: u64, mode: &RunMode) -> (r: Engine)
        ensures
            r@.session == initial_session(),
            r@.timer.wake is None,
            r@.timer.logout_at is None,
            r@.timer.timeout_ms == spec_secs_to_ms(timeout_secs),
            r@.auto_logout == spec_auto_logout_policy(*mode),
            r@.exit_on_login == spec_exits_on_login(*mode),
    {
        Engine {
            session: SessionState {
                logged_in: false,
                first_name: String::new(),
                last_name: String::new(),
                uuid_or_unknown: String::new(),
                subjective_reason: String::new(),
                last_event_was_presence_update: false,
            },
            timer: TimerState { wake: None, timeout_ms: secs_to_ms(timeout_secs), logout_at: None },
            auto_logout: auto_logout_policy(mode),
            exit_on_login: exits_on_login(mode),
        }
    }

    /// Applies one operator command, as [`spec_apply_command`] says.
    ///
    /// No command changes `logged_in`.
    pub fn apply_command(&mut self, cmd: Command, now_ms: u64) -> (r: StepOutput)
        ensures
            step_post(spec_apply_command(old(self)@, cmd@, now_ms), final(self)@, r),
            final(self)@.session.logged_in == old(self)@.session.logged_in,
    {
        match cmd {
            Command::Login { first, last, pass, uri } => {
                let details = LoginDetails {
                    first,
                    last,
                    passwd: pass,
                    start: "home".to_owned(),
                    channel: "benthic_deepsea".to_owned(),
                    agree_to_tos: true,
                    read_critical: true,
                    url: uri,
                };
                let mut r = trace_step(
                    crate::msg::trace_of("DEBUG", "Main", "Received Command::Login"),
                    false,
                );
                r.actions.push(OutboundAction::SendLogin { details });
                proof {
                    let s = spec_apply_command(old(self)@, cmd@, now_ms);
                    assert(r.actions.deep_view() =~= s.actions);
                }
                r
            },
            Command::Chat { text } => {
                let mut val = String::new();
                val.append("Received Command::Chat msg='");
                val.append(text.as_str());
                val.append("'");
                let mut r = trace_step(
                    TraceRecord { sys: "DEBUG".to_owned(), sig: "Main".to_owned(), val },
                    false,
                );
                r.actions.push(OutboundAction::SendChat { text, channel: 0 });
                proof {
                    let s = spec_apply_command(old(self)@, cmd@, now_ms);
                    assert(r.actions.deep_view() =~= s.actions);
                    assert(r.traces.deep_view() =~= s.traces);
                }
                r
            },
            Command::Sleep { millis } => {
                self.timer.wake = Some(
                    SleepDeadline { at_ms: sat_add(now_ms, millis), len_ms: millis },
                );
                empty_step(false)
            },
            Command::WhoAmI => {
                if self.session.logged_in {
                    let mut val = String::new();
                    val.append("Name: ");
                    val.append(self.session.first_name.as_str());
                    val.append(" ");
                    val.append(self.session.last_name.as_str());
                    val.append(", UUID: ");
                    val.append(self.session.uuid_or_unknown.as_str());
                    trace_step(
                        TraceRecord { sys: "Self".to_owned(), sig: "Identity".to_owned(), val },
                        false,
                    )
                } else {
                    let mut r = empty_step(false);
                    r.notes.push("Not connected.".to_owned());
                    proof {
                        let s = spec_apply_command(old(self)@, cmd@, now_ms);
                        assert(r.notes.deep_view() =~= s.notes);
                    }
                    r
                }
            },
            Command::Who => trace_step(
                crate::msg::trace_of(
                    "System",
                    "NotImplemented",
                    "WHO is not yet implemented in Benthic.",
                ),
                false,
            ),
            Command::Where => trace_step(
                crate::msg::trace_of(
                    "System",
                    "NotImplemented",
                    "WHERE is not yet implemented in Benthic.",
                ),
                false,
            ),
            Command::When => trace_step(
                crate::msg::trace_of(
                    "System",
                    "NotImplemented",
                    "WHEN is not yet implemented in Benthic.",
                ),
                false,
            ),
            Command::SubjectiveWhy => {
                let val = self.session.subjective_reason.clone();
                trace_step(
                    TraceRecord { sys: "Cognition".to_owned(), sig: "Why".to_owned(), val },
                    false,
                )
            },
            Command::SubjectiveBecause { text } => {
                self.session.subjective_reason = text;
                trace_step(crate::msg::trace_of("Cognition", "Because", "Updated"), false)
            },
            Command::SubjectiveLook => trace_step(
                crate::msg::trace_of(
                    "System",
                    "NotImplemented",
                    "SUBJECTIVE_LOOK is not yet implemented in Benthic.",
                ),
                false,
            ),
            Command::SubjectiveGoto { dest: _ } => trace_step(
                crate::msg::trace_of(
                    "System",
                    "NotImplemented",
                    "SUBJECTIVE_GOTO is not yet implemented in Benthic.",
                ),
                false,
            ),
            Command::Pos { dest: _ } => trace_step(
                crate::msg::trace_of(
                    "System",
                    "NotImplemented",
                    "POS is not yet implemented in Benthic.",
                ),
                false,
            ),
            Command::Logout => trace_step(
                crate::msg::trace_of("Logout", "REPL", "Director requested logout"),
                true,
            ),
            Command::Exit => trace_step(
                crate::msg::trace_of("Exit", "REPL", "Director requested exit"),
                true,
            ),
        }
    }

    /// Applies one inbound event, as [`spec_apply_event`] says.
    ///
    /// `logged_in` becomes true exactly when a login success arrives,
    /// and is never cleared by an event.
    pub fn apply_event(&mut self, ev: InboundEvent, now_ms: u64) -> (r: StepOutput)
        ensures
            step_post(spec_apply_event(old(self)@, ev@, now_ms), final(self)@, r),
            final(self)@.session.logged_in == (old(self)@.session.logged_in || ev@
                is LoginResponse),
    {
        if !(matches!(ev, InboundEvent::PresenceOrLandUpdate)) {
            self.session.last_event_was_presence_update = false;
        }
        match ev {
            InboundEvent::LoginResponse { firstname, lastname } => {
                let mut val = String::new();
                val.append("Agent: ");
                val.append(firstname.as_str());
                val.append(" ");
                val.append(lastname.as_str());
                self.session.logged_in = true;
                self.session.first_name = firstname;
                self.session.last_name = lastname;
                self.session.uuid_or_unknown = "Unknown (Not Exposed)".to_owned();
                self.timer.logout_at = logout_deadline(&self.auto_logout, now_ms);
                let mut r = trace_step(
                    TraceRecord { sys: "Login".to_owned(), sig: "Success".to_owned(), val },
                    self.exit_on_login,
                );
                if self.exit_on_login {
                    r.traces.push(
                        crate::msg::trace_of("Behavior", "Ghost", "Vanishing immediately..."),
                    );
                }
                r.actions.push(OutboundAction::SendAgentUpdate);
                proof {
                    let s = spec_apply_event(old(self)@, ev@, now_ms);
                    assert(r.actions.deep_view() =~= s.actions);
                    assert(r.traces.deep_view() =~= s.traces);
                }
                r
            },
            InboundEvent::ServerError { detail } => {
                let mut val = String::new();
                val.append("Connection error: ");
                val.append(detail.as_str());
                trace_step(
                    TraceRecord { sys: "Login".to_owned(), sig: "Fail".to_owned(), val },
                    true,
                )
            },
            InboundEvent::CoarseLocationUpdate => empty_step(false),
            InboundEvent::PresenceOrLandUpdate => {
                if !self.session.last_event_was_presence_update {
                    self.session.last_event_was_presence_update = true;
                    trace_step(
                        crate::msg::trace_of("Territory", "Impression", "LandUpdate received"),
                        false,
                    )
                } else {
                    empty_step(false)
                }
            },
            InboundEvent::MeshUpdate => empty_step(false),
            InboundEvent::CameraPosition => empty_step(false),
            InboundEvent::ChatFromServer { from_name, message } => {
                let mut val = String::new();
                val.append("From: ");
                val.append(from_name.as_str());
                val.append(", Msg: ");
                val.append(message.as_str());
                trace_step(
                    TraceRecord { sys: "Chat".to_owned(), sig: "Heard".to_owned(), val },
                    false,
                )
            },
            InboundEvent::DisableServer => trace_step(
                crate::msg::trace_of("Alert", "Heard", "Simulation Closing"),
                true,
            ),
            InboundEvent::Unhandled => trace_step(
                crate::msg::trace_of("Territory", "Unhandled", "Unhandled event received"),
                false,
            ),
        }
    }

    /// Decides one timer turn, as [`spec_tick`] says.
    pub fn tick(&mut self, now_ms: u64) -> (r: TickOutput)
        ensures
            tick_post(spec_tick(old(self)@, now_ms), final(self)@, r),
    {
        if self.timer.timeout_ms > 0 && now_ms > self.timer.timeout_ms {
            let r = TickOutput {
                traces: Vec::new(),
                stop: true,
                drain_commands: false,
            };
            let mut r = r;
            r.traces.push(crate::msg::trace_of("System", "Timeout", "Max run time reached."));
            proof {
                assert(r.traces.deep_view() =~= spec_tick(old(self)@, now_ms).traces);
            }
            r
        } else {
            let due = match &self.timer.logout_at {
                Some(t) => now_ms > *t,
                None => false,
            };
            if due {
                let mut r = TickOutput {
                    traces: Vec::new(),
                    stop: true,
                    drain_commands: false,
                };
                if matches!(self.auto_logout, AutoLogout::Announced { .. }) {
                    r.traces.push(crate::msg::trace_of("Logout", "Initiate", ""));
                }
                proof {
                    assert(r.traces.deep_view() =~= spec_tick(old(self)@, now_ms).traces);
                }
                r
            } else {
                let mut wake_hit = false;
                let mut len_ms: u64 = 0;
                match &self.timer.wake {
                    Some(d) => {
                        if now_ms >= d.at_ms {
                            wake_hit = true;
                            len_ms = d.len_ms;
                        }
                    },
                    None => {},
                }
                if wake_hit {
                    self.timer.wake = None;
                    let val = render_sleep_note(len_ms);
                    let mut r = TickOutput {
                        traces: Vec::new(),
                        stop: false,
                        drain_commands: true,
                    };
                    r.traces.push(
                        TraceRecord { sys: "System".to_owned(), sig: "Sleep".to_owned(), val },
                    );
                    proof {
                        assert(r.traces.deep_view() =~= spec_tick(old(self)@, now_ms).traces);
                    }
                    r
                } else {
                    let drain = match &self.timer.wake {
                        Some(_) => false,
                        None => true,
                    };
                    let r = TickOutput { traces: Vec::new(), stop: false, drain_commands: drain };
                    proof {
                        assert(r.traces.deep_view() =~= spec_tick(old(self)@, now_ms).traces);
                    }
                    r
                }
            }
        }
    }
}

} // verus!
