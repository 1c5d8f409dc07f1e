//! The closed sets of values that flow through the session engine:
//! inbound protocol events, outbound protocol actions, and trace records.

use vstd::prelude::*;

verus! {

/// An inbound protocol event, decoded from one datagram.
///
/// `Unhandled` stands for every decoded message kind that the session
/// engine has no reaction to; the engine ignores such events.
pub enum InboundEvent {
    LoginResponse { firstname: String, lastname: String },
    ServerError { detail: String },
    CoarseLocationUpdate,
    PresenceOrLandUpdate,
    MeshUpdate,
    CameraPosition,
    ChatFromServer { from_name: String, message: String },
    DisableServer,
    Unhandled,
}

/// The mathematical value of an [`InboundEvent`].
pub enum EventView {
    LoginResponse { firstname: Seq<char>, lastname: Seq<char> },
    ServerError { detail: Seq<char> },
    CoarseLocationUpdate,
    PresenceOrLandUpdate,
    MeshUpdate,
    CameraPosition,
    ChatFromServer { from_name: Seq<char>, message: Seq<char> },
    DisableServer,
    Unhandled,
}

impl View for InboundEvent {
    type V = EventView;

    open spec fn view(&self) -> EventView {
        match self {
            InboundEvent::LoginResponse { firstname, lastname } => EventView::LoginResponse {
                firstname: firstname@,
                lastname: lastname@,
            },
            InboundEvent::ServerError { detail } => EventView::ServerError { detail: detail@ },
            InboundEvent::CoarseLocationUpdate => EventView::CoarseLocationUpdate,
            InboundEvent::PresenceOrLandUpdate => EventView::PresenceOrLandUpdate,
            InboundEvent::MeshUpdate => EventView::MeshUpdate,
            InboundEvent::CameraPosition => EventView::CameraPosition,
            InboundEvent::ChatFromServer { from_name, message } => EventView::ChatFromServer {
                from_name: from_name@,
                message: message@,
            },
            InboundEvent::DisableServer => EventView::DisableServer,
            InboundEvent::Unhandled => EventView::Unhandled,
        }
    }
}

impl DeepView for InboundEvent {
    type V = EventView;

    open spec fn deep_view(&self) -> EventView {
        self.view()
    }
}

/// Everything the wire login request carries. The engine fills in the
/// fixed fields (start location, channel name, terms flags); the
/// credentials and the grid URL come from the operator.
pub struct LoginDetails {
    pub first: String,
    pub last: String,
    pub passwd: String,
    pub start: String,
    pub channel: String,
    pub agree_to_tos: bool,
    pub read_critical: bool,
    pub url: String,
}

/// The mathematical value of a [`LoginDetails`].
pub struct LoginDetailsView {
    pub first: Seq<char>,
    pub last: Seq<char>,
    pub passwd: Seq<char>,
    pub start: Seq<char>,
    pub channel: Seq<char>,
    pub agree_to_tos: bool,
    pub read_critical: bool,
    pub url: Seq<char>,
}

impl View for LoginDetails {
    type V = LoginDetailsView;

    open spec fn view(&self) -> LoginDetailsView {
        LoginDetailsView {
            first: self.first@,
            last: self.last@,
            passwd: self.passwd@,
            start: self.start@,
            channel: self.channel@,
            agree_to_tos: self.agree_to_tos,
            read_critical: self.read_critical,
            url: self.url@,
        }
    }
}

impl DeepView for LoginDetails {
    type V = LoginDetailsView;

    open spec fn deep_view(&self) -> LoginDetailsView {
        self.view()
    }
}

/// An outbound protocol action, to be encoded and transmitted to the
/// fixed server address.
pub enum OutboundAction {
    SendLogin { details: LoginDetails },
    SendChat { text: String, channel: i32 },
    SendAgentUpdate,
}

/// The mathematical value of an [`OutboundAction`].
pub enum ActionView {
    SendLogin { details: LoginDetailsView },
    SendChat { text: Seq<char>, channel: i32 },
    SendAgentUpdate,
}

impl View for OutboundAction {
    type V = ActionView;

    open spec fn view(&self) -> ActionView {
        match self {
            OutboundAction::SendLogin { details } => ActionView::SendLogin { details: details@ },
            OutboundAction::SendChat { text, channel } => ActionView::SendChat {
                text: text@,
                channel: *channel,
            },
            OutboundAction::SendAgentUpdate => ActionView::SendAgentUpdate,
        }
    }
}

impl DeepView for OutboundAction {
    type V = ActionView;

    open spec fn deep_view(&self) -> ActionView {
        self.view()
    }
}

/// A typed operator command, produced by the command parser from one
/// line of operator text and consumed exactly once by the session
/// engine.
///
/// Sleep lengths are held in whole milliseconds.
pub enum Command {
    Login { first: String, last: String, pass: String, uri: String },
    Chat { text: String },
    Sleep { millis: u64 },
    WhoAmI,
    Who,
    Where,
    When,
    SubjectiveWhy,
    SubjectiveBecause { text: String },
    SubjectiveLook,
    SubjectiveGoto { dest: String },
    Pos { dest: String },
    Logout,
    Exit,
}

/// The mathematical value of a [`Command`].
pub enum CmdView {
    Login { first: Seq<char>, last: Seq<char>, pass: Seq<char>, uri: Seq<char> },
    Chat { text: Seq<char> },
    Sleep { millis: u64 },
    WhoAmI,
    Who,
    Where,
    When,
    SubjectiveWhy,
    SubjectiveBecause { text: Seq<char> },
    SubjectiveLook,
    SubjectiveGoto { dest: Seq<char> },
    Pos { dest: Seq<char> },
    Logout,
    Exit,
}

impl View for Command {
    type V = CmdView;

    open spec fn view(&self) -> CmdView {
        match self {
            Command::Login { first, last, pass, uri } => CmdView::Login {
                first: first@,
                last: last@,
                pass: pass@,
                uri: uri@,
            },
            Command::Chat { text } => CmdView::Chat { text: text@ },
            Command::Sleep { millis } => CmdView::Sleep { millis: *millis },
            Command::WhoAmI => CmdView::WhoAmI,
            Command::Who => CmdView::Who,
            Command::Where => CmdView::Where,
            Command::When => CmdView::When,
            Command::SubjectiveWhy => CmdView::SubjectiveWhy,
            Command::SubjectiveBecause { text } => CmdView::SubjectiveBecause { text: text@ },
            Command::SubjectiveLook => CmdView::SubjectiveLook,
            Command::SubjectiveGoto { dest } => CmdView::SubjectiveGoto { dest: dest@ },
            Command::Pos { dest } => CmdView::Pos { dest: dest@ },
            Command::Logout => CmdView::Logout,
            Command::Exit => CmdView::Exit,
        }
    }
}

impl DeepView for Command {
    type V = CmdView;

    open spec fn deep_view(&self) -> CmdView {
        self.view()
    }
}

/// One structured trace event: a subsystem name, a signal name, and a
/// free-text payload. The rendering into a JSON line is separate, in
/// [`crate::trace`].
pub struct TraceRecord {
    pub sys: String,
    pub sig: String,
    pub val: String,
}

/// The mathematical value of a [`TraceRecord`].
pub struct TraceView {
    pub sys: Seq<char>,
    pub sig: Seq<char>,
    pub val: Seq<char>,
}

impl View for TraceRecord {
    type V = TraceView;

    open spec fn view(&self) -> TraceView {
        TraceView { sys: self.sys@, sig: self.sig@, val: self.val@ }
    }
}

impl DeepView for TraceRecord {
    type V = TraceView;

    open spec fn deep_view(&self) -> TraceView {
        self.view()
    }
}

/// Builds a trace record from string slices.
pub fn trace_of(sys: &str, sig: &str, val: &str) -> (r: TraceRecord)
    ensures
        r@ == (TraceView { sys: sys@, sig: sig@, val: val@ }),
{
    TraceRecord { sys: sys.to_owned(), sig: sig.to_owned(), val: val.to_owned() }
}

} // verus!
