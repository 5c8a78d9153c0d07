//! The life cycle of the connection.
//!
//! A connection lives in epochs. An epoch starts when the socket opens and ends
//! when either of its halves fails or the service closes it; after a fixed
//! pause the next attempt starts. The caller owns the socket, the tasks and the
//! timer. It reports what happened as an `Event`, and `Supervisor::on_event`
//! answers with the next state and what to do, in order.

use vstd::prelude::*;

verus! {

/// Where the service listens.
pub const WS_URL: &'static str = "wss://warframe.market/socket-v2";

/// The pause before the next attempt, in seconds.
pub const BACKOFF_SECONDS: u64 = 5;

/// The topic of the sign-in request.
pub const SIGN_IN_TOPIC: &'static str = "@wfm|cmd/auth/signIn";

/// The phase of the connection.
#[derive(Debug, Clone, Copy, PartialEq, Eq, Structural)]
pub enum Phase {
    /// An attempt to connect is under way.
    Connecting,
    /// An epoch is open.
    Open,
    /// The service closed the connection; the epoch is being taken down.
    Closing,
    /// A half of the connection failed; the epoch is being taken down.
    Failed,
    /// Waiting before the next attempt.
    Backoff,
}

/// What the caller reports.
#[derive(Debug, PartialEq, Eq)]
pub enum Event {
    /// The attempt to connect failed.
    ConnectFailed,
    /// The socket is open.
    Connected,
    /// The sign-in request is in the outbound queue.
    SignInQueued,
    /// The sign-in request could not be enqueued.
    SignInNotQueued,
    /// The service closed the connection, or the inbound stream ended.
    RemoteClosed,
    /// Reading failed, for the given cause.
    ReadFailed(String),
    /// Writing failed, for the given cause.
    WriteFailed(String),
    /// Reader and writer have both stopped.
    TasksJoined,
    /// The pause is over.
    BackoffElapsed,
}

/// What the caller is to do.
#[derive(Debug, PartialEq, Eq)]
pub enum Action {
    /// Build the upgrade request and try to connect.
    Connect,
    /// Split the socket, create the outbound queue and tell the handlers that
    /// the connection has opened.
    AnnounceConnected,
    /// Enqueue the sign-in request.
    RequestSignIn,
    /// Make the epoch's sender the current one.
    PublishSender,
    /// Start the reader and the writer.
    StartPumps,
    /// Ask the writer to stop.
    StopWriter,
    /// Ask the reader to stop.
    StopReader,
    /// Drop the epoch's socket and queue.
    DropEpoch,
    /// Leave no sender published.
    WithdrawSender,
    /// Tell the handlers that the connection has ended, with this reason.
    AnnounceDisconnected(String),
    /// Wait this many seconds.
    Sleep(u64),
}

/// The mathematical content of an `Event`.
pub enum EventView {
    ConnectFailed,
    Connected,
    SignInQueued,
    SignInNotQueued,
    RemoteClosed,
    ReadFailed(Seq<char>),
    WriteFailed(Seq<char>),
    TasksJoined,
    BackoffElapsed,
}

/// The mathematical content of an `Action`.
pub enum ActionView {
    Connect,
    AnnounceConnected,
    RequestSignIn,
    PublishSender,
    StartPumps,
    StopWriter,
    StopReader,
    DropEpoch,
    WithdrawSender,
    AnnounceDisconnected(Seq<char>),
    Sleep(u64),
}

impl View for Event {
    type V = EventView;

    open spec fn view(&self) -> EventView {
        match *self {
            Event::ConnectFailed => EventView::ConnectFailed,
            Event::Connected => EventView::Connected,
            Event::SignInQueued => EventView::SignInQueued,
            Event::SignInNotQueued => EventView::SignInNotQueued,
            Event::RemoteClosed => EventView::RemoteClosed,
            Event::ReadFailed(cause) => EventView::ReadFailed(cause@),
            Event::WriteFailed(cause) => EventView::WriteFailed(cause@),
            Event::TasksJoined => EventView::TasksJoined,
            Event::BackoffElapsed => EventView::BackoffElapsed,
        }
    }
}

impl View for Action {
    type V = ActionView;

    open spec fn view(&self) -> ActionView {
        match *self {
            Action::Connect => ActionView::Connect,
            Action::AnnounceConnected => ActionView::AnnounceConnected,
            Action::RequestSignIn => ActionView::RequestSignIn,
            Action::PublishSender => ActionView::PublishSender,
            Action::StartPumps => ActionView::StartPumps,
            Action::StopWriter => ActionView::StopWriter,
            Action::StopReader => ActionView::StopReader,
            Action::DropEpoch => ActionView::DropEpoch,
            Action::WithdrawSender => ActionView::WithdrawSender,
            Action::AnnounceDisconnected(reason) => ActionView::AnnounceDisconnected(reason@),
            Action::Sleep(seconds) => ActionView::Sleep(seconds),
        }
    }
}

/// The state of the supervisor, as the contracts see it.
pub struct SupervisorView {
    /// The phase.
    pub phase: Phase,
    /// Whether the reader and the writer of the open epoch have been started.
    pub pumping: bool,
    /// Why the epoch failed, if a cause was reported.
    pub cause: Option<Seq<char>>,
}

/// The state of the supervisor.
#[derive(Debug, PartialEq, Eq)]
pub struct Supervisor {
    phase: Phase,
    pumping: bool,
    cause: Option<String>,
}

impl View for Supervisor {
    type V = SupervisorView;

    closed spec fn view(&self) -> SupervisorView {
        SupervisorView {
            phase: self.phase,
            pumping: self.pumping,
            cause: match self.cause {
                Some(cause) => Some(cause@),
                None => None,
            },
        }
    }
}

/// The text of an optional cause, as `Debug` writes an `Option`.
pub open spec fn cause_text(cause: Option<Seq<char>>) -> Seq<char> {
    match cause {
        Some(cause) => "Some("@ + cause + ")"@,
        None => "None"@,
    }
}

/// The reason announced when an epoch has ended.
pub open spec fn disconnect_reason(cause: Option<Seq<char>>) -> Seq<char> {
    "Connection lost: "@ + cause_text(cause) + " will retry in 5 seconds"@
}

/// The state in which an epoch exists: from the opened socket to the joined tasks.
pub open spec fn epoch_live(phase: Phase) -> bool {
    phase is Open || phase is Closing || phase is Failed
}

/// A state that keeps its phase and changes nothing else.
pub open spec fn stay(state: SupervisorView) -> (SupervisorView, Seq<ActionView>) {
    (state, Seq::empty())
}

/// The transition function: the next state and the actions for each state and event.
///
/// * `Connecting`: a failed attempt leads to `Backoff` and a pause; an opened
///   socket leads to `Open`, where the handlers are told and the sign-in
///   request is enqueued.
/// * `Open`, before the pumps run: once the sign-in request is queued the
///   sender is published and the pumps start; if it cannot be queued the
///   epoch is dropped and the next attempt starts at once.
/// * `Open`, pumps running: a close by the service leads to `Closing`, a read
///   or write failure to `Failed` with its cause; the half that ended asks
///   the other to stop.
/// * `Closing` and `Failed`: once both tasks are joined the sender is
///   withdrawn, the handlers are told why, the epoch is dropped, and the
///   pause begins.
/// * `Backoff`: when the pause is over the next attempt starts.
///
/// Every other event leaves the state as it is and asks for nothing.
pub open spec fn step(state: SupervisorView, event: EventView) -> (SupervisorView, Seq<ActionView>) {
    match (state.phase, event) {
        (Phase::Connecting, EventView::ConnectFailed) => (
            SupervisorView { phase: Phase::Backoff, pumping: false, cause: None },
            seq![ActionView::Sleep(BACKOFF_SECONDS)],
        ),
        (Phase::Connecting, EventView::Connected) => (
            SupervisorView { phase: Phase::Open, pumping: false, cause: None },
            seq![ActionView::AnnounceConnected, ActionView::RequestSignIn],
        ),
        (Phase::Open, EventView::SignInQueued) => if state.pumping {
            stay(state)
        } else {
            (
                SupervisorView { phase: Phase::Open, pumping: true, cause: None },
                seq![ActionView::PublishSender, ActionView::StartPumps],
            )
        },
        (Phase::Open, EventView::SignInNotQueued) => if state.pumping {
            stay(state)
        } else {
            (
                SupervisorView { phase: Phase::Connecting, pumping: false, cause: None },
                seq![ActionView::DropEpoch, ActionView::Connect],
            )
        },
        (Phase::Open, EventView::RemoteClosed) => if state.pumping {
            (
                SupervisorView { phase: Phase::Closing, pumping: true, cause: None },
                seq![ActionView::StopWriter],
            )
        } else {
            stay(state)
        },
        (Phase::Open, EventView::ReadFailed(cause)) => if state.pumping {
            (
                SupervisorView { phase: Phase::Failed, pumping: true, cause: Some(cause) },
                seq![ActionView::StopWriter],
            )
        } else {
            stay(state)
        },
        (Phase::Open, EventView::WriteFailed(cause)) => if state.pumping {
            (
                SupervisorView { phase: Phase::Failed, pumping: true, cause: Some(cause) },
                seq![ActionView::StopReader],
            )
        } else {
            stay(state)
        },
        (Phase::Closing, EventView::TasksJoined) | (Phase::Failed, EventView::TasksJoined) => (
            SupervisorView { phase: Phase::Backoff, pumping: false, cause: None },
            seq![
                ActionView::WithdrawSender,
                ActionView::AnnounceDisconnected(disconnect_reason(state.cause)),
                ActionView::DropEpoch,
                ActionView::Sleep(BACKOFF_SECONDS),
            ],
        ),
        (Phase::Backoff, EventView::BackoffElapsed) => (
            SupervisorView { phase: Phase::Connecting, pumping: false, cause: None },
            seq![ActionView::Connect],
        ),
        _ => stay(state),
    }
}

/// The state in which a supervisor starts: about to connect.
pub open spec fn initial() -> SupervisorView {
    SupervisorView { phase: Phase::Connecting, pumping: false, cause: None }
}

/// The state after a sequence of events.
pub open spec fn run(state: SupervisorView, events: Seq<EventView>) -> SupervisorView
    decreases events.len(),
{
    if events.len() == 0 {
        state
    } else {
        step(run(state, events.drop_last()), events.last()).0
    }
}

/// How many epochs a sequence of events has opened.
pub open spec fn epochs_opened(state: SupervisorView, events: Seq<EventView>) -> nat
    decreases events.len(),
{
    if events.len() == 0 {
        0
    } else {
        let before = run(state, events.drop_last());
        let opened = step(before, events.last()).1.contains(ActionView::AnnounceConnected);
        epochs_opened(state, events.drop_last()) + if opened {
            1nat
        } else {
            0nat
        }
    }
}

/// How many epochs a sequence of events has taken down.
pub open spec fn epochs_dropped(state: SupervisorView, events: Seq<EventView>) -> nat
    decreases events.len(),
{
    if events.len() == 0 {
        0
    } else {
        let before = run(state, events.drop_last());
        let dropped = step(before, events.last()).1.contains(ActionView::DropEpoch);
        epochs_dropped(state, events.drop_last()) + if dropped {
            1nat
        } else {
            0nat
        }
    }
}

/// The states that a supervisor can be in: pumps run only inside an epoch, and
/// a cause is remembered only while a failed epoch is taken down.
pub open spec fn consistent(state: SupervisorView) -> bool {
    &&& state.pumping ==> epoch_live(state.phase)
    &&& (state.phase is Closing || state.phase is Failed) ==> state.pumping
    &&& state.cause is Some ==> state.phase is Failed
}

/// A step opens an epoch only when none is live, drops one only when one is
/// live, and keeps the state consistent.
pub proof fn lemma_step_epochs(state: SupervisorView, event: EventView)
    requires
        consistent(state),
    ensures
        consistent(step(state, event).0),
        step(state, event).1.contains(ActionView::AnnounceConnected) ==> !epoch_live(state.phase)
            && epoch_live(step(state, event).0.phase),
        step(state, event).1.contains(ActionView::DropEpoch) ==> epoch_live(state.phase)
            && !epoch_live(step(state, event).0.phase),
        epoch_live(state.phase) && !epoch_live(step(state, event).0.phase) ==> step(
            state,
            event,
        ).1.contains(ActionView::DropEpoch),
        !epoch_live(state.phase) && epoch_live(step(state, event).0.phase) ==> step(
            state,
            event,
        ).1.contains(ActionView::AnnounceConnected),
        step(state, event).1.contains(ActionView::Connect) ==> step(state, event).0.phase
            is Connecting,
{
    let (next, actions) = step(state, event);
    if actions.len() == 1 {
        assert(actions[0] == actions[0]);
    }
    if actions.len() == 2 {
        assert(actions.contains(actions[0]));
        assert(actions.contains(actions[1]));
    }
    if actions.len() == 4 {
        assert(actions.contains(actions[2]));
    }
}

/// At most one epoch is live at a time: after any sequence of events the
/// epochs opened exceed the epochs taken down by one while an epoch is
/// live, and by none otherwise.
pub proof fn lemma_one_epoch_at_a_time(events: Seq<EventView>)
    ensures
        consistent(run(initial(), events)),
        epochs_opened(initial(), events) == epochs_dropped(initial(), events) + if epoch_live(
            run(initial(), events).phase,
        ) {
            1nat
        } else {
            0nat
        },
    decreases events.len(),
{
    if events.len() > 0 {
        lemma_one_epoch_at_a_time(events.drop_last());
        lemma_step_epochs(run(initial(), events.drop_last()), events.last());
    }
}

/// The backoff is fixed: every pause that a step asks for lasts `BACKOFF_SECONDS`.
pub proof fn lemma_backoff_is_fixed(state: SupervisorView, event: EventView, seconds: u64)
    requires
        step(state, event).1.contains(ActionView::Sleep(seconds)),
    ensures
        seconds == BACKOFF_SECONDS,
{
}

/// The actions of a list, as the contracts see them.
pub open spec fn actions_view(actions: Seq<Action>) -> Seq<ActionView> {
    actions.map_values(|action: Action| action@)
}

/// Writes the reason announced when an epoch has ended.
pub fn disconnect_reason_text(cause: &Option<String>) -> (reason: String)
    ensures
        reason@ == disconnect_reason(
            match *cause {
                Some(cause) => Some(cause@),
                None => None,
            },
        ),
{
    let mut reason = "Connection lost: ".to_owned();
    match cause {
        Some(cause) => {
            reason.append("Some(");
            reason.append(cause.as_str());
            reason.append(")");
        },
        None => {
            reason.append("None");
        },
    }
    reason.append(" will retry in 5 seconds");
    reason
}

impl Supervisor {
    /// A supervisor about to make its first attempt: the caller starts by connecting.
    pub fn new() -> (supervisor: Supervisor)
        ensures
            supervisor@ == initial(),
    {
        Supervisor { phase: Phase::Connecting, pumping: false, cause: None }
    }

    /// The current phase.
    pub fn phase(&self) -> (phase: Phase)
        ensures
            phase == self@.phase,
    {
        self.phase
    }

    /// Whether an epoch exists.
    pub fn has_epoch(&self) -> (live: bool)
        ensures
            live == epoch_live(self@.phase),
    {
        match self.phase {
            Phase::Open | Phase::Closing | Phase::Failed => true,
            _ => false,
        }
    }

    /// Takes an event: moves to the next state and returns what to do, in
    /// order, as `step` says.
    pub fn on_event(&mut self, event: Event) -> (actions: Vec<Action>)
        ensures
            (final(self)@, actions_view(actions@)) == step(old(self)@, event@),
    {
        let mut actions: Vec<Action> = Vec::new();
        match (self.phase, event) {
            (Phase::Connecting, Event::ConnectFailed) => {
                self.phase = Phase::Backoff;
                self.pumping = false;
                self.cause = None;
                actions.push(Action::Sleep(BACKOFF_SECONDS));
            },
            (Phase::Connecting, Event::Connected) => {
                self.phase = Phase::Open;
                self.pumping = false;
                self.cause = None;
                actions.push(Action::AnnounceConnected);
                actions.push(Action::RequestSignIn);
            },
            (Phase::Open, Event::SignInQueued) => {
                if !self.pumping {
                    self.pumping = true;
                    self.cause = None;
                    actions.push(Action::PublishSender);
                    actions.push(Action::StartPumps);
                }
            },
            (Phase::Open, Event::SignInNotQueued) => {
                if !self.pumping {
                    self.phase = Phase::Connecting;
                    self.cause = None;
                    actions.push(Action::DropEpoch);
                    actions.push(Action::Connect);
                }
            },
            (Phase::Open, Event::RemoteClosed) => {
                if self.pumping {
                    self.phase = Phase::Closing;
                    self.cause = None;
                    actions.push(Action::StopWriter);
                }
            },
            (Phase::Open, Event::ReadFailed(cause)) => {
                if self.pumping {
                    self.phase = Phase::Failed;
                    self.cause = Some(cause);
                    actions.push(Action::StopWriter);
                }
            },
            (Phase::Open, Event::WriteFailed(cause)) => {
                if self.pumping {
                    self.phase = Phase::Failed;
                    self.cause = Some(cause);
                    actions.push(Action::StopReader);
                }
            },
            (Phase::Closing, Event::TasksJoined) | (Phase::Failed, Event::TasksJoined) => {
                let reason = disconnect_reason_text(&self.cause);
                self.phase = Phase::Backoff;
                self.pumping = false;
                self.cause = None;
                actions.push(Action::WithdrawSender);
                actions.push(Action::AnnounceDisconnected(reason));
                actions.push(Action::DropEpoch);
                actions.push(Action::Sleep(BACKOFF_SECONDS));
            },
            (Phase::Backoff, Event::BackoffElapsed) => {
                self.phase = Phase::Connecting;
                self.pumping = false;
                self.cause = None;
                actions.push(Action::Connect);
            },
            _ => {},
        }
        assert(actions_view(actions@) =~= step(old(self)@, event@).1);
        actions
    }
}

} // verus!
