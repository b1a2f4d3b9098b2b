//! The channel session: the life of the persistent connection to the
//! backend, and the schedule of the attempts to reopen it.
//!
//! A session never does anything by itself. It is told what happened to the
//! channel (a [`Signal`]) and answers with what has to be done (a list of
//! [`Action`]s): open a channel, close it, start the one reconnect timer or
//! cancel it. Whoever owns the real channel and the real timers carries the
//! actions out and reports back.

use crate::backoff::{next_retry_count, schedule, wait_time_ms, DEFAULT_MAX_SECONDS};
use vstd::prelude::*;

verus! {

/// Where the channel stands.
#[derive(Clone, Copy, Debug, PartialEq, Eq, Structural)]
pub enum Status {
    Connecting,
    Open,
    Closed,
    Failed,
}

/// Names one reconnect timer. The session makes the handle up when it asks
/// for the timer, and knows the timer by it when it fires.
#[derive(Clone, Copy, Debug, PartialEq, Eq, Structural)]
pub struct TimerHandle(pub u64);

/// The answer to a command that met a channel that is not open.
#[derive(Clone, Copy, Debug, PartialEq, Eq, Structural)]
pub struct ChannelUnavailable;

/// What happened to the channel, or what the user asked of it.
#[derive(Clone, Copy, Debug, PartialEq, Eq)]
pub enum Signal {
    /// The channel is open.
    Opened,
    /// The channel was closed; `clean` says whether both ends agreed to it.
    /// `jitter_ms` is a random number drawn for this signal, of which at most
    /// a second counts.
    Closed { clean: bool, jitter_ms: u32 },
    /// The channel failed. `jitter_ms` as above.
    Failed { jitter_ms: u32 },
    /// A reconnect timer fired.
    TimerFired(TimerHandle),
    /// The user asked to close the channel.
    CloseRequested,
}

/// What the owner of the channel has to do.
#[derive(Clone, Copy, Debug, PartialEq, Eq)]
pub enum Action {
    /// Open a new channel to the fixed endpoint. It takes the place of the
    /// one before it.
    OpenChannel,
    /// Close the channel.
    CloseChannel,
    /// Start a timer that reports `TimerFired(handle)` after `delay_ms`
    /// milliseconds.
    StartTimer { handle: TimerHandle, delay_ms: u32 },
    /// Cancel the timer: it must not fire any more.
    CancelTimer(TimerHandle),
}

/// The state of a session, as the contracts see it.
pub struct SessionState {
    pub status: Status,
    /// How many attempts were scheduled since the channel was last open.
    pub retry_count: usize,
    /// The timer that is pending, if one is.
    pub reconnect_handle: Option<TimerHandle>,
    /// The number that the next timer's handle will carry.
    pub issued: u64,
}

/// The number after `issued`, starting again at zero after the largest.
pub open spec fn issued_after(issued: u64) -> u64 {
    if issued < u64::MAX {
        (issued + 1) as u64
    } else {
        0
    }
}

impl SessionState {
    /// What holds of every session: an open channel has no attempts counted
    /// and no timer pending, and a timer is pending only while the channel is
    /// closed or has failed.
    pub open spec fn wf(self) -> bool {
        &&& self.status is Open ==> self.retry_count == 0
        &&& self.reconnect_handle is Some ==> self.status is Closed || self.status is Failed
    }

    /// A session at rest: closed, and nothing scheduled. It stays at rest
    /// until a channel reports that it is open.
    pub open spec fn quiescent(self) -> bool {
        self.status is Closed && self.reconnect_handle is None
    }

    /// Whether a loss of the channel starts a new attempt: not while one is
    /// pending already, and not at rest.
    pub open spec fn retries_on_loss(self) -> bool {
        self.reconnect_handle is None && !(self.status is Closed)
    }

    /// A session whose channel is being opened for the first time.
    pub open spec fn connecting() -> SessionState {
        SessionState {
            status: Status::Connecting,
            retry_count: 0,
            reconnect_handle: None,
            issued: 0,
        }
    }

    /// The state after the loss of the channel was met with a new attempt.
    pub open spec fn with_attempt(self, status: Status) -> SessionState {
        SessionState {
            status,
            retry_count: next_retry_count(self.retry_count),
            reconnect_handle: Some(TimerHandle(self.issued)),
            issued: issued_after(self.issued),
        }
    }

    /// The timer that a new attempt asks for.
    pub open spec fn attempt_timer(self, jitter_ms: u32) -> Action {
        Action::StartTimer {
            handle: TimerHandle(self.issued),
            delay_ms: wait_time_ms(
                self.retry_count as nat,
                jitter_ms as nat,
                DEFAULT_MAX_SECONDS as nat,
            ) as u32,
        }
    }

    /// What cancels the pending timer, if one is pending.
    pub open spec fn cancellation(self) -> Seq<Action> {
        match self.reconnect_handle {
            Some(handle) => seq![Action::CancelTimer(handle)],
            None => Seq::empty(),
        }
    }

    /// The state after `signal`.
    pub open spec fn next(self, signal: Signal) -> SessionState {
        match signal {
            Signal::Opened => SessionState {
                status: Status::Open,
                retry_count: 0,
                reconnect_handle: None,
                issued: self.issued,
            },
            Signal::Closed { clean, jitter_ms } => {
                if !clean && self.retries_on_loss() {
                    self.with_attempt(Status::Closed)
                } else {
                    SessionState { status: Status::Closed, ..self }
                }
            },
            Signal::Failed { jitter_ms } => {
                if self.retries_on_loss() {
                    self.with_attempt(Status::Failed)
                } else if self.quiescent() {
                    self
                } else {
                    SessionState { status: Status::Failed, ..self }
                }
            },
            Signal::TimerFired(handle) => {
                if self.reconnect_handle == Some(handle) {
                    SessionState {
                        status: Status::Connecting,
                        reconnect_handle: None,
                        ..self
                    }
                } else {
                    self
                }
            },
            Signal::CloseRequested => SessionState {
                status: Status::Closed,
                reconnect_handle: None,
                ..self
            },
        }
    }

    /// What `signal` asks the owner of the channel to do, in order.
    pub open spec fn actions(self, signal: Signal) -> Seq<Action> {
        match signal {
            Signal::Opened => self.cancellation(),
            Signal::Closed { clean, jitter_ms } => {
                if !clean && self.retries_on_loss() {
                    seq![self.attempt_timer(jitter_ms)]
                } else {
                    Seq::empty()
                }
            },
            Signal::Failed { jitter_ms } => {
                if self.retries_on_loss() {
                    seq![self.attempt_timer(jitter_ms)]
                } else {
                    Seq::empty()
                }
            },
            Signal::TimerFired(handle) => {
                if self.reconnect_handle == Some(handle) {
                    seq![Action::OpenChannel]
                } else {
                    Seq::empty()
                }
            },
            Signal::CloseRequested => self.cancellation().push(Action::CloseChannel),
        }
    }
}

/// The session of the one channel that the client keeps.
#[derive(Clone, Copy, Debug, PartialEq, Eq)]
pub struct Session {
    status: Status,
    retry_count: usize,
    reconnect_handle: Option<TimerHandle>,
    issued: u64,
}

impl View for Session {
    type V = SessionState;

    closed spec fn view(&self) -> SessionState {
        SessionState {
            status: self.status,
            retry_count: self.retry_count,
            reconnect_handle: self.reconnect_handle,
            issued: self.issued,
        }
    }
}

impl Session {
    #[verifier::type_invariant]
    spec fn well_formed(self) -> bool {
        self@.wf()
    }

    /// The session of a channel that is being opened for the first time.
    pub fn open() -> (session: Session)
        ensures
            session@ == SessionState::connecting(),
            session@.wf(),
    {
        Session { status: Status::Connecting, retry_count: 0, reconnect_handle: None, issued: 0 }
    }

    /// Where the channel stands.
    pub fn status(&self) -> (status: Status)
        ensures
            status == self@.status,
            self@.wf(),
    {
        proof {
            use_type_invariant(self);
        }
        self.status
    }

    /// Whether commands can be written to the channel.
    pub fn is_open(&self) -> (open: bool)
        ensures
            open == (self@.status is Open),
    {
        match self.status {
            Status::Open => true,
            _ => false,
        }
    }

    /// How many attempts were scheduled since the channel was last open.
    pub fn retry_count(&self) -> (count: usize)
        ensures
            count == self@.retry_count,
    {
        self.retry_count
    }

    /// The reconnect timer that is pending, if one is.
    pub fn reconnect_handle(&self) -> (handle: Option<TimerHandle>)
        ensures
            handle == self@.reconnect_handle,
    {
        self.reconnect_handle
    }

    /// Takes a signal in: moves to the next state and says what to do.
    pub fn handle(&mut self, signal: Signal) -> (actions: Vec<Action>)
        ensures
            final(self)@ == old(self)@.next(signal),
            actions@ == old(self)@.actions(signal),
            old(self)@.wf(),
            final(self)@.wf(),
    {
        proof {
            use_type_invariant(&*self);
        }
        let mut actions: Vec<Action> = Vec::new();
        match signal {
            Signal::Opened => {
                if let Some(handle) = self.reconnect_handle {
                    actions.push(Action::CancelTimer(handle));
                }
                *self = Session {
                    status: Status::Open,
                    retry_count: 0,
                    reconnect_handle: None,
                    issued: self.issued,
                };
            },
            Signal::Closed { clean, jitter_ms } => {
                if !clean && self.retries_on_loss() {
                    let timer = self.attempt(Status::Closed, jitter_ms);
                    actions.push(timer);
                } else {
                    *self = Session { status: Status::Closed, ..*self };
                }
            },
            Signal::Failed { jitter_ms } => {
                if self.retries_on_loss() {
                    let timer = self.attempt(Status::Failed, jitter_ms);
                    actions.push(timer);
                } else if self.reconnect_handle.is_some() {
                    *self = Session { status: Status::Failed, ..*self };
                }
            },
            Signal::TimerFired(handle) => {
                let pending = match self.reconnect_handle {
                    Some(TimerHandle(number)) => number == handle.0,
                    None => false,
                };
                if pending {
                    *self = Session {
                        status: Status::Connecting,
                        reconnect_handle: None,
                        ..*self
                    };
                    actions.push(Action::OpenChannel);
                }
            },
            Signal::CloseRequested => {
                if let Some(handle) = self.reconnect_handle {
                    actions.push(Action::CancelTimer(handle));
                }
                *self = Session { status: Status::Closed, reconnect_handle: None, ..*self };
                actions.push(Action::CloseChannel);
            },
        }
        actions
    }

    fn retries_on_loss(&self) -> (retries: bool)
        ensures
            retries == self@.retries_on_loss(),
    {
        let closed = match self.status {
            Status::Closed => true,
            _ => false,
        };
        self.reconnect_handle.is_none() && !closed
    }

    fn attempt(&mut self, status: Status, jitter_ms: u32) -> (timer: Action)
        requires
            old(self)@.retries_on_loss(),
            status is Closed || status is Failed,
        ensures
            final(self)@ == old(self)@.with_attempt(status),
            timer == old(self)@.attempt_timer(jitter_ms),
    {
        let planned = schedule(self.retry_count, jitter_ms);
        let handle = TimerHandle(self.issued);
        let issued: u64 = if self.issued < u64::MAX {
            self.issued + 1
        } else {
            0
        };
        *self = Session {
            status,
            retry_count: planned.1,
            reconnect_handle: Some(handle),
            issued,
        };
        Action::StartTimer { handle, delay_ms: planned.0 }
    }
}

/// The timers that run once `actions` were carried out, in order, where
/// `running` ran before.
pub open spec fn carried_out(running: Set<TimerHandle>, actions: Seq<Action>) -> Set<TimerHandle>
    decreases actions.len(),
{
    if actions.len() == 0 {
        running
    } else {
        let before = carried_out(running, actions.drop_last());
        match actions.last() {
            Action::StartTimer { handle, delay_ms } => before.insert(handle),
            Action::CancelTimer(handle) => before.remove(handle),
            _ => before,
        }
    }
}

/// The timers that run after `signal` was taken in and answered: one that
/// fired runs no more, and the actions start and cancel the others.
pub open spec fn running_after(
    state: SessionState,
    running: Set<TimerHandle>,
    signal: Signal,
) -> Set<TimerHandle> {
    let left = match signal {
        Signal::TimerFired(handle) => running.remove(handle),
        _ => running,
    };
    carried_out(left, state.actions(signal))
}

/// The timers that the session counts as pending: one or none.
pub open spec fn pending(state: SessionState) -> Set<TimerHandle> {
    match state.reconnect_handle {
        Some(handle) => set![handle],
        None => Set::empty(),
    }
}

/// The session and the running timers after a history of signals, from a
/// first channel that is being opened.
pub open spec fn after(history: Seq<Signal>) -> (SessionState, Set<TimerHandle>)
    decreases history.len(),
{
    if history.len() == 0 {
        (SessionState::connecting(), Set::empty())
    } else {
        let (state, running) = after(history.drop_last());
        (state.next(history.last()), running_after(state, running, history.last()))
    }
}

/// Every signal keeps a session well formed.
pub proof fn lemma_next_is_well_formed(state: SessionState, signal: Signal)
    requires
        state.wf(),
    ensures
        state.next(signal).wf(),
{
}

/// The count of attempts returns to zero exactly when the channel becomes
/// open: it is zero once the channel is open, and no other signal lowers it.
pub proof fn lemma_retry_count_resets_on_open(state: SessionState, signal: Signal)
    requires
        state.wf(),
    ensures
        state.next(signal).status is Open ==> state.next(signal).retry_count == 0,
        !(state.status is Open) && state.next(signal).status is Open ==> signal is Opened,
        state.next(signal).retry_count < state.retry_count ==> signal is Opened && !(state.status
            is Open) && state.next(signal).status is Open && state.next(signal).retry_count == 0,
        !(signal is Opened) ==> state.next(signal).retry_count >= state.retry_count,
{
}

/// A timer is started only while none is pending, and is then the pending
/// one; a channel is opened only when the pending timer fires, which leaves
/// none pending; a timer that is not the pending one changes nothing when it
/// fires.
pub proof fn lemma_timer_discipline(state: SessionState, signal: Signal)
    requires
        state.wf(),
    ensures
        forall|handle: TimerHandle, delay_ms: u32|
            state.actions(signal).contains(Action::StartTimer { handle, delay_ms })
                ==> state.reconnect_handle is None && state.next(signal).reconnect_handle == Some(
                handle,
            ) && state.actions(signal) == seq![Action::StartTimer { handle, delay_ms }],
        state.actions(signal).contains(Action::OpenChannel) ==> signal is TimerFired
            && state.reconnect_handle == Some(signal->TimerFired_0) && state.next(
            signal,
        ).reconnect_handle is None,
        signal is TimerFired && state.reconnect_handle != Some(signal->TimerFired_0)
            ==> state.next(signal) == state && state.actions(signal) == Seq::<Action>::empty(),
{
    let actions = state.actions(signal);
    assert forall|handle: TimerHandle, delay_ms: u32|
        actions.contains(Action::StartTimer { handle, delay_ms }) implies actions == seq![
        Action::StartTimer { handle, delay_ms },
    ] by {
        let started = Action::StartTimer { handle, delay_ms };
        let at = choose|at: int| 0 <= at < actions.len() && actions[at] == started;
        assert(actions[at] == started);
    }
    if actions.contains(Action::OpenChannel) {
        let at = choose|at: int| 0 <= at < actions.len() && actions[at] == Action::OpenChannel;
        assert(actions[at] == Action::OpenChannel);
    }
}

/// A session at rest stays at rest: nothing but the report of an open
/// channel changes it, and nothing is scheduled or opened on its behalf.
pub proof fn lemma_rest_is_kept(state: SessionState, signal: Signal)
    requires
        state.quiescent(),
        !(signal is Opened),
    ensures
        state.next(signal) == state,
        state.actions(signal) == if signal is CloseRequested {
            seq![Action::CloseChannel]
        } else {
            Seq::<Action>::empty()
        },
{
}

/// When the channel reports that it is open, the pending timer is cancelled
/// and none is pending afterwards.
pub proof fn lemma_opened_cancels_timer(state: SessionState)
    ensures
        state.next(Signal::Opened).reconnect_handle is None,
        state.next(Signal::Opened).status is Open,
        state.next(Signal::Opened).retry_count == 0,
        state.reconnect_handle matches Some(handle) ==> state.actions(Signal::Opened) == seq![
            Action::CancelTimer(handle),
        ],
        state.reconnect_handle is None ==> state.actions(Signal::Opened) == Seq::<Action>::empty(),
{
}

/// One step keeps the running timers equal to the pending ones.
pub proof fn lemma_step_keeps_one_timer(
    state: SessionState,
    running: Set<TimerHandle>,
    signal: Signal,
)
    requires
        state.wf(),
        running == pending(state),
    ensures
        running_after(state, running, signal) == pending(state.next(signal)),
{
    let actions = state.actions(signal);
    let left = match signal {
        Signal::TimerFired(handle) => running.remove(handle),
        _ => running,
    };
    if actions.len() == 1 {
        assert(carried_out(left, actions.drop_last()) == left);
    } else if actions.len() == 2 {
        let first = actions.drop_last();
        assert(carried_out(left, first.drop_last()) == left);
        assert(carried_out(left, first) == left.remove(state.reconnect_handle->Some_0));
    }
}

/// At most one reconnect timer runs at any time: after every history of
/// signals the running timers are the one that the session counts as pending,
/// or none.
pub proof fn lemma_at_most_one_timer(history: Seq<Signal>)
    ensures
        after(history).0.wf(),
        after(history).1 == pending(after(history).0),
        after(history).1.finite(),
        after(history).1.len() <= 1,
    decreases history.len(),
{
    if history.len() > 0 {
        lemma_at_most_one_timer(history.drop_last());
        let (state, running) = after(history.drop_last());
        lemma_step_keeps_one_timer(state, running, history.last());
    }
    if after(history).0.reconnect_handle is Some {
        assert(pending(after(history).0).len() == 1);
    }
}

} // verus!
