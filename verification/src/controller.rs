//! The per-stream subscription controller: a state machine that keeps one
//! upstream connection alive and correctly re-targeted.
//!
//! The controller owns the connect-epoch counter of its stream kind. Every
//! new connection attempt gets a fresh epoch; events of an abandoned
//! connection carry an older epoch and are ignored, which makes abandoning
//! a connection purely logical (no physical teardown is awaited).

use vstd::prelude::*;
use crate::events::{ConnectRequest, ConnectionHandle, Effects, LifecycleEvent, StreamKind};
use crate::keys::str_eq;

verus! {

/// Mathematical model of a controller's state.
pub enum CtrlStateModel {
    Idle,
    Connecting { key: Seq<char> },
    Streaming { key: Seq<char>, handle: ConnectionHandle },
    Draining,
}

/// Mathematical model of a whole controller.
pub struct CtrlModel {
    pub kind: StreamKind,
    pub state: CtrlStateModel,
    pub epoch: nat,
}

/// Payload-free model of a lifecycle event, for stating transitions.
pub enum EventModel {
    Connected(ConnectionHandle),
    Disconnected,
    Message { key: Seq<char> },
}

impl<T> LifecycleEvent<T> {
    /// The event with its payload forgotten.
    pub open spec fn model(self) -> EventModel {
        match self {
            LifecycleEvent::Connected(h) => EventModel::Connected(h),
            LifecycleEvent::Disconnected => EventModel::Disconnected,
            LifecycleEvent::Message(k, _) => EventModel::Message { key: k@ },
        }
    }

    /// The payload the event carries, if it is a `Message`.
    pub open spec fn payload(self) -> Option<T> {
        match self {
            LifecycleEvent::Message(_, v) => Some(v),
            _ => None,
        }
    }
}

/// The key the controller is currently bound or binding to, if any.
pub open spec fn spec_target_key(m: CtrlModel) -> Option<Seq<char>> {
    match m.state {
        CtrlStateModel::Connecting { key } => Some(key),
        CtrlStateModel::Streaming { key, handle } => Some(key),
        CtrlStateModel::Idle => None,
        CtrlStateModel::Draining => None,
    }
}

/// Whether a retarget command for `k` starts a fresh connection attempt:
/// always from `Idle`, and from `Connecting`/`Streaming` exactly when the
/// key actually changes; never while draining.
pub open spec fn retarget_starts_connect(m: CtrlModel, k: Seq<char>) -> bool {
    match m.state {
        CtrlStateModel::Idle => true,
        CtrlStateModel::Connecting { key } => key != k,
        CtrlStateModel::Streaming { key, handle } => key != k,
        CtrlStateModel::Draining => false,
    }
}

/// Whether a retarget command for `k` abandons a live stream, which must
/// re-emit `Disconnected` downstream so no consumer keeps a stale handle.
pub open spec fn retarget_leaves_streaming(m: CtrlModel, k: Seq<char>) -> bool {
    match m.state {
        CtrlStateModel::Streaming { key, handle } => key != k,
        _ => false,
    }
}

/// State transition on a retarget command. A command naming the current
/// target is idempotent; any other starts a new connect-epoch.
pub open spec fn step_retarget(m: CtrlModel, k: Seq<char>) -> CtrlModel {
    if retarget_starts_connect(m, k) {
        CtrlModel {
            kind: m.kind,
            state: CtrlStateModel::Connecting { key: k },
            epoch: m.epoch + 1,
        }
    } else {
        m
    }
}

/// State transition on a connection event tagged with its connect-epoch.
/// Events of a superseded epoch leave the state untouched.
pub open spec fn step_event(m: CtrlModel, epoch: nat, ev: EventModel) -> CtrlModel {
    if epoch != m.epoch {
        m
    } else {
        match (m.state, ev) {
            (CtrlStateModel::Connecting { key }, EventModel::Connected(h)) => CtrlModel {
                kind: m.kind,
                state: CtrlStateModel::Streaming { key, handle: h },
                epoch: m.epoch,
            },
            (CtrlStateModel::Connecting { key }, EventModel::Disconnected) => CtrlModel {
                kind: m.kind,
                state: CtrlStateModel::Connecting { key },
                epoch: m.epoch + 1,
            },
            (CtrlStateModel::Streaming { key, handle }, EventModel::Disconnected) => CtrlModel {
                kind: m.kind,
                state: CtrlStateModel::Connecting { key },
                epoch: m.epoch + 1,
            },
            _ => m,
        }
    }
}

/// Whether a connection event makes the controller forward the payload
/// downstream: only a current-epoch `Message` while streaming.
pub open spec fn event_forwards(m: CtrlModel, epoch: nat, ev: EventModel) -> bool {
    epoch == m.epoch && m.state is Streaming && ev is Message
}

/// Whether a connection event triggers an automatic reconnection attempt.
pub open spec fn event_starts_connect(m: CtrlModel, epoch: nat, ev: EventModel) -> bool {
    epoch == m.epoch && ev is Disconnected && (m.state is Connecting || m.state is Streaming)
}

/// Whether a connection event is re-emitted downstream as `Connected`.
pub open spec fn event_emits_connected(m: CtrlModel, epoch: nat, ev: EventModel) -> bool {
    epoch == m.epoch && m.state is Connecting && ev is Connected
}

/// Whether a connection event is re-emitted downstream as `Disconnected`:
/// only a drop of the live stream; a failed attempt never reached the
/// consumer, so nothing is re-emitted for it.
pub open spec fn event_emits_disconnected(m: CtrlModel, epoch: nat, ev: EventModel) -> bool {
    epoch == m.epoch && m.state is Streaming && ev is Disconnected
}

/// State transition on shutdown: any state drains, keeping the epoch.
pub open spec fn step_shutdown(m: CtrlModel) -> CtrlModel {
    CtrlModel { kind: m.kind, state: CtrlStateModel::Draining, epoch: m.epoch }
}

/// Executable controller state; keys are held as owned strings.
pub enum ControllerState {
    Idle,
    Connecting { key: String },
    Streaming { key: String, handle: ConnectionHandle },
    Draining,
}

impl View for ControllerState {
    type V = CtrlStateModel;

    open spec fn view(&self) -> CtrlStateModel {
        match self {
            ControllerState::Idle => CtrlStateModel::Idle,
            ControllerState::Connecting { key } => CtrlStateModel::Connecting { key: key@ },
            ControllerState::Streaming { key, handle } => CtrlStateModel::Streaming {
                key: key@,
                handle: *handle,
            },
            ControllerState::Draining => CtrlStateModel::Draining,
        }
    }
}

/// The long-lived controller of one stream kind's subscription.
pub struct SubscriptionController {
    kind: StreamKind,
    state: ControllerState,
    epoch: u64,
}

impl View for SubscriptionController {
    type V = CtrlModel;

    closed spec fn view(&self) -> CtrlModel {
        CtrlModel { kind: self.kind, state: self.state@, epoch: self.epoch as nat }
    }
}

impl SubscriptionController {
    /// A fresh controller: idle, at epoch zero.
    pub fn new(kind: StreamKind) -> (c: Self)
        ensures
            c@.kind == kind,
            c@.state is Idle,
            c@.epoch == 0,
    {
        SubscriptionController { kind, state: ControllerState::Idle, epoch: 0 }
    }

    /// Apply a retarget command: start or re-start a connection attempt
    /// for `key` unless `key` is already the current target; abandoning a
    /// live stream re-emits `Disconnected` downstream first.
    pub fn on_retarget(&mut self, key: &str) -> (e: Effects)
        requires
            old(self)@.epoch < u64::MAX,
        ensures
            final(self)@ == step_retarget(old(self)@, key@),
            e.emit_disconnected == retarget_leaves_streaming(old(self)@, key@),
            e.emit_connected is None,
            !e.close,
            (e.connect is Some) == retarget_starts_connect(old(self)@, key@),
            e.connect matches Some(c) ==> c.key@ == key@ && c.epoch as nat == final(self)@.epoch,
    {
        let same = match &self.state {
            ControllerState::Connecting { key: cur } => str_eq(cur.as_str(), key),
            ControllerState::Streaming { key: cur, handle } => str_eq(cur.as_str(), key),
            _ => false,
        };
        match &self.state {
            ControllerState::Draining => Effects::none_needed(),
            _ => {
                if same {
                    Effects::none_needed()
                } else {
                    let was_streaming = match &self.state {
                        ControllerState::Streaming { key: cur, handle } => true,
                        _ => false,
                    };
                    self.epoch = self.epoch + 1;
                    self.state = ControllerState::Connecting { key: String::from_str(key) };
                    Effects {
                        emit_disconnected: was_streaming,
                        emit_connected: None,
                        close: false,
                        connect: Some(ConnectRequest { key: String::from_str(key), epoch: self.epoch }),
                    }
                }
            }
        }
    }

    /// Apply one event of the connection for `epoch`. Events of an
    /// abandoned epoch are dropped whole; a current-epoch drop triggers an
    /// immediate reconnection attempt for the same key; a current-epoch
    /// payload while streaming is handed back for delivery.
    pub fn on_conn_event<T>(&mut self, epoch: u64, event: LifecycleEvent<T>) -> (r: (
        Effects,
        Option<(String, T)>,
    ))
        requires
            old(self)@.epoch < u64::MAX,
        ensures
            final(self)@ == step_event(old(self)@, epoch as nat, event.model()),
            (r.0.emit_connected is Some) == event_emits_connected(
                old(self)@,
                epoch as nat,
                event.model(),
            ),
            r.0.emit_connected matches Some(h) ==> event.model() == EventModel::Connected(h),
            r.0.emit_disconnected == event_emits_disconnected(
                old(self)@,
                epoch as nat,
                event.model(),
            ),
            !r.0.close,
            (r.0.connect is Some) == event_starts_connect(old(self)@, epoch as nat, event.model()),
            r.0.connect matches Some(c) ==> Some(c.key@) == spec_target_key(old(self)@)
                && c.epoch as nat == final(self)@.epoch,
            (r.1 is Some) == event_forwards(old(self)@, epoch as nat, event.model()),
            r.1 matches Some(p) ==> event == LifecycleEvent::Message(p.0, p.1),
    {
        if epoch != self.epoch {
            return (Effects::none_needed(), None);
        }
        match event {
            LifecycleEvent::Connected(h) => {
                match &self.state {
                    ControllerState::Connecting { key } => {
                        let k = key.clone();
                        self.state = ControllerState::Streaming { key: k, handle: h };
                        (
                            Effects {
                                emit_disconnected: false,
                                emit_connected: Some(h),
                                close: false,
                                connect: None,
                            },
                            None,
                        )
                    }
                    _ => (Effects::none_needed(), None),
                }
            }
            LifecycleEvent::Disconnected => {
                match &self.state {
                    ControllerState::Connecting { key } => {
                        let k = key.clone();
                        self.epoch = self.epoch + 1;
                        self.state = ControllerState::Connecting { key: k.clone() };
                        (
                            Effects {
                                emit_disconnected: false,
                                emit_connected: None,
                                close: false,
                                connect: Some(ConnectRequest { key: k, epoch: self.epoch }),
                            },
                            None,
                        )
                    }
                    ControllerState::Streaming { key, handle } => {
                        let k = key.clone();
                        self.epoch = self.epoch + 1;
                        self.state = ControllerState::Connecting { key: k.clone() };
                        (
                            Effects {
                                emit_disconnected: true,
                                emit_connected: None,
                                close: false,
                                connect: Some(ConnectRequest { key: k, epoch: self.epoch }),
                            },
                            None,
                        )
                    }
                    _ => (Effects::none_needed(), None),
                }
            }
            LifecycleEvent::Message(k, v) => {
                match &self.state {
                    ControllerState::Streaming { key, handle } => (
                        Effects::none_needed(),
                        Some((k, v)),
                    ),
                    _ => (Effects::none_needed(), None),
                }
            }
        }
    }

    /// Shut the controller down: it drains and reacts to nothing further;
    /// an in-flight connection is asked to close, and nothing more is
    /// emitted downstream.
    pub fn on_shutdown(&mut self) -> (e: Effects)
        ensures
            final(self)@ == step_shutdown(old(self)@),
            !e.emit_disconnected,
            e.emit_connected is None,
            e.connect is None,
            e.close == (old(self)@.state is Connecting || old(self)@.state is Streaming),
    {
        let in_flight = match &self.state {
            ControllerState::Connecting { key } => true,
            ControllerState::Streaming { key, handle } => true,
            _ => false,
        };
        self.state = ControllerState::Draining;
        Effects { emit_disconnected: false, emit_connected: None, close: in_flight, connect: None }
    }

    /// The stream kind this controller manages.
    pub fn kind(&self) -> (k: StreamKind)
        ensures
            k == self@.kind,
    {
        self.kind
    }

    /// The current connect-epoch.
    pub fn epoch(&self) -> (e: u64)
        ensures
            e as nat == self@.epoch,
    {
        self.epoch
    }

    /// Whether a connection attempt is in flight.
    pub fn is_connecting(&self) -> (b: bool)
        ensures
            b == (self@.state is Connecting),
    {
        match &self.state {
            ControllerState::Connecting { key } => true,
            _ => false,
        }
    }

    /// Whether the controller holds a live stream.
    pub fn is_streaming(&self) -> (b: bool)
        ensures
            b == (self@.state is Streaming),
    {
        match &self.state {
            ControllerState::Streaming { key, handle } => true,
            _ => false,
        }
    }

    /// Whether the controller has been shut down.
    pub fn is_draining(&self) -> (b: bool)
        ensures
            b == (self@.state is Draining),
    {
        match &self.state {
            ControllerState::Draining => true,
            _ => false,
        }
    }

    /// The key currently targeted (pending or live), if any.
    pub fn target_key(&self) -> (r: Option<&String>)
        ensures
            match r {
                Some(k) => Some(k@) == spec_target_key(self@),
                None => spec_target_key(self@) is None,
            },
    {
        match &self.state {
            ControllerState::Connecting { key } => Some(key),
            ControllerState::Streaming { key, handle } => Some(key),
            _ => None,
        }
    }
}

/// The controller after a whole sequence of retarget commands.
pub open spec fn run_retargets(m: CtrlModel, cmds: Seq<Seq<char>>) -> CtrlModel
    decreases cmds.len(),
{
    if cmds.len() == 0 {
        m
    } else {
        run_retargets(step_retarget(m, cmds[0]), cmds.drop_first())
    }
}

/// Eventual consistency of the target: for every sequence of retarget
/// commands issued to a controller that is not draining, the key the
/// controller targets afterwards is exactly the last key issued.
pub proof fn lemma_retargets_settle(m: CtrlModel, cmds: Seq<Seq<char>>)
    requires
        !(m.state is Draining),
        cmds.len() > 0,
    ensures
        spec_target_key(run_retargets(m, cmds)) == Some(cmds.last()),
    decreases cmds.len(),
{
    let m1 = step_retarget(m, cmds[0]);
    assert(!(m1.state is Draining));
    if cmds.len() == 1 {
        assert(run_retargets(m1, cmds.drop_first()) == m1);
    } else {
        lemma_retargets_settle(m1, cmds.drop_first());
        assert(cmds.drop_first().last() == cmds.last());
    }
}

/// Anything a controller can be asked to process: a retarget command or
/// a connection event tagged with its connect-epoch.
pub enum CtrlInput {
    Retarget { key: Seq<char> },
    Conn { epoch: nat, event: EventModel },
}

/// One controller step on either kind of input.
pub open spec fn step_input(m: CtrlModel, input: CtrlInput) -> CtrlModel {
    match input {
        CtrlInput::Retarget { key } => step_retarget(m, key),
        CtrlInput::Conn { epoch, event } => step_event(m, epoch, event),
    }
}

/// The controller after a whole sequence of commands and events.
pub open spec fn run_inputs(m: CtrlModel, inputs: Seq<CtrlInput>) -> CtrlModel
    decreases inputs.len(),
{
    if inputs.len() == 0 {
        m
    } else {
        step_input(run_inputs(m, inputs.drop_last()), inputs.last())
    }
}

/// The connect-epoch never goes backwards, whatever the controller
/// processes.
pub proof fn lemma_epoch_monotonic(m: CtrlModel, inputs: Seq<CtrlInput>)
    ensures
        run_inputs(m, inputs).epoch >= m.epoch,
    decreases inputs.len(),
{
    if inputs.len() > 0 {
        lemma_epoch_monotonic(m, inputs.drop_last());
    }
}

/// Logical cancellation: a connect-epoch ends for good at its
/// `Disconnected`. Once a live stream's drop is processed, no later event
/// still tagged with that epoch is ever forwarded, whatever mixture of
/// commands and events arrives in between.
pub proof fn lemma_no_forward_after_epoch_drop(
    m: CtrlModel,
    inputs: Seq<CtrlInput>,
    ev: EventModel,
)
    requires
        m.state is Streaming,
    ensures
        !event_forwards(
            run_inputs(step_event(m, m.epoch, EventModel::Disconnected), inputs),
            m.epoch,
            ev,
        ),
{
    lemma_epoch_monotonic(step_event(m, m.epoch, EventModel::Disconnected), inputs);
}

/// Logical cancellation on retarget: abandoning a connection by a
/// retarget that starts a fresh attempt retires its epoch — no event of
/// the abandoned connection is ever forwarded afterwards.
pub proof fn lemma_no_forward_after_abandon(
    m: CtrlModel,
    k: Seq<char>,
    inputs: Seq<CtrlInput>,
    ev: EventModel,
)
    requires
        retarget_starts_connect(m, k),
    ensures
        !event_forwards(run_inputs(step_retarget(m, k), inputs), m.epoch, ev),
{
    lemma_epoch_monotonic(step_retarget(m, k), inputs);
}

/// Once the settled attempt connects, the live (streaming) key is the
/// settled target key.
pub proof fn lemma_settled_connect_streams(m: CtrlModel, h: ConnectionHandle)
    requires
        m.state is Connecting,
    ensures
        step_event(m, m.epoch, EventModel::Connected(h)).state is Streaming,
        spec_target_key(step_event(m, m.epoch, EventModel::Connected(h))) == spec_target_key(m),
{
}

} // verus!
