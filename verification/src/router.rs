//! The event router: fans lifecycle events of the per-kind controllers
//! into the consumer, and translates pair changes into per-kind retarget
//! commands.
//!
//! The router owns, per stream kind, the most recent connection handle (or
//! none), and one currently recorded subscription key. A payload is handed
//! to the consumer only while a handle is live for its kind and only when
//! its originating key matches the recorded key; everything else is
//! dropped as stale.

use vstd::prelude::*;
use crate::controller::EventModel;
use crate::events::{ConnectionHandle, LifecycleEvent, RetargetCommand, StreamKind};
use crate::keys::{norm_key, normalize_key, str_eq};

verus! {

/// Mathematical model of the router.
pub struct RouterModel {
    pub recorded: Seq<char>,
    pub registered: Seq<StreamKind>,
    pub order_book: Option<ConnectionHandle>,
    pub trade_prints: Option<ConnectionHandle>,
    pub price: Option<ConnectionHandle>,
    pub user_data: Option<ConnectionHandle>,
}

/// The handle the router holds for `kind`, if any.
pub open spec fn live_handle(m: RouterModel, kind: StreamKind) -> Option<ConnectionHandle> {
    match kind {
        StreamKind::OrderBook => m.order_book,
        StreamKind::TradePrints => m.trade_prints,
        StreamKind::Price => m.price,
        StreamKind::UserData => m.user_data,
    }
}

/// A router is well formed when no controller is registered twice: each
/// stream kind has at most one controller.
pub open spec fn router_wf(m: RouterModel) -> bool {
    forall|i: int, j: int|
        0 <= i < j < m.registered.len() ==> m.registered[i] != m.registered[j]
}

/// Model of the router with the handle for `kind` replaced.
pub open spec fn with_handle(
    m: RouterModel,
    kind: StreamKind,
    h: Option<ConnectionHandle>,
) -> RouterModel {
    match kind {
        StreamKind::OrderBook => RouterModel { order_book: h, ..m },
        StreamKind::TradePrints => RouterModel { trade_prints: h, ..m },
        StreamKind::Price => RouterModel { price: h, ..m },
        StreamKind::UserData => RouterModel { user_data: h, ..m },
    }
}

/// State transition on one lifecycle event for `kind`: `Connected` stores
/// the fresh handle, `Disconnected` clears it, a payload changes nothing.
pub open spec fn step_route(m: RouterModel, kind: StreamKind, ev: EventModel) -> RouterModel {
    match ev {
        EventModel::Connected(h) => with_handle(m, kind, Some(h)),
        EventModel::Disconnected => with_handle(m, kind, None),
        EventModel::Message { key } => m,
    }
}

/// Whether an event for `kind` is handed to the consumer: only a payload,
/// only while a handle is live for `kind`, and only when the payload's
/// originating key is the recorded key.
pub open spec fn route_delivers(m: RouterModel, kind: StreamKind, ev: EventModel) -> bool {
    &&& ev matches EventModel::Message { key } && key == m.recorded
    &&& live_handle(m, kind) is Some
}

/// State transition on a pair change: an already-recorded key changes
/// nothing, a new key is recorded.
pub open spec fn step_set_pair(m: RouterModel, symbol: Seq<char>) -> RouterModel {
    if norm_key(symbol) == m.recorded {
        m
    } else {
        RouterModel { recorded: norm_key(symbol), ..m }
    }
}

/// The controllers to which a pair change issues a retarget command,
/// each command carrying the normalized new key: none for an
/// already-recorded key, else every registered controller, in order.
pub open spec fn set_pair_targets(m: RouterModel, symbol: Seq<char>) -> Seq<StreamKind> {
    if norm_key(symbol) == m.recorded {
        Seq::<StreamKind>::empty()
    } else {
        m.registered
    }
}

/// The router after a whole sequence of lifecycle events for one kind.
pub open spec fn run_route(m: RouterModel, kind: StreamKind, evs: Seq<EventModel>) -> RouterModel
    decreases evs.len(),
{
    if evs.len() == 0 {
        m
    } else {
        step_route(run_route(m, kind, evs.drop_last()), kind, evs.last())
    }
}

/// The executable router.
pub struct EventRouter {
    recorded: String,
    registered: Vec<StreamKind>,
    order_book: Option<ConnectionHandle>,
    trade_prints: Option<ConnectionHandle>,
    price: Option<ConnectionHandle>,
    user_data: Option<ConnectionHandle>,
}

impl View for EventRouter {
    type V = RouterModel;

    closed spec fn view(&self) -> RouterModel {
        RouterModel {
            recorded: self.recorded@,
            registered: self.registered@,
            order_book: self.order_book,
            trade_prints: self.trade_prints,
            price: self.price,
            user_data: self.user_data,
        }
    }
}

impl EventRouter {
    /// A fresh router: the initial symbol is normalized and recorded, one
    /// controller per kind in `kinds` is registered, and no handle is
    /// live. Each stream kind has its own controller, so no kind may be
    /// registered twice.
    pub fn new(initial_symbol: &str, kinds: Vec<StreamKind>) -> (r: Self)
        requires
            forall|i: int, j: int| 0 <= i < j < kinds@.len() ==> kinds@[i] != kinds@[j],
        ensures
            r@.recorded == norm_key(initial_symbol@),
            r@.registered == kinds@,
            forall|k: StreamKind| live_handle(r@, k) is None,
            router_wf(r@),
    {
        EventRouter {
            recorded: normalize_key(initial_symbol),
            registered: kinds,
            order_book: None,
            trade_prints: None,
            price: None,
            user_data: None,
        }
    }

    /// Process one lifecycle event for `kind`, and hand back the payload
    /// to pass to the consumer, if this event is to be delivered.
    pub fn on_event<T>(&mut self, kind: StreamKind, event: LifecycleEvent<T>) -> (r: Option<T>)
        ensures
            final(self)@ == step_route(old(self)@, kind, event.model()),
            (r is Some) == route_delivers(old(self)@, kind, event.model()),
            r matches Some(p) ==> event.payload() == Some(p),
    {
        match event {
            LifecycleEvent::Connected(h) => {
                self.set_handle(kind, Some(h));
                None
            }
            LifecycleEvent::Disconnected => {
                self.set_handle(kind, None);
                None
            }
            LifecycleEvent::Message(k, v) => {
                let live = match self.handle_for(kind) {
                    Some(h) => true,
                    None => false,
                };
                if live && str_eq(k.as_str(), self.recorded.as_str()) {
                    Some(v)
                } else {
                    None
                }
            }
        }
    }

    /// Change the watched pair. The symbol is normalized; a symbol already
    /// recorded issues nothing (idempotence), a new one is recorded and
    /// one retarget command per registered controller is issued, each
    /// carrying the normalized key.
    pub fn set_pair(&mut self, symbol: &str) -> (cmds: Vec<RetargetCommand>)
        ensures
            final(self)@ == step_set_pair(old(self)@, symbol@),
            cmds@.len() == set_pair_targets(old(self)@, symbol@).len(),
            forall|i: int|
                0 <= i < cmds@.len() ==> #[trigger] cmds@[i].kind == set_pair_targets(
                    old(self)@,
                    symbol@,
                )[i] && cmds@[i].key@ == norm_key(symbol@),
    {
        let normalized = normalize_key(symbol);
        if str_eq(normalized.as_str(), self.recorded.as_str()) {
            return Vec::new();
        }
        self.recorded = normalized;
        let mut cmds: Vec<RetargetCommand> = Vec::new();
        let n: usize = self.registered.len();
        let mut i: usize = 0;
        while i < n
            invariant
                self@ == step_set_pair(old(self)@, symbol@),
                i <= n,
                n == self@.registered.len(),
                self@.recorded == norm_key(symbol@),
                cmds@.len() == i,
                forall|t: int|
                    0 <= t < i ==> #[trigger] cmds@[t].kind == self@.registered[t]
                        && cmds@[t].key@ == norm_key(symbol@),
            decreases n - i,
        {
            let kind = self.registered[i];
            cmds.push(RetargetCommand { kind, key: self.recorded.clone() });
            i += 1;
        }
        cmds
    }

    /// The routing target for a command addressed to `kind`: the live
    /// handle to send it through, or nothing, in which case the command is
    /// a silent no-op (there is no connection to reconfigure; the next
    /// successful connect uses the recorded key anyway).
    pub fn dispatch_command(&self, kind: StreamKind) -> (r: Option<ConnectionHandle>)
        ensures
            r == live_handle(self@, kind),
    {
        self.handle_for(kind)
    }

    /// The currently recorded (normalized) subscription key.
    pub fn recorded_key(&self) -> (r: &String)
        ensures
            r@ == self@.recorded,
    {
        &self.recorded
    }

    /// Whether the router holds a live handle for `kind`: the per-kind
    /// connectivity indicator.
    pub fn is_connected(&self, kind: StreamKind) -> (b: bool)
        ensures
            b == (live_handle(self@, kind) is Some),
    {
        match self.handle_for(kind) {
            Some(h) => true,
            None => false,
        }
    }

    /// The registered stream kinds, in registration order.
    pub fn registered_kinds(&self) -> (r: &Vec<StreamKind>)
        ensures
            r@ == self@.registered,
    {
        &self.registered
    }

    fn handle_for(&self, kind: StreamKind) -> (r: Option<ConnectionHandle>)
        ensures
            r == live_handle(self@, kind),
    {
        match kind {
            StreamKind::OrderBook => self.order_book,
            StreamKind::TradePrints => self.trade_prints,
            StreamKind::Price => self.price,
            StreamKind::UserData => self.user_data,
        }
    }

    fn set_handle(&mut self, kind: StreamKind, h: Option<ConnectionHandle>)
        ensures
            final(self)@ == with_handle(old(self)@, kind, h),
    {
        match kind {
            StreamKind::OrderBook => {
                self.order_book = h;
            }
            StreamKind::TradePrints => {
                self.trade_prints = h;
            }
            StreamKind::Price => {
                self.price = h;
            }
            StreamKind::UserData => {
                self.user_data = h;
            }
        }
    }
}

/// No stale delivery: a payload handed to the consumer always carries the
/// router's currently recorded key — never any other key.
pub proof fn lemma_no_stale_delivery(m: RouterModel, kind: StreamKind, ev: EventModel)
    requires
        route_delivers(m, kind, ev),
    ensures
        ev matches EventModel::Message { key } && key == m.recorded,
{
}

/// After a `Disconnected` for some kind, no handle is live for that kind
/// until the next `Connected` for it, whatever else arrives in between.
pub proof fn lemma_disconnect_clears_until_connect(
    m: RouterModel,
    kind: StreamKind,
    evs: Seq<EventModel>,
    i: int,
    t: int,
)
    requires
        0 <= i < t <= evs.len(),
        evs[i] is Disconnected,
        forall|u: int| i < u < t ==> !(evs[u] is Connected),
    ensures
        live_handle(run_route(m, kind, evs.take(t)), kind) is None,
    decreases t,
{
    if t == i + 1 {
        assert(evs.take(t).drop_last() =~= evs.take(i));
        assert(evs.take(t).last() == evs[i]);
    } else {
        lemma_disconnect_clears_until_connect(m, kind, evs, i, t - 1);
        assert(evs.take(t).drop_last() =~= evs.take(t - 1));
        assert(evs.take(t).last() == evs[t - 1]);
        assert(!(evs[t - 1] is Connected));
    }
}

/// Ordering invariant: after a `Disconnected` event for a kind, no
/// `Message` event is delivered for that kind until the next `Connected`
/// for the same kind.
pub proof fn lemma_no_message_between_disconnect_and_connect(
    m: RouterModel,
    kind: StreamKind,
    evs: Seq<EventModel>,
    i: int,
    j: int,
)
    requires
        0 <= i < j < evs.len(),
        evs[i] is Disconnected,
        forall|u: int| i < u <= j ==> !(evs[u] is Connected),
    ensures
        !route_delivers(run_route(m, kind, evs.take(j)), kind, evs[j]),
{
    lemma_disconnect_clears_until_connect(m, kind, evs, i, j);
}

/// Idempotence of pair changes: issuing the same symbol twice in a row
/// issues retarget commands at most once — the second call issues none.
pub proof fn lemma_set_pair_idempotent(m: RouterModel, symbol: Seq<char>)
    ensures
        set_pair_targets(step_set_pair(m, symbol), symbol).len() == 0,
{
}

/// With one controller per stream kind, a single pair change retargets
/// each controller at most once.
pub proof fn lemma_set_pair_targets_distinct(m: RouterModel, symbol: Seq<char>)
    requires
        router_wf(m),
    ensures
        forall|i: int, j: int|
            0 <= i < j < set_pair_targets(m, symbol).len() ==> set_pair_targets(m, symbol)[i]
                != set_pair_targets(m, symbol)[j],
{
}

} // verus!
