//! The loop that receives events, as a machine that never waits itself.
//!
//! The caller reports what arrived ([`Arrival`]) and is told what to do
//! ([`Order`]). An event is first applied to the cache; only when the caller
//! reports that this is done is the event handed out to be handled. Handlers
//! report nothing back: the loop never waits for one.

use crate::model::{Event, EventView};
use vstd::prelude::*;

verus! {

/// What the caller reports to the dispatcher.
#[derive(Debug, Clone, PartialEq, Eq)]
pub enum Arrival {
    /// The gateway delivered `event` on the shard `shard_id`.
    Event { shard_id: u64, event: Event },
    /// The cache has taken in the event last delivered.
    CacheApplied,
    /// The gateway will deliver no more events.
    StreamEnded,
}

/// What an [`Arrival`] holds, with its texts as sequences of characters.
pub enum ArrivalView {
    Event { shard_id: u64, event: EventView },
    CacheApplied,
    StreamEnded,
}

impl View for Arrival {
    type V = ArrivalView;

    open spec fn view(&self) -> ArrivalView {
        match self {
            Arrival::Event { shard_id, event } => ArrivalView::Event {
                shard_id: *shard_id,
                event: event@,
            },
            Arrival::CacheApplied => ArrivalView::CacheApplied,
            Arrival::StreamEnded => ArrivalView::StreamEnded,
        }
    }
}

/// What the caller is to do next.
#[derive(Debug, Clone, PartialEq, Eq)]
pub enum Order {
    /// Apply the event just delivered to the cache, then report
    /// [`Arrival::CacheApplied`].
    ApplyToCache,
    /// Start a handler of `event` that runs on its own, and go on to the
    /// next event without waiting for it.
    Spawn { shard_id: u64, event: Event },
    /// Leave the loop.
    Stop,
    /// There is nothing to do.
    Nothing,
}

/// What an [`Order`] holds, with its texts as sequences of characters.
pub enum OrderView {
    ApplyToCache,
    Spawn { shard_id: u64, event: EventView },
    Stop,
    Nothing,
}

impl View for Order {
    type V = OrderView;

    open spec fn view(&self) -> OrderView {
        match self {
            Order::ApplyToCache => OrderView::ApplyToCache,
            Order::Spawn { shard_id, event } => OrderView::Spawn {
                shard_id: *shard_id,
                event: event@,
            },
            Order::Stop => OrderView::Stop,
            Order::Nothing => OrderView::Nothing,
        }
    }
}

/// Where the loop stands.
#[derive(Debug, Clone, PartialEq, Eq)]
pub enum Dispatcher {
    /// The next event is awaited.
    Waiting,
    /// The cache is taking in `event`, which no handler has seen yet.
    Applying { shard_id: u64, event: Event },
    /// The stream of events has ended.
    Closed,
}

/// What a [`Dispatcher`] holds, with its texts as sequences of characters.
pub enum DispatcherView {
    Waiting,
    Applying { shard_id: u64, event: EventView },
    Closed,
}

impl View for Dispatcher {
    type V = DispatcherView;

    open spec fn view(&self) -> DispatcherView {
        match self {
            Dispatcher::Waiting => DispatcherView::Waiting,
            Dispatcher::Applying { shard_id, event } => DispatcherView::Applying {
                shard_id: *shard_id,
                event: event@,
            },
            Dispatcher::Closed => DispatcherView::Closed,
        }
    }
}

/// The state and the order that follow when `arrival` is reported in
/// `state`. An arrival that the dispatcher does not wait for changes nothing
/// and orders nothing.
pub open spec fn advance_of(state: DispatcherView, arrival: ArrivalView) -> (
    DispatcherView,
    OrderView,
) {
    match (state, arrival) {
        (DispatcherView::Waiting, ArrivalView::Event { shard_id, event }) => (
            DispatcherView::Applying { shard_id, event },
            OrderView::ApplyToCache,
        ),
        (DispatcherView::Waiting, ArrivalView::StreamEnded) => (
            DispatcherView::Closed,
            OrderView::Stop,
        ),
        (DispatcherView::Applying { shard_id, event }, ArrivalView::CacheApplied) => (
            DispatcherView::Waiting,
            OrderView::Spawn { shard_id, event },
        ),
        _ => (state, OrderView::Nothing),
    }
}

impl Dispatcher {
    /// A dispatcher that awaits its first event.
    pub fn new() -> (dispatcher: Dispatcher)
        ensures
            dispatcher@ == DispatcherView::Waiting,
    {
        Dispatcher::Waiting
    }

    /// Reports `arrival` to the dispatcher.
    pub fn advance(self, arrival: Arrival) -> (step: (Dispatcher, Order))
        ensures
            (step.0@, step.1@) == advance_of(self@, arrival@),
    {
        match self {
            Dispatcher::Waiting => match arrival {
                Arrival::Event { shard_id, event } => (
                    Dispatcher::Applying { shard_id, event },
                    Order::ApplyToCache,
                ),
                Arrival::StreamEnded => (Dispatcher::Closed, Order::Stop),
                Arrival::CacheApplied => (Dispatcher::Waiting, Order::Nothing),
            },
            Dispatcher::Applying { shard_id, event } => match arrival {
                Arrival::CacheApplied => (Dispatcher::Waiting, Order::Spawn { shard_id, event }),
                _ => (Dispatcher::Applying { shard_id, event }, Order::Nothing),
            },
            Dispatcher::Closed => (Dispatcher::Closed, Order::Nothing),
        }
    }
}

/// The state of a dispatcher that was in `state` before `arrivals` were
/// reported to it one after the other.
pub open spec fn state_after(state: DispatcherView, arrivals: Seq<ArrivalView>) -> DispatcherView
    decreases arrivals.len(),
{
    if arrivals.len() == 0 {
        state
    } else {
        advance_of(state_after(state, arrivals.drop_last()), arrivals.last()).0
    }
}

/// The orders a dispatcher in `state` gives while `arrivals` are reported to
/// it one after the other: one order for each arrival.
pub open spec fn orders_from(state: DispatcherView, arrivals: Seq<ArrivalView>) -> Seq<OrderView>
    decreases arrivals.len(),
{
    if arrivals.len() == 0 {
        Seq::empty()
    } else {
        orders_from(state, arrivals.drop_last()).push(
            advance_of(state_after(state, arrivals.drop_last()), arrivals.last()).1,
        )
    }
}

/// Whether the order given at `at` applies to the cache the event delivered
/// there, which is `event` of the shard `shard_id`.
pub open spec fn applies_at(
    arrivals: Seq<ArrivalView>,
    orders: Seq<OrderView>,
    at: int,
    shard_id: u64,
    event: EventView,
) -> bool {
    &&& 0 <= at < arrivals.len()
    &&& arrivals[at] == ArrivalView::Event { shard_id, event }
    &&& orders[at] == OrderView::ApplyToCache
}

/// Whether at `at` the cache has been told to take in `event`, has not yet
/// been said to be done, and nothing has been ordered since.
pub open spec fn applying_since(
    arrivals: Seq<ArrivalView>,
    orders: Seq<OrderView>,
    at: int,
    shard_id: u64,
    event: EventView,
) -> bool {
    &&& applies_at(arrivals, orders, at, shard_id, event)
    &&& forall|k: int| at < k < arrivals.len() ==> orders[k] == OrderView::Nothing
}

/// There is one order for each arrival.
pub proof fn orders_from_len(state: DispatcherView, arrivals: Seq<ArrivalView>)
    ensures
        orders_from(state, arrivals).len() == arrivals.len(),
    decreases arrivals.len(),
{
    if arrivals.len() > 0 {
        orders_from_len(state, arrivals.drop_last());
    }
}

/// Each order is the one that the state reached before it gives.
pub proof fn orders_from_index(state: DispatcherView, arrivals: Seq<ArrivalView>, i: int)
    requires
        0 <= i < arrivals.len(),
    ensures
        orders_from(state, arrivals).len() == arrivals.len(),
        orders_from(state, arrivals)[i] == advance_of(
            state_after(state, arrivals.take(i)),
            arrivals[i],
        ).1,
    decreases arrivals.len(),
{
    let shorter = arrivals.drop_last();
    orders_from_len(state, arrivals);
    orders_from_len(state, shorter);
    if i < arrivals.len() - 1 {
        orders_from_index(state, shorter, i);
        assert(shorter.take(i) =~= arrivals.take(i));
    } else {
        assert(shorter =~= arrivals.take(i));
    }
}

/// While the dispatcher is applying an event, the order to apply it is the
/// last order it gave.
proof fn applying_state_has_its_order(arrivals: Seq<ArrivalView>)
    ensures
        orders_from(DispatcherView::Waiting, arrivals).len() == arrivals.len(),
        state_after(DispatcherView::Waiting, arrivals) matches DispatcherView::Applying {
            shard_id,
            event,
        } ==> exists|at: int|
            applying_since(
                arrivals,
                orders_from(DispatcherView::Waiting, arrivals),
                at,
                shard_id,
                event,
            ),
    decreases arrivals.len(),
{
    let start = DispatcherView::Waiting;
    if arrivals.len() > 0 {
        let shorter = arrivals.drop_last();
        let orders = orders_from(start, arrivals);
        let before = state_after(start, shorter);
        applying_state_has_its_order(shorter);
        assert(orders.drop_last() =~= orders_from(start, shorter));
        if let DispatcherView::Applying { shard_id, event } = state_after(start, arrivals) {
            if let DispatcherView::Applying { shard_id: s, event: e } = before {
                let at = choose|at: int|
                    applying_since(shorter, orders_from(start, shorter), at, s, e);
                assert(applying_since(arrivals, orders, at, shard_id, event));
            } else {
                assert(applying_since(arrivals, orders, arrivals.len() - 1, shard_id, event));
            }
        }
    }
}

/// An event is handed to its handler only after the cache has taken it in.
/// Whatever is reported to a fresh dispatcher: where it orders a handler to
/// be spawned for an event, it does so on the report that the cache is done,
/// the order before that one was to apply that same event to the cache, given
/// when that event was delivered, and nothing was ordered in between.
pub proof fn cache_applied_before_spawn(
    arrivals: Seq<ArrivalView>,
    at: int,
    shard_id: u64,
    event: EventView,
)
    requires
        0 <= at < arrivals.len(),
        orders_from(DispatcherView::Waiting, arrivals)[at] == (OrderView::Spawn { shard_id, event }),
    ensures
        arrivals[at] == ArrivalView::CacheApplied,
        exists|earlier: int|
            {
                &&& 0 <= earlier < at
                &&& #[trigger] applies_at(
                    arrivals,
                    orders_from(DispatcherView::Waiting, arrivals),
                    earlier,
                    shard_id,
                    event,
                )
                &&& forall|k: int|
                    earlier < k < at ==> orders_from(DispatcherView::Waiting, arrivals)[k]
                        == OrderView::Nothing
            },
{
    let start = DispatcherView::Waiting;
    let orders = orders_from(start, arrivals);
    let prefix = arrivals.take(at);
    orders_from_index(start, arrivals, at);
    applying_state_has_its_order(prefix);
    let earlier = choose|earlier: int|
        applying_since(prefix, orders_from(start, prefix), earlier, shard_id, event);
    assert forall|k: int| 0 <= k < at implies orders_from(start, prefix)[k] == orders[k] by {
        orders_from_index(start, prefix, k);
        orders_from_index(start, arrivals, k);
        assert(prefix.take(k) =~= arrivals.take(k));
    }
    assert(applies_at(arrivals, orders, earlier, shard_id, event));
}

/// What the loop reports for `events`, delivered in this order: each event,
/// then that the cache has taken it in.
pub open spec fn loop_arrivals(events: Seq<(u64, EventView)>) -> Seq<ArrivalView>
    decreases events.len(),
{
    if events.len() == 0 {
        Seq::empty()
    } else {
        loop_arrivals(events.drop_last()).push(
            ArrivalView::Event { shard_id: events.last().0, event: events.last().1 },
        ).push(ArrivalView::CacheApplied)
    }
}

/// What the loop is to do for `events`: for each in turn, apply it to the
/// cache, then spawn its handler.
pub open spec fn loop_orders(events: Seq<(u64, EventView)>) -> Seq<OrderView>
    decreases events.len(),
{
    if events.len() == 0 {
        Seq::empty()
    } else {
        loop_orders(events.drop_last()).push(OrderView::ApplyToCache).push(
            OrderView::Spawn { shard_id: events.last().0, event: events.last().1 },
        )
    }
}

/// Every event delivered is applied to the cache and then handed to a
/// handler of its own, in the order of delivery, and the dispatcher then
/// awaits the next event: it waits for no handler.
pub proof fn every_event_is_applied_then_spawned(events: Seq<(u64, EventView)>)
    ensures
        orders_from(DispatcherView::Waiting, loop_arrivals(events)) == loop_orders(events),
        state_after(DispatcherView::Waiting, loop_arrivals(events)) == DispatcherView::Waiting,
    decreases events.len(),
{
    let start = DispatcherView::Waiting;
    if events.len() > 0 {
        let shorter = events.drop_last();
        every_event_is_applied_then_spawned(shorter);
        let delivered = loop_arrivals(shorter).push(
            ArrivalView::Event { shard_id: events.last().0, event: events.last().1 },
        );
        let all = delivered.push(ArrivalView::CacheApplied);
        assert(delivered.drop_last() =~= loop_arrivals(shorter));
        assert(all.drop_last() =~= delivered);
        assert(state_after(start, delivered) == (DispatcherView::Applying {
            shard_id: events.last().0,
            event: events.last().1,
        }));
        assert(orders_from(start, delivered) == loop_orders(shorter).push(
            OrderView::ApplyToCache,
        ));
    }
}

/// When the stream of events ends, the loop is told to stop, and from then
/// on nothing is ordered.
pub proof fn stream_end_stops_the_loop(events: Seq<(u64, EventView)>, later: ArrivalView)
    ensures
        ({
            let ended = loop_arrivals(events).push(ArrivalView::StreamEnded);
            &&& orders_from(DispatcherView::Waiting, ended).last() == OrderView::Stop
            &&& state_after(DispatcherView::Waiting, ended) == DispatcherView::Closed
            &&& advance_of(DispatcherView::Closed, later) == (
                DispatcherView::Closed,
                OrderView::Nothing,
            )
        }),
{
    every_event_is_applied_then_spawned(events);
    let ended = loop_arrivals(events).push(ArrivalView::StreamEnded);
    assert(ended.drop_last() =~= loop_arrivals(events));
}

} // verus!
