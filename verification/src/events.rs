//! A typed, deterministic event bus.
//!
//! Observers subscribe to one kind of event; emitting an event delivers it,
//! in subscription order, to every observer of its kind. Deliveries are
//! recorded in an ordered log so that the effect of `emit` is observable and
//! fully specified.

use vstd::prelude::*;

use crate::viewport::ViewportInfo;

verus! {

/// Outcome of processing an event.
#[derive(Clone, Copy, PartialEq, Eq, Structural, Debug)]
pub enum EventStatus {
    Pending,
    Processing,
    Done,
    Failed,
}

/// Asks the entity layer to remove the entity with this id.
#[derive(Clone, Copy, PartialEq, Eq, Debug)]
pub struct DeleteEntityEvent {
    pub entity_id: usize,
}

/// Asks the renderer to delete the drawable object with this id.
#[derive(Clone, Copy, PartialEq, Eq, Debug)]
pub struct VulkanDeleteObjectEvent {
    pub object_id: usize,
}

/// Asks the renderer to adopt a new viewport.
#[derive(Clone, Copy, PartialEq, Eq, Debug)]
pub struct ViewportResizeInfo {
    pub viewport_information: ViewportInfo,
}

/// The closed set of events the bus routes.
#[derive(Clone, Copy, PartialEq, Eq, Debug)]
pub enum EngineEvent {
    DeleteEntity(DeleteEntityEvent),
    DeleteObject(VulkanDeleteObjectEvent),
    ResizeViewport(ViewportResizeInfo),
}

/// The kind of an event, the key observers subscribe under.
#[derive(Clone, Copy, PartialEq, Eq, Structural, Debug)]
pub enum EventKind {
    DeleteEntity,
    DeleteObject,
    ResizeViewport,
}

pub open spec fn kind_of(e: EngineEvent) -> EventKind {
    match e {
        EngineEvent::DeleteEntity(_) => EventKind::DeleteEntity,
        EngineEvent::DeleteObject(_) => EventKind::DeleteObject,
        EngineEvent::ResizeViewport(_) => EventKind::ResizeViewport,
    }
}

/// One delivery: which observer (by subscription index) received which event.
#[derive(Clone, Copy, PartialEq, Eq, Debug)]
pub struct Delivery {
    pub observer: usize,
    pub event: EngineEvent,
}

/// The deliveries that emitting `e` adds to the log when the first
/// `observers.len()` subscriptions are `observers`: one delivery per
/// observer of `e`'s kind, in subscription order.
pub open spec fn deliveries_for(observers: Seq<EventKind>, e: EngineEvent) -> Seq<Delivery>
    decreases observers.len(),
{
    if observers.len() == 0 {
        Seq::empty()
    } else {
        let rest = deliveries_for(observers.drop_last(), e);
        if observers.last() == kind_of(e) {
            rest.push(Delivery { observer: (observers.len() - 1) as usize, event: e })
        } else {
            rest
        }
    }
}

/// Routes events to observers by kind, in subscription order.
pub struct EventBus {
    observers: Vec<EventKind>,
    log: Vec<Delivery>,
}

impl EventBus {
    pub fn new() -> (r: EventBus)
        ensures
            r.observers() == Seq::<EventKind>::empty(),
            r.log() == Seq::<Delivery>::empty(),
    {
        EventBus { observers: Vec::new(), log: Vec::new() }
    }

    pub closed spec fn observers(&self) -> Seq<EventKind> {
        self.observers@
    }

    pub closed spec fn log(&self) -> Seq<Delivery> {
        self.log@
    }

    /// Registers one more observer for events of `kind`.
    pub fn observe(&mut self, kind: EventKind)
        ensures
            final(self).observers() == old(self).observers().push(kind),
            final(self).log() == old(self).log(),
    {
        self.observers.push(kind);
    }

    /// Delivers `event` to every observer of its kind, in subscription
    /// order, appending one log entry per delivery; observers are unchanged.
    pub fn emit(&mut self, event: EngineEvent)
        ensures
            final(self).observers() == old(self).observers(),
            final(self).log() == old(self).log() + deliveries_for(
                old(self).observers(),
                event,
            ),
    {
        let ghost old_log = self.log@;
        let n: usize = self.observers.len();
        let mut i: usize = 0;
        while i < n
            invariant
                i <= n,
                n == self.observers.len(),
                self.observers@ == old(self).observers(),
                old_log == old(self).log(),
                self.log@ == old_log + deliveries_for(self.observers@.take(i as int), event),
            decreases n - i,
        {
            let ghost prefix = self.observers@.take(i as int);
            if self.observers[i] == event_kind(&event) {
                self.log.push(Delivery { observer: i, event });
            }
            proof {
                assert(self.observers@.take(i + 1).drop_last() =~= prefix);
                assert(self.observers@.take(i + 1).last() == self.observers@[i as int]);
            }
            i = i + 1;
        }
        proof {
            assert(self.observers@.take(n as int) =~= self.observers@);
        }
    }

    /// The deliveries made so far, oldest first.
    pub fn deliveries(&self) -> (r: &Vec<Delivery>)
        ensures
            r@ == self.log(),
    {
        &self.log
    }

    /// How many observers are registered.
    pub fn observer_count(&self) -> (r: usize)
        ensures
            r == self.observers().len(),
    {
        self.observers.len()
    }
}

/// The executable counterpart of `kind_of`.
pub fn event_kind(e: &EngineEvent) -> (r: EventKind)
    ensures
        r == kind_of(*e),
{
    match e {
        EngineEvent::DeleteEntity(_) => EventKind::DeleteEntity,
        EngineEvent::DeleteObject(_) => EventKind::DeleteObject,
        EngineEvent::ResizeViewport(_) => EventKind::ResizeViewport,
    }
}

} // verus!
