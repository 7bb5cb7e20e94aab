use render_core::events::DeleteEntityEvent;
use render_core::events::Delivery;
use render_core::events::EngineEvent;
use render_core::events::EventBus;
use render_core::events::EventKind;
use render_core::events::EventStatus;
use render_core::events::ViewportResizeInfo;
use render_core::events::VulkanDeleteObjectEvent;
use render_core::viewport::ViewportInfo;

#[test]
fn new_bus_is_empty() {
    let bus = EventBus::new();
    assert_eq!(bus.observer_count(), 0);
    assert!(bus.deliveries().is_empty());
}

#[test]
fn emit_without_observers_delivers_nothing() {
    let mut bus = EventBus::new();
    bus.emit(EngineEvent::DeleteEntity(DeleteEntityEvent { entity_id: 1 }));
    assert!(bus.deliveries().is_empty());
}

#[test]
fn emit_reaches_only_observers_of_the_events_kind() {
    let mut bus = EventBus::new();
    bus.observe(EventKind::DeleteEntity);
    bus.observe(EventKind::DeleteObject);
    bus.observe(EventKind::DeleteEntity);
    let event = EngineEvent::DeleteEntity(DeleteEntityEvent { entity_id: 8 });
    bus.emit(event);
    let log = bus.deliveries();
    assert_eq!(log.len(), 2);
    assert_eq!(log[0], Delivery { observer: 0, event });
    assert_eq!(log[1], Delivery { observer: 2, event });
}

#[test]
fn deliveries_accumulate_in_emission_order() {
    let mut bus = EventBus::new();
    bus.observe(EventKind::DeleteObject);
    bus.observe(EventKind::ResizeViewport);
    let delete = EngineEvent::DeleteObject(VulkanDeleteObjectEvent { object_id: 3 });
    let resize = EngineEvent::ResizeViewport(ViewportResizeInfo {
        viewport_information: ViewportInfo::new([0, 0], [640, 480]),
    });
    bus.emit(delete);
    bus.emit(resize);
    let log = bus.deliveries();
    assert_eq!(log.len(), 2);
    assert_eq!(log[0], Delivery { observer: 0, event: delete });
    assert_eq!(log[1], Delivery { observer: 1, event: resize });
}

#[test]
fn observing_after_an_emission_does_not_rewrite_history() {
    let mut bus = EventBus::new();
    let event = EngineEvent::DeleteObject(VulkanDeleteObjectEvent { object_id: 5 });
    bus.emit(event);
    bus.observe(EventKind::DeleteObject);
    assert!(bus.deliveries().is_empty());
    bus.emit(event);
    assert_eq!(bus.deliveries().len(), 1);
}

#[test]
fn event_statuses_are_distinct() {
    assert_ne!(EventStatus::Pending, EventStatus::Done);
    assert_ne!(EventStatus::Processing, EventStatus::Failed);
    assert_eq!(EventStatus::Done, EventStatus::Done);
}
