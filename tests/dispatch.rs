use web_canvas::canvas::{Canvas, CanvasSet, EventRegistry};

fn canvas(name: &str) -> Canvas {
    let mut registered = CanvasSet::new();
    Canvas::from_element(name, &mut registered).0
}

#[test]
fn second_registration_replaces_first() {
    let c = canvas("example-canvas");
    let mut registry: EventRegistry<&str> = EventRegistry::new();
    c.register_handler(&mut registry, "A");
    c.register_handler(&mut registry, "B");
    let (handle, handler) = registry.take_handler(c.id()).unwrap();
    assert_eq!(handler, "B");
    assert_eq!(handle.id(), c.id());
    registry.restore_handler(&handle, handler);
    let (_, again) = registry.take_handler(c.id()).unwrap();
    assert_eq!(again, "B");
}

#[test]
fn dispatch_to_unregistered_is_silent() {
    let c = canvas("example-canvas");
    let mut registry: EventRegistry<u32> = EventRegistry::new();
    c.register_handler(&mut registry, 1);
    assert!(registry.take_handler(c.id().wrapping_add(1)).is_none());
    assert!(registry.has_handler(c.id()));
    assert!(!registry.has_handler(c.id().wrapping_add(1)));
}

#[test]
fn handler_is_absent_while_it_runs_and_back_after() {
    let c = canvas("example-canvas");
    let mut registry: EventRegistry<u32> = EventRegistry::new();
    c.register_handler(&mut registry, 10);
    let (handle, handler) = registry.take_handler(c.id()).unwrap();
    assert!(!registry.has_handler(c.id()));
    assert!(registry.take_handler(c.id()).is_none());
    registry.restore_handler(&handle, handler);
    assert!(registry.has_handler(c.id()));
    assert_eq!(registry.take_handler(c.id()).unwrap().1, 10);
}

#[test]
fn handler_registering_for_own_canvas_wins() {
    let c = canvas("example-canvas");
    let mut registry: EventRegistry<u32> = EventRegistry::new();
    c.register_handler(&mut registry, 1);
    let (handle, running) = registry.take_handler(c.id()).unwrap();
    handle.register_handler(&mut registry, 2);
    registry.restore_handler(&handle, running);
    assert_eq!(registry.take_handler(c.id()).unwrap().1, 2);
}

#[test]
fn other_canvas_reachable_while_handler_runs() {
    let a = canvas("left");
    let b = canvas("right");
    let mut registry: EventRegistry<u32> = EventRegistry::new();
    a.register_handler(&mut registry, 1);
    b.register_handler(&mut registry, 2);
    let (handle_a, running) = registry.take_handler(a.id()).unwrap();
    let (handle_b, other) = registry.take_handler(b.id()).unwrap();
    assert_eq!(other, 2);
    registry.restore_handler(&handle_b, other);
    registry.restore_handler(&handle_a, running);
    assert!(registry.has_handler(a.id()));
    assert!(registry.has_handler(b.id()));
}
