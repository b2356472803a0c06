use web_canvas::canvas::{Canvas, CanvasSet};

#[test]
fn same_name_gives_same_id_and_registers_once() {
    let mut registered = CanvasSet::new();
    let (first, first_due) = Canvas::from_element("example-canvas", &mut registered);
    let (second, second_due) = Canvas::from_element("example-canvas", &mut registered);
    assert_eq!(first.id(), second.id());
    assert_eq!(first, second);
    assert!(first_due);
    assert!(!second_due);
    assert!(registered.contains(first.id()));
}

#[test]
fn id_is_djb2_of_name_bytes() {
    let mut registered = CanvasSet::new();
    assert_eq!(Canvas::from_element("", &mut registered).0.id(), 5381);
    assert_eq!(Canvas::from_element("a", &mut registered).0.id(), 177670);
    assert_eq!(Canvas::from_element("example-canvas", &mut registered).0.id(), 2333467258);
}

#[test]
fn id_hashes_utf8_bytes_not_chars() {
    let mut registered = CanvasSet::new();
    assert_eq!(Canvas::from_element("h\u{e9}llo", &mut registered).0.id(), 144619072);
}

#[test]
fn distinct_names_register_separately() {
    let mut registered = CanvasSet::new();
    let (a, a_due) = Canvas::from_element("left", &mut registered);
    let (b, b_due) = Canvas::from_element("right", &mut registered);
    assert_ne!(a.id(), b.id());
    assert!(a_due && b_due);
    assert!(registered.contains(a.id()));
    assert!(registered.contains(b.id()));
    assert!(!registered.contains(7));
}

#[test]
fn canvas_set_insert_reports_novelty() {
    let mut set = CanvasSet::new();
    assert!(!set.contains(3));
    assert!(set.insert(3));
    assert!(!set.insert(3));
    assert!(set.contains(3));
}
