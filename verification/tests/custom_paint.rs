use std::cell::RefCell;

use nih_plug_dioxus::custom_paint::OverlayRegistry;

#[test]
fn ids_are_fresh_and_increasing() {
    let mut reg: OverlayRegistry<&'static str, (f64, f64)> = OverlayRegistry::new();
    assert_eq!(reg.register("a"), 1);
    assert_eq!(reg.register("b"), 2);
    reg.unregister(1);
    assert_eq!(reg.register("c"), 3);
    assert_eq!(reg.len(), 2);
    assert_eq!(reg.entry(0).id, 2);
    assert_eq!(reg.entry(1).id, 3);
    assert_eq!(reg.entry(1).overlay, "c");
}

#[test]
fn unregister_removes_only_that_overlay() {
    let mut reg: OverlayRegistry<u32, ()> = OverlayRegistry::new();
    for v in 10..14 {
        reg.register(v);
    }
    reg.unregister(2);
    reg.unregister(99);
    assert_eq!(reg.len(), 3);
    let overlays: Vec<u32> = (0..reg.len()).map(|i| reg.entry(i).overlay).collect();
    assert_eq!(overlays, vec![10, 12, 13]);
}

#[test]
fn set_rect_targets_one_overlay() {
    let mut reg: OverlayRegistry<u8, (f64, f64, f64, f64)> = OverlayRegistry::new();
    let a = reg.register(1);
    let b = reg.register(2);
    reg.set_rect(b, (10.0, 50.0, 800.0, 400.0));
    assert!(reg.entry(0).rect.is_none());
    assert_eq!(reg.entry(1).rect, Some((10.0, 50.0, 800.0, 400.0)));
    reg.set_rect(42, (0.0, 0.0, 1.0, 1.0));
    assert!(reg.entry(0).rect.is_none());
    reg.set_rect(a, (1.0, 2.0, 3.0, 4.0));
    assert_eq!(reg.entry(0).rect, Some((1.0, 2.0, 3.0, 4.0)));
}

#[test]
fn overlays_can_be_painted_in_place() {
    let mut reg: OverlayRegistry<RefCell<Vec<u32>>, ()> = OverlayRegistry::new();
    reg.register(RefCell::new(vec![]));
    reg.register(RefCell::new(vec![7]));
    for i in 0..reg.len() {
        reg.entry(i).overlay.borrow_mut().push(i as u32);
    }
    assert_eq!(*reg.entry(0).overlay.borrow(), vec![0]);
    assert_eq!(*reg.entry(1).overlay.borrow(), vec![7, 1]);
    assert_eq!(reg.entry(1).id, 2);
}

#[test]
fn kth_registration_gets_id_k_across_removals_and_moves() {
    let mut reg: OverlayRegistry<u8, u8> = OverlayRegistry::new();
    assert_eq!(reg.register(0), 1);
    reg.set_rect(1, 7);
    assert_eq!(reg.register(0), 2);
    reg.unregister(2);
    reg.unregister(1);
    assert_eq!(reg.len(), 0);
    assert_eq!(reg.register(0), 3);
    reg.unregister(3);
    assert_eq!(reg.register(0), 4);
    assert_eq!(reg.next_id(), 5);
}
