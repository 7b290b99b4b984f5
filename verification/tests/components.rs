use glide_ui::autohide::AUTOHIDE_DELAY_SECONDS;
use glide_ui::autohide::AutohideToolbar;
use glide_ui::geometry::Geometry;
use glide_ui::geometry::GeometryMemory;
use glide_ui::sleep::SleepInhibitor;

#[test]
fn hide_delay_is_five_seconds() {
    assert_eq!(AUTOHIDE_DELAY_SECONDS, 5);
}

#[test]
fn sleep_inhibitor_takes_at_most_once() {
    let mut sleep = SleepInhibitor::new();
    assert_eq!(sleep.token, None);
    sleep.store(77);
    assert_eq!(sleep.token, Some(77));
    assert_eq!(sleep.take(), Some(77));
    assert_eq!(sleep.take(), None);
    assert_eq!(sleep.token, None);
}

#[test]
fn autohide_disarms_at_most_once() {
    let mut autohide = AutohideToolbar::new(true);
    assert_eq!(autohide.observer, None);
    autohide.arm(5);
    assert_eq!(autohide.observer, Some(5));
    assert_eq!(autohide.disarm(), Some(5));
    assert_eq!(autohide.disarm(), None);
    assert!(autohide.supported);
}

#[test]
fn geometry_memory_overwrites_and_clears() {
    let mut memory = GeometryMemory::new();
    assert_eq!(memory.read(), None);
    let g1 = Geometry { width: 800, height: 600, x: 10, y: 10 };
    let g2 = Geometry { width: 1280, height: 720, x: 0, y: 0 };
    memory.snapshot(g1);
    assert_eq!(memory.read(), Some(g1));
    memory.snapshot(g2);
    assert_eq!(memory.read(), Some(g2));
    memory.clear();
    assert_eq!(memory.read(), None);
}
