use glide_ui::geometry::Geometry;
use glide_ui::ui_context::EnterError;
use glide_ui::ui_context::Mode;
use glide_ui::ui_context::UIContext;

fn geometry(width: i32, height: i32, x: i32, y: i32) -> Geometry {
    Geometry { width, height, x, y }
}

#[test]
fn full_session_scenario() {
    // Windowed, size (800, 600), position (10, 10).
    let mut ctx = UIContext::new(true);
    assert_eq!(ctx.mode, Mode::Windowed);
    assert!(ctx.toolbar_visible && ctx.cursor_visible && ctx.menu_bar_visible);

    // Enter fullscreen.
    let g = geometry(800, 600, 10, 10);
    let r = ctx.enter_fullscreen(true, 42, g, true);
    assert_eq!(r, Ok(()));
    assert_eq!(ctx.geometry.read(), Some(g));
    assert_eq!(ctx.sleep.token, Some(42));
    assert!(!ctx.toolbar_visible);
    assert!(!ctx.cursor_visible);

    // Arm the autohide observer, then a pointer movement reveals the UI.
    assert!(ctx.start_autohide_toolbar(7));
    let schedule_hide = ctx.on_pointer_motion();
    assert!(schedule_hide);
    assert!(ctx.toolbar_visible);
    assert!(ctx.cursor_visible);

    // The delay elapses while still fullscreen: hidden again.
    ctx.on_hide_timeout();
    assert!(!ctx.toolbar_visible);
    assert!(!ctx.cursor_visible);

    // Leave fullscreen: token released, everything visible again.
    let actions = ctx.leave_fullscreen();
    assert_eq!(actions.release_token, Some(42));
    assert_eq!(actions.disconnect_observer, Some(7));
    assert_eq!(actions.prior_geometry, Some(g));
    assert_eq!(ctx.sleep.token, None);
    assert!(ctx.toolbar_visible);
    assert!(ctx.cursor_visible);
    assert!(ctx.menu_bar_visible);
}

#[test]
fn leave_while_windowed_is_a_no_op() {
    let mut ctx = UIContext::new(true);
    let before = ctx;
    let actions = ctx.leave_fullscreen();
    assert_eq!(actions.release_token, None);
    assert_eq!(actions.disconnect_observer, None);
    assert_eq!(actions.prior_geometry, None);
    assert_eq!(ctx, before);
}

#[test]
fn motion_while_windowed_changes_nothing() {
    let mut ctx = UIContext::new(true);
    let before = ctx;
    let schedule_hide = ctx.on_pointer_motion();
    assert!(!schedule_hide);
    assert_eq!(ctx, before);
}

#[test]
fn motion_reveals_and_timeout_hides_while_fullscreen() {
    let mut ctx = UIContext::new(true);
    ctx.enter_fullscreen(true, 1, geometry(640, 480, 0, 0), true).unwrap();
    assert!(ctx.start_autohide_toolbar(9));
    assert!(!ctx.toolbar_visible && !ctx.cursor_visible);

    assert!(ctx.on_pointer_motion());
    assert!(ctx.toolbar_visible && ctx.cursor_visible);

    ctx.on_hide_timeout();
    assert!(!ctx.toolbar_visible && !ctx.cursor_visible);
}

#[test]
fn stale_timeout_after_leaving_changes_nothing() {
    let mut ctx = UIContext::new(true);
    ctx.enter_fullscreen(true, 1, geometry(640, 480, 0, 0), true).unwrap();
    assert!(ctx.start_autohide_toolbar(9));
    assert!(ctx.on_pointer_motion());
    ctx.leave_fullscreen();

    // A hide callback scheduled by the movement above fires only now.
    let before = ctx;
    ctx.on_hide_timeout();
    assert_eq!(ctx, before);
    assert!(ctx.toolbar_visible && ctx.cursor_visible && ctx.menu_bar_visible);
}

#[test]
fn enter_and_leave_restore_visibility_despite_motions() {
    let mut ctx = UIContext::new(true);
    ctx.enter_fullscreen(true, 5, geometry(300, 200, 4, 4), true).unwrap();
    assert!(ctx.start_autohide_toolbar(2));
    for _ in 0..17 {
        assert!(ctx.on_pointer_motion());
    }
    ctx.on_hide_timeout();
    ctx.on_pointer_motion();
    let actions = ctx.leave_fullscreen();
    assert_eq!(actions.release_token, Some(5));
    assert!(ctx.toolbar_visible);
    assert!(ctx.cursor_visible);
    assert!(ctx.menu_bar_visible);
}

#[test]
fn refused_platform_request_rolls_the_attempt_back() {
    let mut ctx = UIContext::new(false);
    let before = ctx;
    let r = ctx.enter_fullscreen(true, 11, geometry(640, 480, 0, 0), false);
    assert_eq!(r, Err(EnterError::PlatformRefused));
    assert_eq!(ctx, before);
    assert_eq!(ctx.sleep.token, None);
}

#[test]
fn unrealized_window_is_a_recoverable_refusal() {
    let mut ctx = UIContext::new(false);
    let before = ctx;
    let r = ctx.enter_fullscreen(false, 11, geometry(640, 480, 0, 0), true);
    assert_eq!(r, Err(EnterError::WindowNotReady));
    assert_eq!(ctx, before);
}

#[test]
fn tokens_stay_balanced_over_repeated_sessions() {
    let mut ctx = UIContext::new(true);
    for round in 0..4u64 {
        let token = 100 + round;
        ctx.enter_fullscreen(true, token, geometry(640, 480, 0, 0), true).unwrap();
        assert_eq!(ctx.sleep.token, Some(token));
        let actions = ctx.leave_fullscreen();
        assert_eq!(actions.release_token, Some(token));
        assert_eq!(ctx.sleep.token, None);
        // A second leave releases nothing.
        let again = ctx.leave_fullscreen();
        assert_eq!(again.release_token, None);
    }
}

#[test]
fn geometry_is_overwritten_each_session_and_cleared_on_exit() {
    let mut ctx = UIContext::new(true);
    let g1 = geometry(800, 600, 10, 10);
    ctx.enter_fullscreen(true, 1, g1, true).unwrap();
    assert_eq!(ctx.geometry.read(), Some(g1));
    let first = ctx.leave_fullscreen();
    assert_eq!(first.prior_geometry, Some(g1));
    assert_eq!(ctx.geometry.read(), None);

    let g2 = geometry(1024, 768, 0, 32);
    ctx.enter_fullscreen(true, 2, g2, true).unwrap();
    assert_eq!(ctx.geometry.read(), Some(g2));
    let second = ctx.leave_fullscreen();
    assert_eq!(second.prior_geometry, Some(g2));
}

#[test]
fn arming_is_refused_outside_a_supported_fullscreen_session() {
    // Windowed: no registration.
    let mut ctx = UIContext::new(true);
    assert!(!ctx.start_autohide_toolbar(1));
    assert_eq!(ctx.autohide.observer, None);

    // Fullscreen on a platform without motion events: no registration.
    let mut unsupported = UIContext::new(false);
    unsupported.enter_fullscreen(true, 1, geometry(640, 480, 0, 0), true).unwrap();
    assert!(!unsupported.start_autohide_toolbar(1));
    assert_eq!(unsupported.autohide.observer, None);

    // A second registration in one session is refused; the first stays.
    let mut ctx2 = UIContext::new(true);
    ctx2.enter_fullscreen(true, 1, geometry(640, 480, 0, 0), true).unwrap();
    assert!(ctx2.start_autohide_toolbar(21));
    assert!(!ctx2.start_autohide_toolbar(22));
    assert_eq!(ctx2.autohide.observer, Some(21));
}

#[test]
fn motion_without_observer_schedules_no_hide() {
    // Fullscreen but not armed (platform without motion events): a movement
    // delivered by other means changes nothing.
    let mut ctx = UIContext::new(false);
    ctx.enter_fullscreen(true, 1, geometry(640, 480, 0, 0), true).unwrap();
    let before = ctx;
    assert!(!ctx.on_pointer_motion());
    assert_eq!(ctx, before);
}
