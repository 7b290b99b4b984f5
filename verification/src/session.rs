use vstd::prelude::*;

use crate::autohide::AutohideToolbar;
use crate::geometry::Geometry;
use crate::geometry::GeometryMemory;
use crate::sleep::SleepInhibitor;
use crate::ui_context::Mode;
use crate::ui_context::UIContext;

verus! {

/// One occurrence in the life of the window, as the controller sees it.
/// `spec_step` gives each event's meaning, and every controller operation
/// promises that it takes the state exactly one such step; the proofs below
/// therefore hold of whole runs of the executable controller.
pub enum UIEvent {
    /// An attempt to enter fullscreen, carrying the outcomes of the platform
    /// calls the attempt depends on.
    EnterFullscreen { window_ready: bool, token: u64, current: Geometry, fullscreen_granted: bool },
    /// A request to leave fullscreen.
    LeaveFullscreen,
    /// Registration of the pointer-motion observer under the given handle.
    ArmAutohide { observer: u64 },
    /// A pointer movement delivered to the observer.
    PointerMotion,
    /// A delayed hide callback firing.
    HideTimeout,
}

/// The state a committed entry leaves the controller in: token and geometry
/// stored, everything hidden, observer not yet armed.
pub open spec fn spec_enter(s: UIContext, token: u64, current: Geometry) -> UIContext {
    UIContext {
        mode: Mode::Fullscreen,
        sleep: SleepInhibitor { token: Some(token) },
        geometry: GeometryMemory { slot: Some(current) },
        autohide: AutohideToolbar { supported: s.autohide.supported, observer: None },
        toolbar_visible: false,
        cursor_visible: false,
        menu_bar_visible: false,
    }
}

/// The windowed state leaving fullscreen returns to: no session state left,
/// everything visible.
pub open spec fn spec_leave(s: UIContext) -> UIContext {
    UIContext {
        mode: Mode::Windowed,
        sleep: SleepInhibitor { token: None },
        geometry: GeometryMemory { slot: None },
        autohide: AutohideToolbar { supported: s.autohide.supported, observer: None },
        toolbar_visible: true,
        cursor_visible: true,
        menu_bar_visible: true,
    }
}

/// The controller state after one event. An entry commits only from a
/// windowed state whose window is ready and whose fullscreen request was
/// granted — otherwise it rolls back to `s` unchanged. Arming requires
/// fullscreen, platform support and a free observer slot. A movement acts
/// only while armed; a hide callback acts only while still fullscreen.
pub open spec fn spec_step(s: UIContext, e: UIEvent) -> UIContext {
    match e {
        UIEvent::EnterFullscreen { window_ready, token, current, fullscreen_granted } => {
            if s.mode is Windowed && window_ready && fullscreen_granted {
                spec_enter(s, token, current)
            } else {
                s
            }
        },
        UIEvent::LeaveFullscreen => spec_leave(s),
        UIEvent::ArmAutohide { observer } => {
            if s.mode is Fullscreen && s.autohide.supported && !s.autohide.is_armed() {
                UIContext {
                    mode: s.mode,
                    sleep: s.sleep,
                    geometry: s.geometry,
                    autohide: AutohideToolbar {
                        supported: s.autohide.supported,
                        observer: Some(observer),
                    },
                    toolbar_visible: s.toolbar_visible,
                    cursor_visible: s.cursor_visible,
                    menu_bar_visible: s.menu_bar_visible,
                }
            } else {
                s
            }
        },
        UIEvent::PointerMotion => {
            if s.autohide.is_armed() {
                UIContext {
                    mode: s.mode,
                    sleep: s.sleep,
                    geometry: s.geometry,
                    autohide: s.autohide,
                    toolbar_visible: true,
                    cursor_visible: true,
                    menu_bar_visible: s.menu_bar_visible,
                }
            } else {
                s
            }
        },
        UIEvent::HideTimeout => {
            if s.mode is Fullscreen {
                UIContext {
                    mode: s.mode,
                    sleep: s.sleep,
                    geometry: s.geometry,
                    autohide: s.autohide,
                    toolbar_visible: false,
                    cursor_visible: false,
                    menu_bar_visible: s.menu_bar_visible,
                }
            } else {
                s
            }
        },
    }
}

/// The controller state after a whole run of events.
pub open spec fn spec_run(s: UIContext, events: Seq<UIEvent>) -> UIContext
    decreases events.len(),
{
    if events.len() == 0 {
        s
    } else {
        spec_run(spec_step(s, events[0]), events.drop_first())
    }
}

/// True when `e` makes the controller acquire a sleep-inhibition token
/// from state `s`: an entry that commits.
pub open spec fn enter_commits(s: UIContext, e: UIEvent) -> bool {
    &&& e matches UIEvent::EnterFullscreen { window_ready, fullscreen_granted, .. }
    &&& s.mode is Windowed
    &&& window_ready
    &&& fullscreen_granted
}

/// True when `e` makes the controller release the live token from state `s`.
pub open spec fn leave_releases(s: UIContext, e: UIEvent) -> bool {
    e is LeaveFullscreen && s.sleep.is_live()
}

/// How many events of the run acquire a sleep-inhibition token.
pub open spec fn spec_acquires(s: UIContext, events: Seq<UIEvent>) -> nat
    decreases events.len(),
{
    if events.len() == 0 {
        0
    } else {
        (if enter_commits(s, events[0]) {
            1nat
        } else {
            0nat
        }) + spec_acquires(spec_step(s, events[0]), events.drop_first())
    }
}

/// How many events of the run release a sleep-inhibition token.
pub open spec fn spec_releases(s: UIContext, events: Seq<UIEvent>) -> nat
    decreases events.len(),
{
    if events.len() == 0 {
        0
    } else {
        (if leave_releases(s, events[0]) {
            1nat
        } else {
            0nat
        }) + spec_releases(spec_step(s, events[0]), events.drop_first())
    }
}

/// Every event preserves the controller's well-formedness.
pub proof fn lemma_step_preserves_wf(s: UIContext, e: UIEvent)
    requires
        s.wf(),
    ensures
        spec_step(s, e).wf(),
{
}

/// Every run of events preserves the controller's well-formedness.
pub proof fn lemma_run_preserves_wf(s: UIContext, events: Seq<UIEvent>)
    requires
        s.wf(),
    ensures
        spec_run(s, events).wf(),
    decreases events.len(),
{
    if events.len() > 0 {
        lemma_step_preserves_wf(s, events[0]);
        lemma_run_preserves_wf(spec_step(s, events[0]), events.drop_first());
    }
}

/// Across any run of events from a well-formed state, sleep-inhibition stays
/// balanced: each committed entry acquires one token and each leave from a
/// live state releases one, the books always even out against the one token
/// that may be outstanding at either end — so at most one token is ever
/// live, releases never outnumber acquisitions, and at the end of the run
/// the token is live exactly while the window is fullscreen, that is,
/// exactly after a committed entry that no leave has yet matched.
pub proof fn lemma_token_balance(s: UIContext, events: Seq<UIEvent>)
    requires
        s.wf(),
    ensures
        spec_run(s, events).wf(),
        spec_run(s, events).sleep.is_live() <==> spec_run(s, events).mode is Fullscreen,
        spec_acquires(s, events) + (if s.sleep.is_live() {
            1int
        } else {
            0int
        }) == spec_releases(s, events) + (if spec_run(s, events).sleep.is_live() {
            1int
        } else {
            0int
        }),
        spec_releases(s, events) <= spec_acquires(s, events) + (if s.sleep.is_live() {
            1int
        } else {
            0int
        }),
    decreases events.len(),
{
    lemma_run_preserves_wf(s, events);
    if events.len() > 0 {
        lemma_step_preserves_wf(s, events[0]);
        lemma_token_balance(spec_step(s, events[0]), events.drop_first());
    }
}

/// Leaving fullscreen always restores the toolbar, the cursor and the menu
/// bar to visible — in particular right after an entry, no matter how many
/// pointer movements, delayed hide callbacks or observer registrations came
/// in between.
pub proof fn lemma_leave_restores_visibility(s: UIContext, events: Seq<UIEvent>)
    requires
        s.wf(),
    ensures
        spec_step(spec_run(s, events), UIEvent::LeaveFullscreen).toolbar_visible,
        spec_step(spec_run(s, events), UIEvent::LeaveFullscreen).cursor_visible,
        spec_step(spec_run(s, events), UIEvent::LeaveFullscreen).menu_bar_visible,
{
    lemma_run_preserves_wf(s, events);
}

/// A pointer movement while an observer is armed — hence while fullscreen —
/// reveals the toolbar and the cursor at once; a delayed hide callback that
/// then fires with the window still fullscreen hides them both again.
pub proof fn lemma_motion_then_timeout(s: UIContext)
    requires
        s.wf(),
        s.autohide.is_armed(),
    ensures
        spec_step(s, UIEvent::PointerMotion).mode is Fullscreen,
        spec_step(s, UIEvent::PointerMotion).toolbar_visible,
        spec_step(s, UIEvent::PointerMotion).cursor_visible,
        !spec_step(spec_step(s, UIEvent::PointerMotion), UIEvent::HideTimeout).toolbar_visible,
        !spec_step(spec_step(s, UIEvent::PointerMotion), UIEvent::HideTimeout).cursor_visible,
{
}

/// A pointer movement while the window is windowed changes nothing: no
/// observer is registered there.
pub proof fn lemma_motion_windowed_no_effect(s: UIContext)
    requires
        s.wf(),
        s.mode is Windowed,
    ensures
        spec_step(s, UIEvent::PointerMotion) == s,
{
}

/// A delayed hide callback that fires after the window went windowed
/// changes nothing: it never hides anything outside fullscreen.
pub proof fn lemma_stale_timeout_no_effect(s: UIContext)
    requires
        s.mode is Windowed,
    ensures
        spec_step(s, UIEvent::HideTimeout) == s,
{
}

/// Leaving fullscreen while already windowed is a no-op on the state.
pub proof fn lemma_leave_windowed_no_op(s: UIContext)
    requires
        s.wf(),
        s.mode is Windowed,
    ensures
        spec_step(s, UIEvent::LeaveFullscreen) == s,
{
}

} // verus!
