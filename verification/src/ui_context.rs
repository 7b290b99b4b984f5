use vstd::prelude::*;

use crate::autohide::AutohideToolbar;
use crate::geometry::Geometry;
use crate::geometry::GeometryMemory;
use crate::session::UIEvent;
use crate::session::spec_step;
use crate::sleep::SleepInhibitor;

verus! {

/// Visual mode of the player window.
#[derive(Clone, Copy, PartialEq, Eq, Structural, Debug)]
pub enum Mode {
    Windowed,
    Fullscreen,
}

/// Why an attempt to enter fullscreen was abandoned. Either way the
/// controller is left exactly as it was, so the caller must undo the one
/// platform effect it performed before asking: releasing the freshly
/// acquired sleep-inhibition token.
#[derive(Clone, Copy, PartialEq, Eq, Structural, Debug)]
pub enum EnterError {
    /// The window has no realized native handle yet; entering fullscreen
    /// would have to touch it (to blank the cursor), so the attempt is
    /// refused as recoverable rather than failing fatally mid-way.
    WindowNotReady,
    /// The platform refused the fullscreen request.
    PlatformRefused,
}

/// Platform work the caller owes after `leave_fullscreen`: each field is
/// `Some` exactly when the corresponding teardown call must be made.
#[derive(Clone, Copy, PartialEq, Eq, Debug)]
pub struct LeaveActions {
    /// Token to hand back to the display-sleep-inhibition facility, if one
    /// was live.
    pub release_token: Option<u64>,
    /// Observer handle to deregister from the window, if one was armed.
    pub disconnect_observer: Option<u64>,
    /// The placement the window had when the session began, for the caller's
    /// restoration policy.
    pub prior_geometry: Option<Geometry>,
}

/// The fullscreen lifecycle controller of the single player window.
///
/// It owns the four pieces of state that entering and leaving fullscreen
/// must keep in step: the sleep-inhibition token, the pre-entry window
/// geometry, the pointer-motion observer that drives autohide, and the
/// toolbar / cursor / menu-bar visibility. The platform calls themselves
/// (inhibiting sleep, resizing, connecting signals, moving the cursor) are
/// made by the toolkit shell around this library; the shell reports their
/// outcomes to the controller and mirrors the controller's state back to the
/// toolkit after every call.
#[derive(Clone, Copy, PartialEq, Eq, Debug)]
pub struct UIContext {
    pub mode: Mode,
    pub sleep: SleepInhibitor,
    pub geometry: GeometryMemory,
    pub autohide: AutohideToolbar,
    pub toolbar_visible: bool,
    pub cursor_visible: bool,
    pub menu_bar_visible: bool,
}

impl UIContext {
    /// What every operation preserves:
    /// - while windowed, nothing of a session survives — no token, no
    ///   geometry snapshot, no observer — and toolbar, cursor and menu bar
    ///   are visible;
    /// - while fullscreen, the token is live and the entry geometry is held;
    /// - an observer is registered only during fullscreen, and only on a
    ///   platform family that supports motion-driven autohide.
    pub open spec fn wf(self) -> bool {
        &&& self.mode is Windowed ==> {
            &&& !self.sleep.is_live()
            &&& self.geometry.slot is None
            &&& !self.autohide.is_armed()
            &&& self.toolbar_visible
            &&& self.cursor_visible
            &&& self.menu_bar_visible
        }
        &&& self.mode is Fullscreen ==> self.sleep.is_live() && self.geometry.slot is Some
        &&& self.autohide.is_armed() ==> self.mode is Fullscreen && self.autohide.supported
    }

    /// A windowed controller with everything visible and no session state.
    /// `autohide_supported` is decided once at startup, from whether the
    /// platform family delivers pointer-motion events.
    pub fn new(autohide_supported: bool) -> (r: UIContext)
        ensures
            r.wf(),
            r.mode is Windowed,
            !r.sleep.is_live(),
            r.geometry.slot is None,
            !r.autohide.is_armed(),
            r.autohide.supported == autohide_supported,
            r.toolbar_visible,
            r.cursor_visible,
            r.menu_bar_visible,
    {
        UIContext {
            mode: Mode::Windowed,
            sleep: SleepInhibitor::new(),
            geometry: GeometryMemory::new(),
            autohide: AutohideToolbar::new(autohide_supported),
            toolbar_visible: true,
            cursor_visible: true,
            menu_bar_visible: true,
        }
    }

    /// True while the controller is in fullscreen mode. Callers guard
    /// re-entry with it: `enter_fullscreen` expects a windowed controller.
    pub fn is_fullscreen(&self) -> (r: bool)
        ensures
            r <==> self.mode is Fullscreen,
    {
        match self.mode {
            Mode::Fullscreen => true,
            Mode::Windowed => false,
        }
    }

    /// One attempt to enter fullscreen, given the outcomes of the platform
    /// calls it depends on: whether the window's native handle is realized,
    /// the sleep-inhibition token the platform handed back, the current
    /// window placement, and whether the platform granted the fullscreen
    /// request.
    ///
    /// On success the token and geometry are stored, toolbar, cursor and
    /// menu bar are hidden, and the mode flips to fullscreen; the caller
    /// then registers the pointer-motion observer where autohide is
    /// supported. On failure the attempt rolls back as a unit: the
    /// controller is unchanged — in particular no token is retained, so the
    /// caller must release the one it acquired.
    pub fn enter_fullscreen(
        &mut self,
        window_ready: bool,
        token: u64,
        current: Geometry,
        fullscreen_granted: bool,
    ) -> (r: Result<(), EnterError>)
        requires
            old(self).wf(),
            old(self).mode is Windowed,
        ensures
            final(self).wf(),
            r is Ok <==> window_ready && fullscreen_granted,
            !window_ready ==> r == Result::<(), EnterError>::Err(EnterError::WindowNotReady),
            window_ready && !fullscreen_granted ==> r == Result::<(), EnterError>::Err(
                EnterError::PlatformRefused,
            ),
            r is Err ==> *final(self) == *old(self),
            r is Ok ==> {
                &&& final(self).mode is Fullscreen
                &&& final(self).sleep.token == Some(token)
                &&& final(self).geometry.slot == Some(current)
                &&& !final(self).toolbar_visible
                &&& !final(self).cursor_visible
                &&& !final(self).menu_bar_visible
                &&& !final(self).autohide.is_armed()
                &&& final(self).autohide.supported == old(self).autohide.supported
            },
            *final(self) == spec_step(
                *old(self),
                (UIEvent::EnterFullscreen { window_ready, token, current, fullscreen_granted }),
            ),
    {
        if !window_ready {
            return Err(EnterError::WindowNotReady);
        }
        if !fullscreen_granted {
            return Err(EnterError::PlatformRefused);
        }
        self.sleep.store(token);
        self.geometry.snapshot(current);
        self.menu_bar_visible = false;
        self.toolbar_visible = false;
        self.mode = Mode::Fullscreen;
        self.cursor_visible = false;
        Ok(())
    }

    /// Leave fullscreen, from any state. The live token is handed out for
    /// release and forgotten, the observer handle is handed out for
    /// deregistration and forgotten, the entry geometry is handed out and
    /// cleared, and toolbar, cursor and menu bar become visible again.
    /// Called while already windowed it is a safe no-op: nothing is handed
    /// out and nothing changes.
    pub fn leave_fullscreen(&mut self) -> (r: LeaveActions)
        requires
            old(self).wf(),
        ensures
            final(self).wf(),
            final(self).mode is Windowed,
            !final(self).sleep.is_live(),
            final(self).geometry.slot is None,
            !final(self).autohide.is_armed(),
            final(self).toolbar_visible,
            final(self).cursor_visible,
            final(self).menu_bar_visible,
            final(self).autohide.supported == old(self).autohide.supported,
            r.release_token == old(self).sleep.token,
            r.disconnect_observer == old(self).autohide.observer,
            r.prior_geometry == old(self).geometry.slot,
            old(self).mode is Windowed ==> *final(self) == *old(self) && r.release_token is None
                && r.disconnect_observer is None,
            *final(self) == spec_step(*old(self), UIEvent::LeaveFullscreen),
    {
        let release_token = self.sleep.take();
        let disconnect_observer = self.autohide.disarm();
        let prior_geometry = self.geometry.read();
        self.geometry.clear();
        self.mode = Mode::Windowed;
        self.toolbar_visible = true;
        self.menu_bar_visible = true;
        self.cursor_visible = true;
        LeaveActions { release_token, disconnect_observer, prior_geometry }
    }

    /// Records the handle of the pointer-motion observer the caller just
    /// registered, arming autohide. Arming succeeds exactly when the window
    /// is fullscreen, the platform family supports motion autohide, and no
    /// observer is armed yet; when it returns false the controller is
    /// unchanged and the caller must deregister the handle it offered, so a
    /// second registration can never leak.
    pub fn start_autohide_toolbar(&mut self, observer: u64) -> (armed: bool)
        requires
            old(self).wf(),
        ensures
            final(self).wf(),
            armed <==> (old(self).mode is Fullscreen && old(self).autohide.supported
                && !old(self).autohide.is_armed()),
            armed ==> {
                &&& final(self).autohide.observer == Some(observer)
                &&& final(self).mode == old(self).mode
                &&& final(self).sleep == old(self).sleep
                &&& final(self).geometry == old(self).geometry
                &&& final(self).autohide.supported == old(self).autohide.supported
                &&& final(self).toolbar_visible == old(self).toolbar_visible
                &&& final(self).cursor_visible == old(self).cursor_visible
                &&& final(self).menu_bar_visible == old(self).menu_bar_visible
            },
            !armed ==> *final(self) == *old(self),
            *final(self) == spec_step(*old(self), (UIEvent::ArmAutohide { observer })),
    {
        let fullscreen = self.is_fullscreen();
        if fullscreen && self.autohide.supported && self.autohide.observer.is_none() {
            self.autohide.arm(observer);
            true
        } else {
            false
        }
    }

    /// The pointer-motion observer's body. While an observer is armed —
    /// hence only during fullscreen — a movement reveals the toolbar and the
    /// cursor at once, and the caller must schedule the delayed hide
    /// callback, `AUTOHIDE_DELAY_SECONDS` from now, exactly when this
    /// returns true. While windowed no observer is armed, so a movement
    /// changes nothing.
    pub fn on_pointer_motion(&mut self) -> (schedule_hide: bool)
        requires
            old(self).wf(),
        ensures
            final(self).wf(),
            schedule_hide <==> old(self).autohide.is_armed(),
            schedule_hide ==> {
                &&& final(self).toolbar_visible
                &&& final(self).cursor_visible
                &&& final(self).mode == old(self).mode
                &&& final(self).sleep == old(self).sleep
                &&& final(self).geometry == old(self).geometry
                &&& final(self).autohide == old(self).autohide
                &&& final(self).menu_bar_visible == old(self).menu_bar_visible
            },
            !schedule_hide ==> *final(self) == *old(self),
            old(self).mode is Windowed ==> *final(self) == *old(self),
            *final(self) == spec_step(*old(self), UIEvent::PointerMotion),
    {
        if self.autohide.observer.is_some() {
            self.toolbar_visible = true;
            self.cursor_visible = true;
            true
        } else {
            false
        }
    }

    /// The delayed hide callback's body. Scheduled once per pointer
    /// movement and never cancelled, it re-checks the mode when it fires:
    /// still fullscreen, it hides the toolbar and cursor again; gone
    /// windowed in the meantime, it changes nothing, so a stale callback is
    /// harmless.
    pub fn on_hide_timeout(&mut self)
        requires
            old(self).wf(),
        ensures
            final(self).wf(),
            old(self).mode is Fullscreen ==> {
                &&& !final(self).toolbar_visible
                &&& !final(self).cursor_visible
                &&& final(self).mode == old(self).mode
                &&& final(self).sleep == old(self).sleep
                &&& final(self).geometry == old(self).geometry
                &&& final(self).autohide == old(self).autohide
                &&& final(self).menu_bar_visible == old(self).menu_bar_visible
            },
            old(self).mode is Windowed ==> *final(self) == *old(self),
            *final(self) == spec_step(*old(self), UIEvent::HideTimeout),
    {
        match self.mode {
            Mode::Fullscreen => {
                self.toolbar_visible = false;
                self.cursor_visible = false;
            },
            Mode::Windowed => {},
        }
    }
}

} // verus!
