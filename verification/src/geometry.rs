use vstd::prelude::*;

verus! {

/// Window size and position as the platform reports them immediately before
/// the window goes fullscreen.
#[derive(Clone, Copy, PartialEq, Eq, Debug)]
pub struct Geometry {
    pub width: i32,
    pub height: i32,
    pub x: i32,
    pub y: i32,
}

/// Remembers the placement the window had when a fullscreen session began,
/// so that it is available to the exit-time restoration policy. The slot is
/// overwritten on every entry and cleared on exit: a snapshot never outlives
/// its session.
#[derive(Clone, Copy, PartialEq, Eq, Debug)]
pub struct GeometryMemory {
    pub slot: Option<Geometry>,
}

impl GeometryMemory {
    /// An empty memory: no fullscreen session is active.
    pub fn new() -> (r: GeometryMemory)
        ensures
            r.slot is None,
    {
        GeometryMemory { slot: None }
    }

    /// Records the placement the window had at entry, replacing any earlier
    /// snapshot.
    pub fn snapshot(&mut self, current: Geometry)
        ensures
            final(self).slot == Some(current),
    {
        self.slot = Some(current);
    }

    /// The placement captured when the current session began, if one is
    /// active.
    pub fn read(&self) -> (r: Option<Geometry>)
        ensures
            r == self.slot,
    {
        self.slot
    }

    /// Forgets the snapshot when the session ends.
    pub fn clear(&mut self)
        ensures
            final(self).slot is None,
    {
        self.slot = None;
    }
}

} // verus!
