//! A pixel buffer's cached properties and its base-address lock discipline.
//!
//! The pixel data itself belongs to the foreign buffer and is out of scope;
//! what the logic reads — planarity, plane count, and whether the base
//! address is currently locked — is held here as plain values, so the
//! balanced lock/unlock discipline is checkable.

use vstd::prelude::*;

verus! {

/// The cached properties of one pixel buffer.
pub struct CVPixelBuffer {
    is_planar: bool,
    plane_count: u64,
    locked: bool,
}

impl CVPixelBuffer {
    /// Whether the buffer stores its planes separately.
    pub closed spec fn spec_is_planar(self) -> bool {
        self.is_planar
    }

    /// How many planes the buffer has.
    pub closed spec fn spec_plane_count(self) -> u64 {
        self.plane_count
    }

    /// Whether the base address is currently locked.
    pub closed spec fn spec_locked(self) -> bool {
        self.locked
    }

    /// A pixel buffer with the given cached properties, not locked.
    pub fn new(is_planar: bool, plane_count: u64) -> (r: CVPixelBuffer)
        ensures
            r.spec_is_planar() == is_planar,
            r.spec_plane_count() == plane_count,
            !r.spec_locked(),
    {
        CVPixelBuffer { is_planar, plane_count, locked: false }
    }

    /// Whether the buffer stores its planes separately.
    pub fn is_planar(&self) -> (r: bool)
        ensures
            r == self.spec_is_planar(),
    {
        self.is_planar
    }

    /// How many planes the buffer has.
    pub fn plane_count(&self) -> (r: u64)
        ensures
            r == self.spec_plane_count(),
    {
        self.plane_count
    }

    /// Locks the base address. Succeeds exactly when the buffer was not
    /// already locked; the buffer is locked afterwards either way.
    pub fn lock(&mut self) -> (ok: bool)
        ensures
            final(self).spec_locked(),
            ok == !old(self).spec_locked(),
            final(self).spec_is_planar() == old(self).spec_is_planar(),
            final(self).spec_plane_count() == old(self).spec_plane_count(),
    {
        let was_locked: bool = self.locked;
        self.locked = true;
        !was_locked
    }

    /// Unlocks the base address. Succeeds exactly when the buffer was
    /// locked; the buffer is unlocked afterwards either way.
    pub fn unlock(&mut self) -> (ok: bool)
        ensures
            !final(self).spec_locked(),
            ok == old(self).spec_locked(),
            final(self).spec_is_planar() == old(self).spec_is_planar(),
            final(self).spec_plane_count() == old(self).spec_plane_count(),
    {
        let was_locked: bool = self.locked;
        self.locked = false;
        was_locked
    }
}

} // verus!
