//! Save-state persistence contract.
//!
//! A save state is a handle onto a fixed-size hardware memory region holding
//! persistent core state, with a dirty flag that is set when the hardware
//! state diverges from the last-synced bytes. Serialization hands the caller
//! the full region image; deserialization replaces the region all-or-nothing
//! and fails with `SizeMismatch` when the source does not match the region's
//! declared size exactly — the region is then left untouched.

use vstd::prelude::*;
use vstd::pervasive::VecAdditionalExecFns;

use crate::errors::SaveStateError;

verus! {

/// A fixed-size persistent memory region of one save-state slot.
#[derive(Debug)]
pub struct SaveState {
    /// The region's bytes.
    pub region: Vec<u8>,
    /// Whether hardware state has changed since last persisted.
    pub dirty: bool,
}

impl SaveState {
    /// A fresh, clean region of the given size, zero-filled.
    pub fn new(size: usize) -> (r: SaveState)
        ensures
            r.region@ == Seq::new(size as nat, |i: int| 0u8),
            !r.dirty,
    {
        let mut region: Vec<u8> = Vec::new();
        let mut i: usize = 0;
        while i < size
            invariant
                i <= size,
                region@ == Seq::new(i as nat, |j: int| 0u8),
            decreases size - i,
        {
            region.push(0);
            proof {
                assert(region@ =~= Seq::new((i + 1) as nat, |j: int| 0u8));
            }
            i = i + 1;
        }
        SaveState { region, dirty: false }
    }

    /// The region's declared size in bytes.
    pub fn size(&self) -> (r: usize)
        ensures
            r == self.region@.len(),
    {
        self.region.len()
    }

    /// Whether hardware state has changed since last persisted.
    pub fn is_dirty(&self) -> (r: bool)
        ensures
            r == self.dirty,
    {
        self.dirty
    }

    /// The full region image to hand to an external byte sink,
    /// all-or-nothing. The caller reports a completed sync through
    /// [`SaveState::mark_synced`].
    pub fn write_to(&self) -> (r: Vec<u8>)
        ensures
            r@ == self.region@,
    {
        let mut out: Vec<u8> = Vec::new();
        let mut i: usize = 0;
        while i < self.region.len()
            invariant
                i <= self.region@.len(),
                out@ == self.region@.subrange(0, i as int),
            decreases self.region@.len() - i,
        {
            out.push(self.region[i]);
            proof {
                assert(out@ =~= self.region@.subrange(0, i + 1));
            }
            i = i + 1;
        }
        proof {
            assert(out@ =~= self.region@);
        }
        out
    }

    /// Record that the region image was delivered to the sink in full: the
    /// hardware state and the backing bytes agree again.
    pub fn mark_synced(&mut self)
        ensures
            *final(self) == (SaveState { dirty: false, ..*old(self) }),
    {
        self.dirty = false;
    }

    /// Replace the region from an external byte source, all-or-nothing.
    /// Succeeds exactly when the source matches the region's size; on any
    /// failure the region and the dirty flag are untouched.
    pub fn read_from(&mut self, source: &[u8]) -> (r: Result<(), SaveStateError>)
        ensures
            r is Ok <==> source@.len() == old(self).region@.len(),
            r is Ok ==> final(self).region@ == source@ && !final(self).dirty,
            r is Err ==> r == Err::<(), SaveStateError>(SaveStateError::SizeMismatch)
                && *final(self) == *old(self),
    {
        if source.len() != self.region.len() {
            return Err(SaveStateError::SizeMismatch);
        }
        self.region = vstd::slice::slice_to_vec(source);
        self.dirty = false;
        Ok(())
    }

    /// One byte of the region, as the hardware reads it.
    pub fn read_byte(&self, i: usize) -> (r: u8)
        requires
            i < self.region@.len(),
        ensures
            r == self.region@[i as int],
    {
        self.region[i]
    }

    /// The hardware mutates one byte of its region: the state now diverges
    /// from the last-synced bytes.
    pub fn write_byte(&mut self, i: usize, value: u8)
        requires
            i < old(self).region@.len(),
        ensures
            final(self).region@ == old(self).region@.update(i as int, value),
            final(self).dirty,
    {
        self.region.set(i, value);
        self.dirty = true;
    }
}

} // verus!
