//! The virtual-table proxy: locating the Nth logical method of an opaque
//! foreign object and reading the function address stored in that slot.
//!
//! A foreign object's virtual table is a contiguous array of function
//! addresses.  A [`SlotDescriptor`] names where one logical method lives:
//! its logical index among the methods a caller sees, plus a cumulative
//! skip count absorbing ABI-only entries (destructors and the like) that
//! occupy slots but are never exposed.  The proxy performs the index and
//! byte-offset arithmetic and selects the address to invoke; no bounds or
//! shape checking against the real foreign table is possible, so a
//! descriptor that does not match the target binary is excluded by
//! contract rather than detected at run time.

use vstd::prelude::*;

verus! {

/// The size in bytes of one virtual-table slot (one function address).
pub const POINTER_SIZE: usize = 8;

/// The calling convention a slot's function must be invoked under.
/// Recorded configuration data; the proxy's arithmetic does not depend
/// on it.
#[derive(Clone, Copy, Debug, PartialEq, Eq, Structural)]
pub enum CallingConvention {
    /// Plain C convention.
    C,
    /// The platform's default convention for foreign system calls.
    System,
    /// The receiver is passed as the implicit first argument in a
    /// register, as C++ instance methods expect on some targets.
    ThisCall,
    /// First arguments in registers.
    FastCall,
}

/// Where one logical method lives inside a virtual table, for one target
/// binary version: fixed configuration data, not computed at run time.
#[derive(Clone, Copy, Debug, PartialEq, Eq, Structural)]
pub struct SlotDescriptor {
    /// Index of the method among the methods a caller can see.
    pub index: usize,
    /// Cumulative count of ABI-only slots that precede this method but
    /// are invisible to callers.
    pub skip: usize,
    /// Convention the invocation must use.
    pub convention: CallingConvention,
}

impl SlotDescriptor {
    /// The slot actually occupied within the table.
    pub open spec fn spec_effective(self) -> int {
        self.index + self.skip
    }

    /// Computes the effective slot index: the logical index corrected by
    /// the cumulative skip count.
    pub fn effective(&self) -> (r: usize)
        requires
            self.index + self.skip <= usize::MAX,
        ensures
            r == self.spec_effective(),
    {
        self.index + self.skip
    }

    /// Computes the byte offset of this method's slot from the table
    /// base: effective index times the size of one slot.
    pub fn byte_offset(&self) -> (r: usize)
        requires
            self.spec_effective() * POINTER_SIZE <= usize::MAX,
        ensures
            r == self.spec_effective() * POINTER_SIZE,
    {
        self.index * POINTER_SIZE + self.skip * POINTER_SIZE
    }
}

/// A non-owning reference to a live foreign object's virtual table
/// header: the header's raw address, plus the byte offset of the vtable
/// field within the object when that field does not sit first.  The
/// object stays valid only while the host keeps it alive; nothing here
/// tracks that.  All slot-address arithmetic lives in this one place, so
/// the unverified rim that performs the actual indirect read and call —
/// with the proxied object as the implicit first argument — computes no
/// offsets of its own.
#[derive(Clone, Copy, Debug, PartialEq, Eq, Structural)]
pub struct VTablePointer {
    /// Raw address of the table header.
    pub address: u64,
    /// Byte offset of the vtable field within the foreign object.
    pub object_offset: usize,
}

impl VTablePointer {
    /// A pointer to a table header sitting first in its object.
    pub fn new(address: u64) -> (r: Self)
        ensures
            r.address == address,
            r.object_offset == 0,
    {
        VTablePointer { address, object_offset: 0 }
    }

    /// Address of the slot a descriptor names: the header base plus
    /// `effective * POINTER_SIZE` bytes.
    pub fn slot_address(&self, d: &SlotDescriptor) -> (r: u64)
        requires
            d.index + d.skip <= usize::MAX,
            self.address + d.spec_effective() * POINTER_SIZE <= u64::MAX,
        ensures
            r == self.address + d.spec_effective() * POINTER_SIZE,
    {
        let eff = d.effective();
        self.address + (eff as u64) * (POINTER_SIZE as u64)
    }
}

/// A virtual table as the binding layer sees it: the sequence of function
/// addresses its slots hold.  A synthetic table built in a test stands in
/// for the header of a live foreign object, whose lifetime is owned by
/// the host and never tracked here.
#[derive(Clone, Debug)]
pub struct VirtualTable {
    /// The address stored in each slot, lowest slot first.
    pub slots: Vec<u64>,
}

impl VirtualTable {
    /// The address a reader finds `off` bytes past the table base.
    /// Meaningful for offsets that land on a slot boundary.
    pub open spec fn spec_at_byte(self, off: int) -> u64 {
        self.slots@[off / (POINTER_SIZE as int)]
    }

    /// True when `d` names a slot this table actually has.
    pub open spec fn spec_in_bounds(self, d: SlotDescriptor) -> bool {
        d.spec_effective() < self.slots@.len()
    }

    /// Builds a table from its slot contents.
    pub fn new(slots: Vec<u64>) -> (r: Self)
        ensures
            r.slots@ == slots@,
    {
        VirtualTable { slots }
    }

    /// Number of slots the table holds.
    pub fn len(&self) -> (r: usize)
        ensures
            r == self.slots@.len(),
    {
        self.slots.len()
    }

    /// Selects the function address the descriptor's method occupies:
    /// the address stored `effective * POINTER_SIZE` bytes past the
    /// table base.  Using a descriptor that does not match the target
    /// binary is undefined by contract, so the descriptor is required to
    /// name a slot the table has.
    pub fn dispatch_address(&self, d: &SlotDescriptor) -> (r: u64)
        requires
            self.spec_in_bounds(*d),
        ensures
            r == self.slots@[d.spec_effective()],
            r == self.spec_at_byte(d.spec_effective() * POINTER_SIZE),
    {
        proof {
            lemma_slot_byte_offset(*self, *d);
            assert(self.slots.len() == self.slots@.len());
        }
        let eff = d.effective();
        self.slots[eff]
    }
}

/// The address dispatched for a descriptor is exactly the one stored at
/// byte offset `effective * POINTER_SIZE` from the table base.
pub proof fn lemma_slot_byte_offset(vt: VirtualTable, d: SlotDescriptor)
    requires
        vt.spec_in_bounds(d),
    ensures
        vt.spec_at_byte(d.spec_effective() * POINTER_SIZE) == vt.slots@[d.spec_effective()],
{
    assert(d.spec_effective() * (POINTER_SIZE as int) / (POINTER_SIZE as int)
        == d.spec_effective()) by (nonlinear_arith);
}

} // verus!
