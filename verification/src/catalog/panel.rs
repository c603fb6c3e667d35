//! The panel (surface UI) interface: its slot table as configuration
//! data for one target binary revision.

#![allow(non_snake_case)]

use vstd::prelude::*;

use crate::vtable::{CallingConvention, SlotDescriptor};

verus! {

/// Slot table of the panel interface.  Only the two slots the binding
/// layer ever dispatches are catalogued.
pub struct Panel {
    /// Slot of the panel-name accessor.
    pub GetName: SlotDescriptor,
    /// Slot of the paint-traverse method, the usual detour point for
    /// running module code on the UI thread.
    pub PaintTraverse: SlotDescriptor,
}

impl Panel {
    /// The documented slot numbers of this revision.
    pub open spec fn wf(self) -> bool {
        &&& self.GetName.spec_effective() == 36
        &&& self.PaintTraverse.spec_effective() == 41
    }

    /// The revision's slot table.
    pub fn layout() -> (r: Self)
        ensures
            r.wf(),
    {
        Panel {
            GetName: SlotDescriptor { index: 0, skip: 36, convention: CallingConvention::C },
            PaintTraverse: SlotDescriptor { index: 1, skip: 40, convention: CallingConvention::C },
        }
    }
}

} // verus!
