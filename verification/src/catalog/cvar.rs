//! The console-variable engine interface: a dispatch proxy for one
//! target binary revision, the layout of the console-command base
//! structure, and an earlier revision's slot table.

#![allow(non_snake_case)]

use vstd::prelude::*;

use crate::vtable::{CallingConvention, SlotDescriptor, VirtualTable};

verus! {

/// Field layout of the engine's console-command base structure, with
/// foreign pointers held as plain addresses.
#[derive(Clone, Copy, Debug)]
pub struct ConCommandBase {
    /// Address of the structure's own virtual table.
    pub base_vtable: u64,
    /// Address of the next registered command, forming a linked list.
    pub next: u64,
    /// Whether the command is registered with the engine.
    pub registered: bool,
    /// Address of the command's name.
    pub name: u64,
    /// Address of the command's help text.
    pub help_string: u64,
    /// The command's flag bits.
    pub flags: i32,
}

/// Field layout of a console variable: the command base followed by
/// the variable's own data.
#[derive(Clone, Copy, Debug)]
pub struct CVar {
    /// The embedded command base.
    pub base: ConCommandBase,
    /// Address of the parent variable.
    pub parent: u64,
    /// Address of the default value's text.
    pub default_value: u64,
}

/// The console-variable engine interface, acquired by version string
/// through the factory protocol.
pub struct ICVar {
    /// The interface object's virtual table.
    pub vtable: VirtualTable,
}

impl ICVar {
    /// The table reaches every slot the revision's methods occupy.
    pub open spec fn wf(self) -> bool {
        self.vtable.slots@.len() > 11
    }

    /// Wraps a console-variable interface object's virtual table.
    pub fn from_vtable(vtable: VirtualTable) -> (r: Self)
        requires
            vtable.slots@.len() > 11,
        ensures
            r.wf(),
            r.vtable.slots@ == vtable.slots@,
    {
        ICVar { vtable }
    }

    /// Registers a console command with the engine.
    pub fn RegisterConCommand(&self) -> (r: u64)
        requires
            self.wf(),
        ensures
            r == self.vtable.slots@[1],
    {
        let d = SlotDescriptor { index: 0, skip: 1, convention: CallingConvention::C };
        self.vtable.dispatch_address(&d)
    }

    /// Unregisters a console command.
    pub fn UnregisterConCommand(&self) -> (r: u64)
        requires
            self.wf(),
        ensures
            r == self.vtable.slots@[2],
    {
        let d = SlotDescriptor { index: 1, skip: 1, convention: CallingConvention::C };
        self.vtable.dispatch_address(&d)
    }

    /// Head of the linked list of registered commands.
    pub fn GetCommands(&self) -> (r: u64)
        requires
            self.wf(),
        ensures
            r == self.vtable.slots@[11],
    {
        let d = SlotDescriptor { index: 2, skip: 9, convention: CallingConvention::C };
        self.vtable.dispatch_address(&d)
    }
}

/// Slot table of the console-variable interface as an earlier target
/// binary revision laid it out: kept as configuration data.
pub struct ConVar {
    /// Slot of the command registration method.
    pub RegisterConCommand: SlotDescriptor,
    /// Slot of the command unregistration method.
    pub UnregisterConCommand: SlotDescriptor,
    /// Slot of the variable lookup method.
    pub FindVar: SlotDescriptor,
    /// Slot of the command list accessor.
    pub GetCommands: SlotDescriptor,
}

impl ConVar {
    /// The documented slot numbers of this revision.
    pub open spec fn wf(self) -> bool {
        &&& self.RegisterConCommand.spec_effective() == 0
        &&& self.UnregisterConCommand.spec_effective() == 1
        &&& self.FindVar.spec_effective() == 7
        &&& self.GetCommands.spec_effective() == 11
    }

    /// The revision's slot table.
    pub fn layout() -> (r: Self)
        ensures
            r.wf(),
    {
        ConVar {
            RegisterConCommand: SlotDescriptor {
                index: 0,
                skip: 0,
                convention: CallingConvention::C,
            },
            UnregisterConCommand: SlotDescriptor {
                index: 1,
                skip: 0,
                convention: CallingConvention::C,
            },
            FindVar: SlotDescriptor { index: 2, skip: 5, convention: CallingConvention::C },
            GetCommands: SlotDescriptor { index: 3, skip: 8, convention: CallingConvention::C },
        }
    }
}

} // verus!
