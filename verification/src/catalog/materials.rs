//! The material system interfaces: dispatch proxies for one target
//! binary revision, and the slot tables of an earlier revision kept as
//! configuration data.

#![allow(non_snake_case)]

use vstd::prelude::*;

use crate::vtable::{CallingConvention, SlotDescriptor, VirtualTable};

verus! {

/// A single material, reached through other interface methods rather
/// than a factory.  The proxy holds the object's virtual table and
/// selects, per method, the function address the host would invoke.
pub struct IMaterial {
    /// The material object's virtual table.
    pub vtable: VirtualTable,
}

impl IMaterial {
    /// The table reaches every slot the revision's methods occupy.
    pub open spec fn wf(self) -> bool {
        self.vtable.slots@.len() > 42
    }

    /// Wraps a material object's virtual table.
    pub fn from_vtable(vtable: VirtualTable) -> (r: Self)
        requires
            vtable.slots@.len() > 42,
        ensures
            r.wf(),
            r.vtable.slots@ == vtable.slots@,
    {
        IMaterial { vtable }
    }

    /// The material's name.
    pub fn GetName(&self) -> (r: u64)
        requires
            self.wf(),
        ensures
            r == self.vtable.slots@[0],
    {
        let d = SlotDescriptor { index: 0, skip: 0, convention: CallingConvention::C };
        self.vtable.dispatch_address(&d)
    }

    /// The texture group the material was created under.
    pub fn GetTextureGroupName(&self) -> (r: u64)
        requires
            self.wf(),
        ensures
            r == self.vtable.slots@[1],
    {
        let d = SlotDescriptor { index: 1, skip: 0, convention: CallingConvention::C };
        self.vtable.dispatch_address(&d)
    }

    /// Whether the material is translucent.
    pub fn IsTranslucent(&self) -> (r: u64)
        requires
            self.wf(),
        ensures
            r == self.vtable.slots@[17],
    {
        let d = SlotDescriptor { index: 2, skip: 15, convention: CallingConvention::C };
        self.vtable.dispatch_address(&d)
    }

    /// Whether the material is alpha-tested.
    pub fn IsAlphaTested(&self) -> (r: u64)
        requires
            self.wf(),
        ensures
            r == self.vtable.slots@[18],
    {
        let d = SlotDescriptor { index: 3, skip: 15, convention: CallingConvention::C };
        self.vtable.dispatch_address(&d)
    }

    /// Whether the material is vertex-lit.
    pub fn IsVertexLit(&self) -> (r: u64)
        requires
            self.wf(),
        ensures
            r == self.vtable.slots@[19],
    {
        let d = SlotDescriptor { index: 4, skip: 15, convention: CallingConvention::C };
        self.vtable.dispatch_address(&d)
    }

    /// The material's reflectivity, written to an out-parameter.
    pub fn GetReflectivity(&self) -> (r: u64)
        requires
            self.wf(),
        ensures
            r == self.vtable.slots@[31],
    {
        let d = SlotDescriptor { index: 5, skip: 26, convention: CallingConvention::C };
        self.vtable.dispatch_address(&d)
    }

    /// Replaces the material's shader.
    pub fn SetShader(&self) -> (r: u64)
        requires
            self.wf(),
        ensures
            r == self.vtable.slots@[34],
    {
        let d = SlotDescriptor { index: 6, skip: 28, convention: CallingConvention::C };
        self.vtable.dispatch_address(&d)
    }

    /// Reloads the material from its description.
    pub fn Refresh(&self) -> (r: u64)
        requires
            self.wf(),
        ensures
            r == self.vtable.slots@[37],
    {
        let d = SlotDescriptor { index: 7, skip: 30, convention: CallingConvention::C };
        self.vtable.dispatch_address(&d)
    }

    /// Whether this is the engine's error material.
    pub fn IsErrorMaterial(&self) -> (r: u64)
        requires
            self.wf(),
        ensures
            r == self.vtable.slots@[42],
    {
        let d = SlotDescriptor { index: 8, skip: 34, convention: CallingConvention::C };
        self.vtable.dispatch_address(&d)
    }
}

/// The material system, acquired by version string through the factory
/// protocol.  Extends the engine's application-system base classes,
/// which own the leading slots the skip counts absorb.
pub struct IMaterialSystem {
    /// The interface object's virtual table.
    pub vtable: VirtualTable,
}

impl IMaterialSystem {
    /// The table reaches every slot the revision's methods occupy.
    pub open spec fn wf(self) -> bool {
        self.vtable.slots@.len() > 78
    }

    /// Wraps a material system object's virtual table.
    pub fn from_vtable(vtable: VirtualTable) -> (r: Self)
        requires
            vtable.slots@.len() > 78,
        ensures
            r.wf(),
            r.vtable.slots@ == vtable.slots@,
    {
        IMaterialSystem { vtable }
    }

    /// Reloads every texture.
    pub fn ReloadTextures(&self) -> (r: u64)
        requires
            self.wf(),
        ensures
            r == self.vtable.slots@[70],
    {
        let d = SlotDescriptor { index: 0, skip: 70, convention: CallingConvention::C };
        self.vtable.dispatch_address(&d)
    }

    /// Reloads the materials whose names hold the given substring.
    pub fn ReloadMaterials(&self) -> (r: u64)
        requires
            self.wf(),
        ensures
            r == self.vtable.slots@[71],
    {
        let d = SlotDescriptor { index: 1, skip: 70, convention: CallingConvention::C };
        self.vtable.dispatch_address(&d)
    }

    /// Creates a procedural material from key-value data.
    pub fn CreateMaterial(&self) -> (r: u64)
        requires
            self.wf(),
        ensures
            r == self.vtable.slots@[72],
    {
        let d = SlotDescriptor { index: 2, skip: 70, convention: CallingConvention::C };
        self.vtable.dispatch_address(&d)
    }

    /// Finds a material by name within a texture group.
    pub fn FindMaterial(&self) -> (r: u64)
        requires
            self.wf(),
        ensures
            r == self.vtable.slots@[73],
    {
        let d = SlotDescriptor { index: 3, skip: 70, convention: CallingConvention::C };
        self.vtable.dispatch_address(&d)
    }

    /// First handle for walking the loaded materials.
    pub fn FirstMaterial(&self) -> (r: u64)
        requires
            self.wf(),
        ensures
            r == self.vtable.slots@[75],
    {
        let d = SlotDescriptor { index: 4, skip: 71, convention: CallingConvention::C };
        self.vtable.dispatch_address(&d)
    }

    /// Handle after the given one; the invalid handle at the end.
    pub fn NextMaterial(&self) -> (r: u64)
        requires
            self.wf(),
        ensures
            r == self.vtable.slots@[76],
    {
        let d = SlotDescriptor { index: 5, skip: 71, convention: CallingConvention::C };
        self.vtable.dispatch_address(&d)
    }

    /// The handle that never names a material.
    pub fn InvalidMaterial(&self) -> (r: u64)
        requires
            self.wf(),
        ensures
            r == self.vtable.slots@[77],
    {
        let d = SlotDescriptor { index: 6, skip: 71, convention: CallingConvention::C };
        self.vtable.dispatch_address(&d)
    }

    /// The material behind a handle.
    pub fn GetMaterial(&self) -> (r: u64)
        requires
            self.wf(),
        ensures
            r == self.vtable.slots@[78],
    {
        let d = SlotDescriptor { index: 7, skip: 71, convention: CallingConvention::C };
        self.vtable.dispatch_address(&d)
    }
}

/// Slot table of the single-material interface as an earlier target
/// binary revision laid it out: kept as configuration data.
pub struct Material {
    /// Slot of the name accessor.
    pub GetName: SlotDescriptor,
    /// Slot of the texture-group accessor.
    pub GetTextureGroupName: SlotDescriptor,
    /// Slot of the translucency test.
    pub IsTranslucent: SlotDescriptor,
    /// Slot of the alpha test.
    pub IsAlphaTested: SlotDescriptor,
    /// Slot of the vertex-lighting test.
    pub IsVertexLit: SlotDescriptor,
    /// Slot of the reflectivity accessor.
    pub GetReflectivity: SlotDescriptor,
    /// Slot of the shader setter.
    pub SetShader: SlotDescriptor,
    /// Slot of the refresh method.
    pub Refresh: SlotDescriptor,
    /// Slot of the error-material test.
    pub IsErrorMaterial: SlotDescriptor,
}

impl Material {
    /// The documented slot numbers of this revision.
    pub open spec fn wf(self) -> bool {
        &&& self.GetName.spec_effective() == 0
        &&& self.GetTextureGroupName.spec_effective() == 1
        &&& self.IsTranslucent.spec_effective() == 17
        &&& self.IsAlphaTested.spec_effective() == 18
        &&& self.IsVertexLit.spec_effective() == 19
        &&& self.GetReflectivity.spec_effective() == 31
        &&& self.SetShader.spec_effective() == 34
        &&& self.Refresh.spec_effective() == 37
        &&& self.IsErrorMaterial.spec_effective() == 42
    }

    /// The revision's slot table.
    pub fn layout() -> (r: Self)
        ensures
            r.wf(),
    {
        Material {
            GetName: SlotDescriptor { index: 0, skip: 0, convention: CallingConvention::C },
            GetTextureGroupName: SlotDescriptor {
                index: 1,
                skip: 0,
                convention: CallingConvention::C,
            },
            IsTranslucent: SlotDescriptor { index: 2, skip: 15, convention: CallingConvention::C },
            IsAlphaTested: SlotDescriptor { index: 3, skip: 15, convention: CallingConvention::C },
            IsVertexLit: SlotDescriptor { index: 4, skip: 15, convention: CallingConvention::C },
            GetReflectivity: SlotDescriptor {
                index: 5,
                skip: 26,
                convention: CallingConvention::C,
            },
            SetShader: SlotDescriptor { index: 6, skip: 28, convention: CallingConvention::C },
            Refresh: SlotDescriptor { index: 7, skip: 30, convention: CallingConvention::C },
            IsErrorMaterial: SlotDescriptor {
                index: 8,
                skip: 34,
                convention: CallingConvention::C,
            },
        }
    }
}

/// Slot table of the material system as an earlier target binary
/// revision laid it out — the walking methods sit two slots later than
/// in the revision [`IMaterialSystem`] dispatches against.
pub struct MaterialSystem {
    /// Slot of the texture reload method.
    pub ReloadTextures: SlotDescriptor,
    /// Slot of the material reload method.
    pub ReloadMaterials: SlotDescriptor,
    /// Slot of the procedural-material constructor.
    pub CreateMaterial: SlotDescriptor,
    /// Slot of the lookup method.
    pub FindMaterial: SlotDescriptor,
    /// Slot of the first-handle method.
    pub FirstMaterial: SlotDescriptor,
    /// Slot of the next-handle method.
    pub NextMaterial: SlotDescriptor,
    /// Slot of the invalid-handle method.
    pub InvalidMaterial: SlotDescriptor,
    /// Slot of the handle-to-material method.
    pub GetMaterial: SlotDescriptor,
}

impl MaterialSystem {
    /// The documented slot numbers of this revision.
    pub open spec fn wf(self) -> bool {
        &&& self.ReloadTextures.spec_effective() == 72
        &&& self.ReloadMaterials.spec_effective() == 73
        &&& self.CreateMaterial.spec_effective() == 74
        &&& self.FindMaterial.spec_effective() == 75
        &&& self.FirstMaterial.spec_effective() == 77
        &&& self.NextMaterial.spec_effective() == 78
        &&& self.InvalidMaterial.spec_effective() == 79
        &&& self.GetMaterial.spec_effective() == 80
    }

    /// The revision's slot table.
    pub fn layout() -> (r: Self)
        ensures
            r.wf(),
    {
        MaterialSystem {
            ReloadTextures: SlotDescriptor { index: 0, skip: 72, convention: CallingConvention::C },
            ReloadMaterials: SlotDescriptor {
                index: 1,
                skip: 72,
                convention: CallingConvention::C,
            },
            CreateMaterial: SlotDescriptor { index: 2, skip: 72, convention: CallingConvention::C },
            FindMaterial: SlotDescriptor { index: 3, skip: 72, convention: CallingConvention::C },
            FirstMaterial: SlotDescriptor { index: 4, skip: 73, convention: CallingConvention::C },
            NextMaterial: SlotDescriptor { index: 5, skip: 73, convention: CallingConvention::C },
            InvalidMaterial: SlotDescriptor {
                index: 6,
                skip: 73,
                convention: CallingConvention::C,
            },
            GetMaterial: SlotDescriptor { index: 7, skip: 73, convention: CallingConvention::C },
        }
    }
}

} // verus!
