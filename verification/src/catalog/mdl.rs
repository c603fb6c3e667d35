//! The model-data cache interface: data kinds, notification and cache
//! slot tables, and the vertex file header layout.

#![allow(non_snake_case)]

use vstd::prelude::*;

use crate::vtable::{CallingConvention, SlotDescriptor};

verus! {

/// The kinds of data the model cache manages.  The first three get
/// load/unload callbacks; the rest do not.
#[derive(Clone, Copy, Debug, PartialEq, Eq, Structural)]
pub enum MDLCacheDataType {
    /// Model header data; callbacks fire.
    StudioHDR,
    /// Hardware vertex data; callbacks fire.
    StudioHWData,
    /// Collision data; callbacks fire.
    VCollide,
    /// Animation block; no callbacks.
    AnimBlock,
    /// Virtual model; no callbacks.
    VirtualModel,
    /// Raw vertexes; no callbacks.
    Vertexes,
    /// Decoded animation block; no callbacks.
    DecodedAnimBlock,
}

impl MDLCacheDataType {
    /// The value the foreign side encodes this kind as.
    pub open spec fn spec_code(self) -> int {
        match self {
            MDLCacheDataType::StudioHDR => 0,
            MDLCacheDataType::StudioHWData => 1,
            MDLCacheDataType::VCollide => 2,
            MDLCacheDataType::AnimBlock => 3,
            MDLCacheDataType::VirtualModel => 4,
            MDLCacheDataType::Vertexes => 5,
            MDLCacheDataType::DecodedAnimBlock => 6,
        }
    }

    /// Encodes the kind for the foreign side.
    pub fn code(&self) -> (r: i32)
        ensures
            r == self.spec_code(),
    {
        match self {
            MDLCacheDataType::StudioHDR => 0,
            MDLCacheDataType::StudioHWData => 1,
            MDLCacheDataType::VCollide => 2,
            MDLCacheDataType::AnimBlock => 3,
            MDLCacheDataType::VirtualModel => 4,
            MDLCacheDataType::Vertexes => 5,
            MDLCacheDataType::DecodedAnimBlock => 6,
        }
    }
}

/// Slot table of the cache-notification callback object a client hands
/// to the cache.
pub struct MdlCacheNotify {
    /// Slot of the callback fired right after data is loaded.
    pub OnDataLoaded: SlotDescriptor,
    /// Slot of the callback fired right before data is unloaded.
    pub OnDataUnloaded: SlotDescriptor,
}

impl MdlCacheNotify {
    /// The documented slot numbers of this revision.
    pub open spec fn wf(self) -> bool {
        &&& self.OnDataLoaded.spec_effective() == 0
        &&& self.OnDataUnloaded.spec_effective() == 1
    }

    /// The revision's slot table.
    pub fn layout() -> (r: Self)
        ensures
            r.wf(),
    {
        MdlCacheNotify {
            OnDataLoaded: SlotDescriptor { index: 0, skip: 0, convention: CallingConvention::C },
            OnDataUnloaded: SlotDescriptor { index: 1, skip: 0, convention: CallingConvention::C },
        }
    }
}

/// Field layout of a model's vertex file header, up to the per-level
/// vertex counts.
#[derive(Clone, Copy, Debug)]
pub struct VertexFileHeader {
    /// Format tag.
    pub id: i32,
    /// Format version.
    pub version: i32,
    /// Checksum shared with the model header.
    pub checksum: i32,
    /// Number of detail levels.
    pub numLODs: i32,
    /// Vertex count for each detail level.
    pub numLODVertexes: [i32; 8],
    /// Number of fixup entries.
    pub numFixups: i32,
    /// Byte offset of the fixup table.
    pub fixupTableStart: i32,
    /// Byte offset of the vertex data.
    pub vertexDataStart: i32,
    /// Byte offset of the tangent data.
    pub tangentDataStart: i32,
}

/// Slot table of the model-data cache interface, acquired by version
/// string through the factory protocol.
pub struct MdlCache {
    /// Slot of the notification-callback setter.
    pub SetCacheNotify: SlotDescriptor,
    /// Slot of the path-to-handle lookup.
    pub FindMDL: SlotDescriptor,
    /// Slot of the reference-count increment.
    pub AddRef: SlotDescriptor,
    /// Slot of the reference-count decrement.
    pub Release: SlotDescriptor,
    /// Slot of the reference-count accessor.
    pub GetRef: SlotDescriptor,
    /// Slot of the model-header accessor.
    pub GetStudioHdr: SlotDescriptor,
    /// Slot of the virtual-model accessor.
    pub GetVirtualModel: SlotDescriptor,
    /// Slot of the vertex-data accessor.
    pub GetVertexData: SlotDescriptor,
    /// Slot of the touch-everything method.
    pub TouchAllData: SlotDescriptor,
    /// Slot of the user-data setter.
    pub SetUserData: SlotDescriptor,
    /// Slot of the user-data accessor.
    pub GetUserData: SlotDescriptor,
    /// Slot of the error-model test.
    pub IsErrorModel: SlotDescriptor,
    /// Slot of the model-name accessor.
    pub GetModelName: SlotDescriptor,
    /// Slot of the header-to-virtual-model shortcut.
    pub GetVirtualModelFast: SlotDescriptor,
    /// Slot of the lock entry method.
    pub BeginLock: SlotDescriptor,
    /// Slot of the lock exit method.
    pub EndLock: SlotDescriptor,
}

impl MdlCache {
    /// The documented slot numbers of this revision.
    pub open spec fn wf(self) -> bool {
        &&& self.SetCacheNotify.spec_effective() == 0
        &&& self.FindMDL.spec_effective() == 1
        &&& self.AddRef.spec_effective() == 2
        &&& self.Release.spec_effective() == 3
        &&& self.GetRef.spec_effective() == 4
        &&& self.GetStudioHdr.spec_effective() == 5
        &&& self.GetVirtualModel.spec_effective() == 9
        &&& self.GetVertexData.spec_effective() == 11
        &&& self.TouchAllData.spec_effective() == 12
        &&& self.SetUserData.spec_effective() == 13
        &&& self.GetUserData.spec_effective() == 14
        &&& self.IsErrorModel.spec_effective() == 15
        &&& self.GetModelName.spec_effective() == 18
        &&& self.GetVirtualModelFast.spec_effective() == 19
        &&& self.BeginLock.spec_effective() == 20
        &&& self.EndLock.spec_effective() == 21
    }

    /// The revision's slot table.
    pub fn layout() -> (r: Self)
        ensures
            r.wf(),
    {
        MdlCache {
            SetCacheNotify: SlotDescriptor { index: 0, skip: 0, convention: CallingConvention::C },
            FindMDL: SlotDescriptor { index: 1, skip: 0, convention: CallingConvention::C },
            AddRef: SlotDescriptor { index: 2, skip: 0, convention: CallingConvention::C },
            Release: SlotDescriptor { index: 3, skip: 0, convention: CallingConvention::C },
            GetRef: SlotDescriptor { index: 4, skip: 0, convention: CallingConvention::C },
            GetStudioHdr: SlotDescriptor { index: 5, skip: 0, convention: CallingConvention::C },
            GetVirtualModel: SlotDescriptor { index: 6, skip: 3, convention: CallingConvention::C },
            GetVertexData: SlotDescriptor { index: 7, skip: 4, convention: CallingConvention::C },
            TouchAllData: SlotDescriptor { index: 8, skip: 4, convention: CallingConvention::C },
            SetUserData: SlotDescriptor { index: 9, skip: 4, convention: CallingConvention::C },
            GetUserData: SlotDescriptor { index: 10, skip: 4, convention: CallingConvention::C },
            IsErrorModel: SlotDescriptor { index: 11, skip: 4, convention: CallingConvention::C },
            GetModelName: SlotDescriptor { index: 12, skip: 6, convention: CallingConvention::C },
            GetVirtualModelFast: SlotDescriptor {
                index: 13,
                skip: 6,
                convention: CallingConvention::C,
            },
            BeginLock: SlotDescriptor { index: 14, skip: 6, convention: CallingConvention::C },
            EndLock: SlotDescriptor { index: 15, skip: 6, convention: CallingConvention::C },
        }
    }
}

} // verus!
