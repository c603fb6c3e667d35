//! The scripting object interface: the slot table of the host's
//! reference-counted script value wrapper, and the script value type
//! tags.

#![allow(non_snake_case)]

use vstd::prelude::*;

use crate::vtable::{CallingConvention, SlotDescriptor};

verus! {

/// Slot table of the host's script object wrapper.  One slot between
/// the member setters and getters belongs to the ABI and is skipped.
pub struct LuaObject {
    /// Slot of the object-to-object setter.
    pub Set: SlotDescriptor,
    /// Slot of the set-from-stack method.
    pub SetFromStack: SlotDescriptor,
    /// Slot of the reference release.
    pub Unreference: SlotDescriptor,
    /// Slot of the type-tag accessor.
    pub GetType: SlotDescriptor,
    /// Slot of the string accessor.
    pub GetString: SlotDescriptor,
    /// Slot of the float accessor.
    pub GetFloat: SlotDescriptor,
    /// Slot of the integer accessor.
    pub GetInt: SlotDescriptor,
    /// Slot of the userdata accessor.
    pub GetUserdata: SlotDescriptor,
    /// Slot of the nil member setter.
    pub SetMember: SlotDescriptor,
    /// Slot of the object member setter.
    pub SetMemberObj: SlotDescriptor,
    /// Slot of the float member setter.
    pub SetMemberFloat: SlotDescriptor,
    /// Slot of the boolean member setter.
    pub SetMemberBool: SlotDescriptor,
    /// Slot of the string member setter.
    pub SetMemberStr: SlotDescriptor,
    /// Slot of the boolean member getter.
    pub GetMemberBool: SlotDescriptor,
    /// Slot of the integer member getter.
    pub GetMemberInt: SlotDescriptor,
    /// Slot of the float member getter.
    pub GetMemberFloat: SlotDescriptor,
    /// Slot of the string member getter.
    pub GetMemberStr: SlotDescriptor,
    /// Slot of the userdata member getter.
    pub GetMemberUserdata: SlotDescriptor,
    /// Slot of the numeric-key userdata getter.
    pub GetMemberUserdataNum: SlotDescriptor,
    /// Slot of the metatable setter.
    pub SetMetatable: SlotDescriptor,
    /// Slot of the userdata setter.
    pub SetUserdata: SlotDescriptor,
    /// Slot of the push-to-stack method.
    pub Push: SlotDescriptor,
    /// Slot of the nil test.
    pub isNil: SlotDescriptor,
    /// Slot of the table test.
    pub isTable: SlotDescriptor,
    /// Slot of the string test.
    pub isString: SlotDescriptor,
    /// Slot of the number test.
    pub isNumber: SlotDescriptor,
    /// Slot of the function test.
    pub isFunction: SlotDescriptor,
    /// Slot of the userdata test.
    pub isUserdata: SlotDescriptor,
    /// Slot of the numeric-key member getter.
    pub GetMemberF: SlotDescriptor,
}

impl LuaObject {
    /// The documented slot numbers of this revision.
    pub open spec fn wf(self) -> bool {
        &&& self.Set.spec_effective() == 0
        &&& self.SetFromStack.spec_effective() == 1
        &&& self.Unreference.spec_effective() == 2
        &&& self.GetType.spec_effective() == 3
        &&& self.GetString.spec_effective() == 4
        &&& self.GetFloat.spec_effective() == 5
        &&& self.GetInt.spec_effective() == 6
        &&& self.GetUserdata.spec_effective() == 7
        &&& self.SetMember.spec_effective() == 8
        &&& self.SetMemberObj.spec_effective() == 9
        &&& self.SetMemberFloat.spec_effective() == 10
        &&& self.SetMemberBool.spec_effective() == 11
        &&& self.SetMemberStr.spec_effective() == 12
        &&& self.GetMemberBool.spec_effective() == 14
        &&& self.GetMemberInt.spec_effective() == 15
        &&& self.GetMemberFloat.spec_effective() == 16
        &&& self.GetMemberStr.spec_effective() == 17
        &&& self.GetMemberUserdata.spec_effective() == 18
        &&& self.GetMemberUserdataNum.spec_effective() == 19
        &&& self.SetMetatable.spec_effective() == 20
        &&& self.SetUserdata.spec_effective() == 21
        &&& self.Push.spec_effective() == 22
        &&& self.isNil.spec_effective() == 23
        &&& self.isTable.spec_effective() == 24
        &&& self.isString.spec_effective() == 25
        &&& self.isNumber.spec_effective() == 26
        &&& self.isFunction.spec_effective() == 27
        &&& self.isUserdata.spec_effective() == 28
        &&& self.GetMemberF.spec_effective() == 29
    }

    /// The revision's slot table.
    pub fn layout() -> (r: Self)
        ensures
            r.wf(),
    {
        LuaObject {
            Set: SlotDescriptor { index: 0, skip: 0, convention: CallingConvention::C },
            SetFromStack: SlotDescriptor { index: 1, skip: 0, convention: CallingConvention::C },
            Unreference: SlotDescriptor { index: 2, skip: 0, convention: CallingConvention::C },
            GetType: SlotDescriptor { index: 3, skip: 0, convention: CallingConvention::C },
            GetString: SlotDescriptor { index: 4, skip: 0, convention: CallingConvention::C },
            GetFloat: SlotDescriptor { index: 5, skip: 0, convention: CallingConvention::C },
            GetInt: SlotDescriptor { index: 6, skip: 0, convention: CallingConvention::C },
            GetUserdata: SlotDescriptor { index: 7, skip: 0, convention: CallingConvention::C },
            SetMember: SlotDescriptor { index: 8, skip: 0, convention: CallingConvention::C },
            SetMemberObj: SlotDescriptor { index: 9, skip: 0, convention: CallingConvention::C },
            SetMemberFloat: SlotDescriptor { index: 10, skip: 0, convention: CallingConvention::C },
            SetMemberBool: SlotDescriptor { index: 11, skip: 0, convention: CallingConvention::C },
            SetMemberStr: SlotDescriptor { index: 12, skip: 0, convention: CallingConvention::C },
            GetMemberBool: SlotDescriptor { index: 13, skip: 1, convention: CallingConvention::C },
            GetMemberInt: SlotDescriptor { index: 14, skip: 1, convention: CallingConvention::C },
            GetMemberFloat: SlotDescriptor { index: 15, skip: 1, convention: CallingConvention::C },
            GetMemberStr: SlotDescriptor { index: 16, skip: 1, convention: CallingConvention::C },
            GetMemberUserdata: SlotDescriptor {
                index: 17,
                skip: 1,
                convention: CallingConvention::C,
            },
            GetMemberUserdataNum: SlotDescriptor {
                index: 18,
                skip: 1,
                convention: CallingConvention::C,
            },
            SetMetatable: SlotDescriptor { index: 19, skip: 1, convention: CallingConvention::C },
            SetUserdata: SlotDescriptor { index: 20, skip: 1, convention: CallingConvention::C },
            Push: SlotDescriptor { index: 21, skip: 1, convention: CallingConvention::C },
            isNil: SlotDescriptor { index: 22, skip: 1, convention: CallingConvention::C },
            isTable: SlotDescriptor { index: 23, skip: 1, convention: CallingConvention::C },
            isString: SlotDescriptor { index: 24, skip: 1, convention: CallingConvention::C },
            isNumber: SlotDescriptor { index: 25, skip: 1, convention: CallingConvention::C },
            isFunction: SlotDescriptor { index: 26, skip: 1, convention: CallingConvention::C },
            isUserdata: SlotDescriptor { index: 27, skip: 1, convention: CallingConvention::C },
            GetMemberF: SlotDescriptor { index: 28, skip: 1, convention: CallingConvention::C },
        }
    }
}

/// The host's script value type tags.
#[derive(Clone, Copy, Debug, PartialEq, Eq, Structural)]
pub enum LuaType {
    /// No value at the queried position.
    NoneValue,
    /// The nil value.
    Nil,
    /// A boolean.
    Bool,
    /// A light userdata pointer.
    LightUserdata,
    /// A number.
    Number,
    /// A string.
    String,
    /// A table.
    Table,
    /// A function.
    Function,
    /// A full userdata.
    Userdata,
    /// A coroutine.
    Thread,
    /// An entity or entity subclass.
    Entity,
    /// A vector.
    Vector,
    /// An angle.
    Angle,
    /// A physics object.
    PhysObj,
    /// A save handle.
    Save,
    /// A restore handle.
    Restore,
    /// Damage information.
    DamageInfo,
    /// Effect data.
    EffectData,
    /// Movement data.
    MoveData,
    /// A recipient filter.
    RecipientFilter,
    /// A user command.
    UserCmd,
    /// A scripted vehicle, left over from an old beta.
    ScriptedVehicle,
    /// A material.
    Material,
    /// A panel.
    Panel,
    /// A particle.
    Particle,
    /// A particle emitter.
    ParticleEmitter,
    /// A texture.
    Texture,
    /// A user message.
    UserMsg,
    /// A console variable.
    ConVar,
    /// A mesh.
    IMesh,
    /// A matrix.
    Matrix,
    /// A sound.
    Sound,
    /// A pixel visibility handle.
    PixelVisHandle,
    /// A dynamic light.
    DLight,
    /// A video handle.
    Video,
    /// A file handle.
    File,
    /// A locomotion controller.
    Locomotion,
    /// A navigation path.
    Path,
    /// A navigation area.
    NavArea,
    /// A sound handle.
    SoundHandle,
    /// A navigation ladder.
    NavLadder,
    /// A particle system.
    ParticleSystem,
    /// A projected texture.
    ProjectedTexture,
    /// A physics collision object.
    PhysCollide,
    /// Surface information.
    SurfaceInfo,
    /// Count of type tags.
    Count,
}

impl LuaType {
    /// The value the host encodes this tag as.
    pub open spec fn spec_code(self) -> int {
        match self {
            LuaType::NoneValue => -1,
            LuaType::Nil => 0,
            LuaType::Bool => 1,
            LuaType::LightUserdata => 2,
            LuaType::Number => 3,
            LuaType::String => 4,
            LuaType::Table => 5,
            LuaType::Function => 6,
            LuaType::Userdata => 7,
            LuaType::Thread => 8,
            LuaType::Entity => 9,
            LuaType::Vector => 10,
            LuaType::Angle => 11,
            LuaType::PhysObj => 12,
            LuaType::Save => 13,
            LuaType::Restore => 14,
            LuaType::DamageInfo => 15,
            LuaType::EffectData => 16,
            LuaType::MoveData => 17,
            LuaType::RecipientFilter => 18,
            LuaType::UserCmd => 19,
            LuaType::ScriptedVehicle => 20,
            LuaType::Material => 21,
            LuaType::Panel => 22,
            LuaType::Particle => 23,
            LuaType::ParticleEmitter => 24,
            LuaType::Texture => 25,
            LuaType::UserMsg => 26,
            LuaType::ConVar => 27,
            LuaType::IMesh => 28,
            LuaType::Matrix => 29,
            LuaType::Sound => 30,
            LuaType::PixelVisHandle => 31,
            LuaType::DLight => 32,
            LuaType::Video => 33,
            LuaType::File => 34,
            LuaType::Locomotion => 35,
            LuaType::Path => 36,
            LuaType::NavArea => 37,
            LuaType::SoundHandle => 38,
            LuaType::NavLadder => 39,
            LuaType::ParticleSystem => 40,
            LuaType::ProjectedTexture => 41,
            LuaType::PhysCollide => 42,
            LuaType::SurfaceInfo => 43,
            LuaType::Count => 44,
        }
    }

    /// Encodes the tag for the host.
    pub fn code(&self) -> (r: i32)
        ensures
            r == self.spec_code(),
    {
        match self {
            LuaType::NoneValue => -1,
            LuaType::Nil => 0,
            LuaType::Bool => 1,
            LuaType::LightUserdata => 2,
            LuaType::Number => 3,
            LuaType::String => 4,
            LuaType::Table => 5,
            LuaType::Function => 6,
            LuaType::Userdata => 7,
            LuaType::Thread => 8,
            LuaType::Entity => 9,
            LuaType::Vector => 10,
            LuaType::Angle => 11,
            LuaType::PhysObj => 12,
            LuaType::Save => 13,
            LuaType::Restore => 14,
            LuaType::DamageInfo => 15,
            LuaType::EffectData => 16,
            LuaType::MoveData => 17,
            LuaType::RecipientFilter => 18,
            LuaType::UserCmd => 19,
            LuaType::ScriptedVehicle => 20,
            LuaType::Material => 21,
            LuaType::Panel => 22,
            LuaType::Particle => 23,
            LuaType::ParticleEmitter => 24,
            LuaType::Texture => 25,
            LuaType::UserMsg => 26,
            LuaType::ConVar => 27,
            LuaType::IMesh => 28,
            LuaType::Matrix => 29,
            LuaType::Sound => 30,
            LuaType::PixelVisHandle => 31,
            LuaType::DLight => 32,
            LuaType::Video => 33,
            LuaType::File => 34,
            LuaType::Locomotion => 35,
            LuaType::Path => 36,
            LuaType::NavArea => 37,
            LuaType::SoundHandle => 38,
            LuaType::NavLadder => 39,
            LuaType::ParticleSystem => 40,
            LuaType::ProjectedTexture => 41,
            LuaType::PhysCollide => 42,
            LuaType::SurfaceInfo => 43,
            LuaType::Count => 44,
        }
    }
}

} // verus!
