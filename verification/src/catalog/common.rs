//! Structures shared across the engine interfaces: the skybox
//! visibility states, the player identity handle, and the server-side
//! client slot table.

#![allow(non_snake_case)]

use vstd::prelude::*;

use crate::vtable::{CallingConvention, SlotDescriptor};

verus! {

/// Whether and how the skybox is visible from a point.
#[derive(Clone, Copy, Debug, PartialEq, Eq, Structural)]
pub enum SkyboxVisibility {
    /// Not visible.
    NotVisible,
    /// The 3D skybox is visible.
    Visible3D,
    /// The 2D skybox is visible.
    Visible2D,
}

impl SkyboxVisibility {
    /// The value the foreign side encodes this state as.
    pub open spec fn spec_code(self) -> int {
        match self {
            SkyboxVisibility::NotVisible => 0,
            SkyboxVisibility::Visible3D => 1,
            SkyboxVisibility::Visible2D => 2,
        }
    }

    /// Encodes the state for the foreign side.
    pub fn code(&self) -> (r: i32)
        ensures
            r == self.spec_code(),
    {
        match self {
            SkyboxVisibility::NotVisible => 0,
            SkyboxVisibility::Visible3D => 1,
            SkyboxVisibility::Visible2D => 2,
        }
    }
}

/// A player's packed platform identity.
#[derive(Clone, Copy, Debug, PartialEq, Eq, Structural)]
pub struct CSteamID(pub u64);

/// Slot table of a server-side client, reached through the server
/// interface.  A destructor and two ABI-only entries occupy the
/// skipped slots.
pub struct Client {
    /// Slot of the connect method.
    pub Connect: SlotDescriptor,
    /// Slot of the inactivate method.
    pub Inactivate: SlotDescriptor,
    /// Slot of the reconnect method.
    pub Reconnect: SlotDescriptor,
    /// Slot of the disconnect method.
    pub Disconnect: SlotDescriptor,
    /// Slot of the player-slot accessor.
    pub GetPlayerSlot: SlotDescriptor,
    /// Slot of the user-id accessor.
    pub GetUserID: SlotDescriptor,
    /// Slot of the client-name accessor.
    pub GetClientName: SlotDescriptor,
    /// Slot of the channel accessor.
    pub GetNetChannel: SlotDescriptor,
    /// Slot of the per-user setting accessor.
    pub GetUserSetting: SlotDescriptor,
    /// Slot of the network-id accessor.
    pub GetNetworkIDString: SlotDescriptor,
    /// Slot of the rate setter.
    pub SetRate: SlotDescriptor,
    /// Slot of the rate accessor.
    pub GetRate: SlotDescriptor,
    /// Slot of the update-rate setter.
    pub SetUpdateRate: SlotDescriptor,
    /// Slot of the update-rate accessor.
    pub GetUpdateRate: SlotDescriptor,
    /// Slot of the clear method.
    pub Clear: SlotDescriptor,
    /// Slot of the acknowledged-tick accessor.
    pub GetMaxAckTickCount: SlotDescriptor,
    /// Slot of the string-command executor.
    pub ExecuteStringCommand: SlotDescriptor,
    /// Slot of the message sender.
    pub SendNetMsg: SlotDescriptor,
    /// Slot of the client-print method.
    pub ClientPrint: SlotDescriptor,
    /// Slot of the connected test.
    pub IsConnected: SlotDescriptor,
    /// Slot of the spawned test.
    pub IsSpawned: SlotDescriptor,
    /// Slot of the active test.
    pub IsActive: SlotDescriptor,
    /// Slot of the bot test.
    pub IsFakeClient: SlotDescriptor,
    /// Slot of the broadcast-spectator test.
    pub IsHLTV: SlotDescriptor,
    /// Slot of the voice-audibility test.
    pub IsHearingClient: SlotDescriptor,
    /// Slot of the proximity-voice test.
    pub IsProximityHearingClient: SlotDescriptor,
    /// Slot of the payload-size setter.
    pub SetMaxRoutablePayloadSize: SlotDescriptor,
}

impl Client {
    /// The documented slot numbers of this revision.
    pub open spec fn wf(self) -> bool {
        &&& self.Connect.spec_effective() == 1
        &&& self.Inactivate.spec_effective() == 2
        &&& self.Reconnect.spec_effective() == 3
        &&& self.Disconnect.spec_effective() == 4
        &&& self.GetPlayerSlot.spec_effective() == 5
        &&& self.GetUserID.spec_effective() == 6
        &&& self.GetClientName.spec_effective() == 8
        &&& self.GetNetChannel.spec_effective() == 9
        &&& self.GetUserSetting.spec_effective() == 11
        &&& self.GetNetworkIDString.spec_effective() == 12
        &&& self.SetRate.spec_effective() == 13
        &&& self.GetRate.spec_effective() == 14
        &&& self.SetUpdateRate.spec_effective() == 15
        &&& self.GetUpdateRate.spec_effective() == 16
        &&& self.Clear.spec_effective() == 17
        &&& self.GetMaxAckTickCount.spec_effective() == 18
        &&& self.ExecuteStringCommand.spec_effective() == 19
        &&& self.SendNetMsg.spec_effective() == 20
        &&& self.ClientPrint.spec_effective() == 21
        &&& self.IsConnected.spec_effective() == 22
        &&& self.IsSpawned.spec_effective() == 23
        &&& self.IsActive.spec_effective() == 24
        &&& self.IsFakeClient.spec_effective() == 25
        &&& self.IsHLTV.spec_effective() == 26
        &&& self.IsHearingClient.spec_effective() == 27
        &&& self.IsProximityHearingClient.spec_effective() == 28
        &&& self.SetMaxRoutablePayloadSize.spec_effective() == 29
    }

    /// The revision's slot table.
    pub fn layout() -> (r: Self)
        ensures
            r.wf(),
    {
        Client {
            Connect: SlotDescriptor { index: 0, skip: 1, convention: CallingConvention::C },
            Inactivate: SlotDescriptor { index: 1, skip: 1, convention: CallingConvention::C },
            Reconnect: SlotDescriptor { index: 2, skip: 1, convention: CallingConvention::C },
            Disconnect: SlotDescriptor { index: 3, skip: 1, convention: CallingConvention::C },
            GetPlayerSlot: SlotDescriptor { index: 4, skip: 1, convention: CallingConvention::C },
            GetUserID: SlotDescriptor { index: 5, skip: 1, convention: CallingConvention::C },
            GetClientName: SlotDescriptor { index: 6, skip: 2, convention: CallingConvention::C },
            GetNetChannel: SlotDescriptor { index: 7, skip: 2, convention: CallingConvention::C },
            GetUserSetting: SlotDescriptor { index: 8, skip: 3, convention: CallingConvention::C },
            GetNetworkIDString: SlotDescriptor {
                index: 9,
                skip: 3,
                convention: CallingConvention::C,
            },
            SetRate: SlotDescriptor { index: 10, skip: 3, convention: CallingConvention::C },
            GetRate: SlotDescriptor { index: 11, skip: 3, convention: CallingConvention::C },
            SetUpdateRate: SlotDescriptor { index: 12, skip: 3, convention: CallingConvention::C },
            GetUpdateRate: SlotDescriptor { index: 13, skip: 3, convention: CallingConvention::C },
            Clear: SlotDescriptor { index: 14, skip: 3, convention: CallingConvention::C },
            GetMaxAckTickCount: SlotDescriptor {
                index: 15,
                skip: 3,
                convention: CallingConvention::C,
            },
            ExecuteStringCommand: SlotDescriptor {
                index: 16,
                skip: 3,
                convention: CallingConvention::C,
            },
            SendNetMsg: SlotDescriptor { index: 17, skip: 3, convention: CallingConvention::C },
            ClientPrint: SlotDescriptor { index: 18, skip: 3, convention: CallingConvention::C },
            IsConnected: SlotDescriptor { index: 19, skip: 3, convention: CallingConvention::C },
            IsSpawned: SlotDescriptor { index: 20, skip: 3, convention: CallingConvention::C },
            IsActive: SlotDescriptor { index: 21, skip: 3, convention: CallingConvention::C },
            IsFakeClient: SlotDescriptor { index: 22, skip: 3, convention: CallingConvention::C },
            IsHLTV: SlotDescriptor { index: 23, skip: 3, convention: CallingConvention::C },
            IsHearingClient: SlotDescriptor {
                index: 24,
                skip: 3,
                convention: CallingConvention::C,
            },
            IsProximityHearingClient: SlotDescriptor {
                index: 25,
                skip: 3,
                convention: CallingConvention::C,
            },
            SetMaxRoutablePayloadSize: SlotDescriptor {
                index: 26,
                skip: 3,
                convention: CallingConvention::C,
            },
        }
    }
}

/// The engine's button codes: keyboard keys in their documented
/// order, then the mouse buttons and the two synthetic wheel
/// buttons.
#[derive(Clone, Copy, Debug, PartialEq, Eq, Structural)]
#[allow(non_camel_case_types)]
pub enum ButtonCode {
    /// Encoded as -1.
    Invalid,
    /// Encoded as 0.
    NoneButton,
    /// Encoded as 1.
    Key0,
    /// Encoded as 2.
    Key1,
    /// Encoded as 3.
    Key2,
    /// Encoded as 4.
    Key3,
    /// Encoded as 5.
    Key4,
    /// Encoded as 6.
    Key5,
    /// Encoded as 7.
    Key6,
    /// Encoded as 8.
    Key7,
    /// Encoded as 9.
    Key8,
    /// Encoded as 10.
    Key9,
    /// Encoded as 11.
    KeyA,
    /// Encoded as 12.
    KeyB,
    /// Encoded as 13.
    KeyC,
    /// Encoded as 14.
    KeyD,
    /// Encoded as 15.
    KeyE,
    /// Encoded as 16.
    KeyF,
    /// Encoded as 17.
    KeyG,
    /// Encoded as 18.
    KeyH,
    /// Encoded as 19.
    KeyI,
    /// Encoded as 20.
    KeyJ,
    /// Encoded as 21.
    KeyK,
    /// Encoded as 22.
    KeyL,
    /// Encoded as 23.
    KeyM,
    /// Encoded as 24.
    KeyN,
    /// Encoded as 25.
    KeyO,
    /// Encoded as 26.
    KeyP,
    /// Encoded as 27.
    KeyQ,
    /// Encoded as 28.
    KeyR,
    /// Encoded as 29.
    KeyS,
    /// Encoded as 30.
    KeyT,
    /// Encoded as 31.
    KeyU,
    /// Encoded as 32.
    KeyV,
    /// Encoded as 33.
    KeyW,
    /// Encoded as 34.
    KeyX,
    /// Encoded as 35.
    KeyY,
    /// Encoded as 36.
    KeyZ,
    /// Encoded as 37.
    KeyPad0,
    /// Encoded as 38.
    KeyPad1,
    /// Encoded as 39.
    KeyPad2,
    /// Encoded as 40.
    KeyPad3,
    /// Encoded as 41.
    KeyPad4,
    /// Encoded as 42.
    KeyPad5,
    /// Encoded as 43.
    KeyPad6,
    /// Encoded as 44.
    KeyPad7,
    /// Encoded as 45.
    KeyPad8,
    /// Encoded as 46.
    KeyPad9,
    /// Encoded as 47.
    KeyPadDIVIDE,
    /// Encoded as 48.
    KeyPadMULTIPLY,
    /// Encoded as 49.
    KeyPadMINUS,
    /// Encoded as 50.
    KeyPadPLUS,
    /// Encoded as 51.
    KeyPadENTER,
    /// Encoded as 52.
    KeyPadDECIMAL,
    /// Encoded as 53.
    KeyLBRACKET,
    /// Encoded as 54.
    KeyRBRACKET,
    /// Encoded as 55.
    KeySEMICOLON,
    /// Encoded as 56.
    KeyAPOSTROPHE,
    /// Encoded as 57.
    KeyBACKQUOTE,
    /// Encoded as 58.
    KeyCOMMA,
    /// Encoded as 59.
    KeyPERIOD,
    /// Encoded as 60.
    KeySLASH,
    /// Encoded as 61.
    KeyBACKSLASH,
    /// Encoded as 62.
    KeyMINUS,
    /// Encoded as 63.
    KeyEQUAL,
    /// Encoded as 64.
    KeyENTER,
    /// Encoded as 65.
    KeySPACE,
    /// Encoded as 66.
    KeyBACKSPACE,
    /// Encoded as 67.
    KeyTAB,
    /// Encoded as 68.
    KeyCAPSLOCK,
    /// Encoded as 69.
    KeyNUMLOCK,
    /// Encoded as 70.
    KeyESCAPE,
    /// Encoded as 71.
    KeySCROLLLOCK,
    /// Encoded as 72.
    KeyINSERT,
    /// Encoded as 73.
    KeyDELETE,
    /// Encoded as 74.
    KeyHOME,
    /// Encoded as 75.
    KeyEND,
    /// Encoded as 76.
    KeyPAGEUP,
    /// Encoded as 77.
    KeyPAGEDOWN,
    /// Encoded as 78.
    KeyBREAK,
    /// Encoded as 79.
    KeyLSHIFT,
    /// Encoded as 80.
    KeyRSHIFT,
    /// Encoded as 81.
    KeyLALT,
    /// Encoded as 82.
    KeyRALT,
    /// Encoded as 83.
    KeyLCONTROL,
    /// Encoded as 84.
    KeyRCONTROL,
    /// Encoded as 85.
    KeyLWIN,
    /// Encoded as 86.
    KeyRWIN,
    /// Encoded as 87.
    KeyAPP,
    /// Encoded as 88.
    KeyUP,
    /// Encoded as 89.
    KeyLEFT,
    /// Encoded as 90.
    KeyDOWN,
    /// Encoded as 91.
    KeyRIGHT,
    /// Encoded as 92.
    KeyF1,
    /// Encoded as 93.
    KeyF2,
    /// Encoded as 94.
    KeyF3,
    /// Encoded as 95.
    KeyF4,
    /// Encoded as 96.
    KeyF5,
    /// Encoded as 97.
    KeyF6,
    /// Encoded as 98.
    KeyF7,
    /// Encoded as 99.
    KeyF8,
    /// Encoded as 100.
    KeyF9,
    /// Encoded as 101.
    KeyF10,
    /// Encoded as 102.
    KeyF11,
    /// Encoded as 103.
    KeyF12,
    /// Encoded as 104.
    KeyCAPSLOCKTOGGLE,
    /// Encoded as 105.
    KeyNUMLOCKTOGGLE,
    /// Encoded as 106.
    KeySCROLLLOCKTOGGLE,
    /// Encoded as 107.
    MouseLeft,
    /// Encoded as 108.
    MouseRight,
    /// Encoded as 109.
    MouseMiddle,
    /// Encoded as 110.
    Mouse4,
    /// Encoded as 111.
    Mouse5,
    /// Encoded as 112.
    MouseWheelUp,
    /// Encoded as 113.
    MouseWheelDown,
}

impl ButtonCode {
    /// The value the engine encodes this button as.
    pub open spec fn spec_code(self) -> int {
        match self {
            ButtonCode::Invalid => -1,
            ButtonCode::NoneButton => 0,
            ButtonCode::Key0 => 1,
            ButtonCode::Key1 => 2,
            ButtonCode::Key2 => 3,
            ButtonCode::Key3 => 4,
            ButtonCode::Key4 => 5,
            ButtonCode::Key5 => 6,
            ButtonCode::Key6 => 7,
            ButtonCode::Key7 => 8,
            ButtonCode::Key8 => 9,
            ButtonCode::Key9 => 10,
            ButtonCode::KeyA => 11,
            ButtonCode::KeyB => 12,
            ButtonCode::KeyC => 13,
            ButtonCode::KeyD => 14,
            ButtonCode::KeyE => 15,
            ButtonCode::KeyF => 16,
            ButtonCode::KeyG => 17,
            ButtonCode::KeyH => 18,
            ButtonCode::KeyI => 19,
            ButtonCode::KeyJ => 20,
            ButtonCode::KeyK => 21,
            ButtonCode::KeyL => 22,
            ButtonCode::KeyM => 23,
            ButtonCode::KeyN => 24,
            ButtonCode::KeyO => 25,
            ButtonCode::KeyP => 26,
            ButtonCode::KeyQ => 27,
            ButtonCode::KeyR => 28,
            ButtonCode::KeyS => 29,
            ButtonCode::KeyT => 30,
            ButtonCode::KeyU => 31,
            ButtonCode::KeyV => 32,
            ButtonCode::KeyW => 33,
            ButtonCode::KeyX => 34,
            ButtonCode::KeyY => 35,
            ButtonCode::KeyZ => 36,
            ButtonCode::KeyPad0 => 37,
            ButtonCode::KeyPad1 => 38,
            ButtonCode::KeyPad2 => 39,
            ButtonCode::KeyPad3 => 40,
            ButtonCode::KeyPad4 => 41,
            ButtonCode::KeyPad5 => 42,
            ButtonCode::KeyPad6 => 43,
            ButtonCode::KeyPad7 => 44,
            ButtonCode::KeyPad8 => 45,
            ButtonCode::KeyPad9 => 46,
            ButtonCode::KeyPadDIVIDE => 47,
            ButtonCode::KeyPadMULTIPLY => 48,
            ButtonCode::KeyPadMINUS => 49,
            ButtonCode::KeyPadPLUS => 50,
            ButtonCode::KeyPadENTER => 51,
            ButtonCode::KeyPadDECIMAL => 52,
            ButtonCode::KeyLBRACKET => 53,
            ButtonCode::KeyRBRACKET => 54,
            ButtonCode::KeySEMICOLON => 55,
            ButtonCode::KeyAPOSTROPHE => 56,
            ButtonCode::KeyBACKQUOTE => 57,
            ButtonCode::KeyCOMMA => 58,
            ButtonCode::KeyPERIOD => 59,
            ButtonCode::KeySLASH => 60,
            ButtonCode::KeyBACKSLASH => 61,
            ButtonCode::KeyMINUS => 62,
            ButtonCode::KeyEQUAL => 63,
            ButtonCode::KeyENTER => 64,
            ButtonCode::KeySPACE => 65,
            ButtonCode::KeyBACKSPACE => 66,
            ButtonCode::KeyTAB => 67,
            ButtonCode::KeyCAPSLOCK => 68,
            ButtonCode::KeyNUMLOCK => 69,
            ButtonCode::KeyESCAPE => 70,
            ButtonCode::KeySCROLLLOCK => 71,
            ButtonCode::KeyINSERT => 72,
            ButtonCode::KeyDELETE => 73,
            ButtonCode::KeyHOME => 74,
            ButtonCode::KeyEND => 75,
            ButtonCode::KeyPAGEUP => 76,
            ButtonCode::KeyPAGEDOWN => 77,
            ButtonCode::KeyBREAK => 78,
            ButtonCode::KeyLSHIFT => 79,
            ButtonCode::KeyRSHIFT => 80,
            ButtonCode::KeyLALT => 81,
            ButtonCode::KeyRALT => 82,
            ButtonCode::KeyLCONTROL => 83,
            ButtonCode::KeyRCONTROL => 84,
            ButtonCode::KeyLWIN => 85,
            ButtonCode::KeyRWIN => 86,
            ButtonCode::KeyAPP => 87,
            ButtonCode::KeyUP => 88,
            ButtonCode::KeyLEFT => 89,
            ButtonCode::KeyDOWN => 90,
            ButtonCode::KeyRIGHT => 91,
            ButtonCode::KeyF1 => 92,
            ButtonCode::KeyF2 => 93,
            ButtonCode::KeyF3 => 94,
            ButtonCode::KeyF4 => 95,
            ButtonCode::KeyF5 => 96,
            ButtonCode::KeyF6 => 97,
            ButtonCode::KeyF7 => 98,
            ButtonCode::KeyF8 => 99,
            ButtonCode::KeyF9 => 100,
            ButtonCode::KeyF10 => 101,
            ButtonCode::KeyF11 => 102,
            ButtonCode::KeyF12 => 103,
            ButtonCode::KeyCAPSLOCKTOGGLE => 104,
            ButtonCode::KeyNUMLOCKTOGGLE => 105,
            ButtonCode::KeySCROLLLOCKTOGGLE => 106,
            ButtonCode::MouseLeft => 107,
            ButtonCode::MouseRight => 108,
            ButtonCode::MouseMiddle => 109,
            ButtonCode::Mouse4 => 110,
            ButtonCode::Mouse5 => 111,
            ButtonCode::MouseWheelUp => 112,
            ButtonCode::MouseWheelDown => 113,
        }
    }

    /// Encodes the button for the engine.
    pub fn code(&self) -> (r: i32)
        ensures
            r == self.spec_code(),
    {
        match self {
            ButtonCode::Invalid => -1,
            ButtonCode::NoneButton => 0,
            ButtonCode::Key0 => 1,
            ButtonCode::Key1 => 2,
            ButtonCode::Key2 => 3,
            ButtonCode::Key3 => 4,
            ButtonCode::Key4 => 5,
            ButtonCode::Key5 => 6,
            ButtonCode::Key6 => 7,
            ButtonCode::Key7 => 8,
            ButtonCode::Key8 => 9,
            ButtonCode::Key9 => 10,
            ButtonCode::KeyA => 11,
            ButtonCode::KeyB => 12,
            ButtonCode::KeyC => 13,
            ButtonCode::KeyD => 14,
            ButtonCode::KeyE => 15,
            ButtonCode::KeyF => 16,
            ButtonCode::KeyG => 17,
            ButtonCode::KeyH => 18,
            ButtonCode::KeyI => 19,
            ButtonCode::KeyJ => 20,
            ButtonCode::KeyK => 21,
            ButtonCode::KeyL => 22,
            ButtonCode::KeyM => 23,
            ButtonCode::KeyN => 24,
            ButtonCode::KeyO => 25,
            ButtonCode::KeyP => 26,
            ButtonCode::KeyQ => 27,
            ButtonCode::KeyR => 28,
            ButtonCode::KeyS => 29,
            ButtonCode::KeyT => 30,
            ButtonCode::KeyU => 31,
            ButtonCode::KeyV => 32,
            ButtonCode::KeyW => 33,
            ButtonCode::KeyX => 34,
            ButtonCode::KeyY => 35,
            ButtonCode::KeyZ => 36,
            ButtonCode::KeyPad0 => 37,
            ButtonCode::KeyPad1 => 38,
            ButtonCode::KeyPad2 => 39,
            ButtonCode::KeyPad3 => 40,
            ButtonCode::KeyPad4 => 41,
            ButtonCode::KeyPad5 => 42,
            ButtonCode::KeyPad6 => 43,
            ButtonCode::KeyPad7 => 44,
            ButtonCode::KeyPad8 => 45,
            ButtonCode::KeyPad9 => 46,
            ButtonCode::KeyPadDIVIDE => 47,
            ButtonCode::KeyPadMULTIPLY => 48,
            ButtonCode::KeyPadMINUS => 49,
            ButtonCode::KeyPadPLUS => 50,
            ButtonCode::KeyPadENTER => 51,
            ButtonCode::KeyPadDECIMAL => 52,
            ButtonCode::KeyLBRACKET => 53,
            ButtonCode::KeyRBRACKET => 54,
            ButtonCode::KeySEMICOLON => 55,
            ButtonCode::KeyAPOSTROPHE => 56,
            ButtonCode::KeyBACKQUOTE => 57,
            ButtonCode::KeyCOMMA => 58,
            ButtonCode::KeyPERIOD => 59,
            ButtonCode::KeySLASH => 60,
            ButtonCode::KeyBACKSLASH => 61,
            ButtonCode::KeyMINUS => 62,
            ButtonCode::KeyEQUAL => 63,
            ButtonCode::KeyENTER => 64,
            ButtonCode::KeySPACE => 65,
            ButtonCode::KeyBACKSPACE => 66,
            ButtonCode::KeyTAB => 67,
            ButtonCode::KeyCAPSLOCK => 68,
            ButtonCode::KeyNUMLOCK => 69,
            ButtonCode::KeyESCAPE => 70,
            ButtonCode::KeySCROLLLOCK => 71,
            ButtonCode::KeyINSERT => 72,
            ButtonCode::KeyDELETE => 73,
            ButtonCode::KeyHOME => 74,
            ButtonCode::KeyEND => 75,
            ButtonCode::KeyPAGEUP => 76,
            ButtonCode::KeyPAGEDOWN => 77,
            ButtonCode::KeyBREAK => 78,
            ButtonCode::KeyLSHIFT => 79,
            ButtonCode::KeyRSHIFT => 80,
            ButtonCode::KeyLALT => 81,
            ButtonCode::KeyRALT => 82,
            ButtonCode::KeyLCONTROL => 83,
            ButtonCode::KeyRCONTROL => 84,
            ButtonCode::KeyLWIN => 85,
            ButtonCode::KeyRWIN => 86,
            ButtonCode::KeyAPP => 87,
            ButtonCode::KeyUP => 88,
            ButtonCode::KeyLEFT => 89,
            ButtonCode::KeyDOWN => 90,
            ButtonCode::KeyRIGHT => 91,
            ButtonCode::KeyF1 => 92,
            ButtonCode::KeyF2 => 93,
            ButtonCode::KeyF3 => 94,
            ButtonCode::KeyF4 => 95,
            ButtonCode::KeyF5 => 96,
            ButtonCode::KeyF6 => 97,
            ButtonCode::KeyF7 => 98,
            ButtonCode::KeyF8 => 99,
            ButtonCode::KeyF9 => 100,
            ButtonCode::KeyF10 => 101,
            ButtonCode::KeyF11 => 102,
            ButtonCode::KeyF12 => 103,
            ButtonCode::KeyCAPSLOCKTOGGLE => 104,
            ButtonCode::KeyNUMLOCKTOGGLE => 105,
            ButtonCode::KeySCROLLLOCKTOGGLE => 106,
            ButtonCode::MouseLeft => 107,
            ButtonCode::MouseRight => 108,
            ButtonCode::MouseMiddle => 109,
            ButtonCode::Mouse4 => 110,
            ButtonCode::Mouse5 => 111,
            ButtonCode::MouseWheelUp => 112,
            ButtonCode::MouseWheelDown => 113,
        }
    }
}

} // verus!
