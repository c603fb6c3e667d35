use rglua::catalog::common::{ButtonCode, Client, CSteamID, SkyboxVisibility};
use rglua::catalog::mdl::VertexFileHeader;
use rglua::catalog::cvar::{ConCommandBase, ConVar, CVar, ICVar};
use rglua::catalog::lua::{LuaObject, LuaType};
use rglua::catalog::materials::{IMaterial, IMaterialSystem, Material, MaterialSystem};
use rglua::catalog::mdl::{MDLCacheDataType, MdlCache, MdlCacheNotify};
use rglua::catalog::net::{CNetChan, NetChannel, NetChannelHandler, NetChannelInfo, NetEnum, NetMessage};
use rglua::catalog::panel::Panel;
use rglua::globals::{Gc, Hook, Mask, Mode, Status};
use rglua::vtable::VirtualTable;

fn synthetic(n: usize) -> VirtualTable {
    let mut slots = Vec::new();
    for i in 0..n {
        slots.push(0x4000 + (i as u64) * 8);
    }
    VirtualTable::new(slots)
}

#[test]
fn icvar_dispatches_documented_slots() {
    let proxy = ICVar::from_vtable(synthetic(12));
    assert_eq!(proxy.RegisterConCommand(), 0x4000 + 1 * 8);
    assert_eq!(proxy.UnregisterConCommand(), 0x4000 + 2 * 8);
    assert_eq!(proxy.GetCommands(), 0x4000 + 11 * 8);
}

#[test]
fn imaterial_dispatches_documented_slots() {
    let proxy = IMaterial::from_vtable(synthetic(43));
    assert_eq!(proxy.GetName(), 0x4000);
    assert_eq!(proxy.GetTextureGroupName(), 0x4000 + 1 * 8);
    assert_eq!(proxy.IsTranslucent(), 0x4000 + 17 * 8);
    assert_eq!(proxy.IsAlphaTested(), 0x4000 + 18 * 8);
    assert_eq!(proxy.IsVertexLit(), 0x4000 + 19 * 8);
    assert_eq!(proxy.GetReflectivity(), 0x4000 + 31 * 8);
    assert_eq!(proxy.SetShader(), 0x4000 + 34 * 8);
    assert_eq!(proxy.Refresh(), 0x4000 + 37 * 8);
    assert_eq!(proxy.IsErrorMaterial(), 0x4000 + 42 * 8);
}

#[test]
fn imaterialsystem_dispatches_documented_slots() {
    let proxy = IMaterialSystem::from_vtable(synthetic(79));
    assert_eq!(proxy.ReloadTextures(), 0x4000 + 70 * 8);
    assert_eq!(proxy.ReloadMaterials(), 0x4000 + 71 * 8);
    assert_eq!(proxy.CreateMaterial(), 0x4000 + 72 * 8);
    assert_eq!(proxy.FindMaterial(), 0x4000 + 73 * 8);
    assert_eq!(proxy.FirstMaterial(), 0x4000 + 75 * 8);
    assert_eq!(proxy.NextMaterial(), 0x4000 + 76 * 8);
    assert_eq!(proxy.InvalidMaterial(), 0x4000 + 77 * 8);
    assert_eq!(proxy.GetMaterial(), 0x4000 + 78 * 8);
}

#[test]
fn material_layout_matches_its_revision() {
    let t = Material::layout();
    assert_eq!(t.GetName.effective(), 0);
    assert_eq!(t.IsTranslucent.effective(), 17);
    assert_eq!(t.GetReflectivity.effective(), 31);
    assert_eq!(t.SetShader.effective(), 34);
    assert_eq!(t.Refresh.effective(), 37);
    assert_eq!(t.IsErrorMaterial.effective(), 42);
}

#[test]
fn materialsystem_layout_matches_its_revision() {
    let t = MaterialSystem::layout();
    assert_eq!(t.ReloadTextures.effective(), 72);
    assert_eq!(t.FindMaterial.effective(), 75);
    assert_eq!(t.FirstMaterial.effective(), 77);
    assert_eq!(t.GetMaterial.effective(), 80);
}

#[test]
fn convar_layout_matches_its_revision() {
    let t = ConVar::layout();
    assert_eq!(t.RegisterConCommand.effective(), 0);
    assert_eq!(t.UnregisterConCommand.effective(), 1);
    assert_eq!(t.FindVar.effective(), 7);
    assert_eq!(t.GetCommands.effective(), 11);
}

#[test]
fn panel_layout_matches_its_revision() {
    let t = Panel::layout();
    assert_eq!(t.GetName.effective(), 36);
    assert_eq!(t.PaintTraverse.effective(), 41);
}

#[test]
fn mdl_layouts_match_their_revision() {
    let n = MdlCacheNotify::layout();
    assert_eq!(n.OnDataLoaded.effective(), 0);
    assert_eq!(n.OnDataUnloaded.effective(), 1);
    let c = MdlCache::layout();
    assert_eq!(c.SetCacheNotify.effective(), 0);
    assert_eq!(c.GetStudioHdr.effective(), 5);
    assert_eq!(c.GetVirtualModel.effective(), 9);
    assert_eq!(c.GetVertexData.effective(), 11);
    assert_eq!(c.GetModelName.effective(), 18);
    assert_eq!(c.EndLock.effective(), 21);
}

#[test]
fn net_layouts_match_their_revision() {
    let info = NetChannelInfo::layout(NetEnum::Generic);
    assert_eq!(info.GetName.effective(), 0);
    assert_eq!(info.GetTimeoutSeconds.effective(), 25);
    let handler = NetChannelHandler::layout();
    assert_eq!(handler.ConnectionStart.effective(), 1);
    assert_eq!(handler.ShouldAcceptFile.effective(), 10);
    let msg = NetMessage::layout();
    assert_eq!(msg.SetNetChannel.effective(), 1);
    assert_eq!(msg.ToString.effective(), 11);
    let chan = NetChannel::layout();
    assert_eq!(chan.SetDataRate.effective(), 27);
    assert_eq!(chan.Shutdown.effective(), 36);
    assert_eq!(chan.SendFile.effective(), 42);
    assert_eq!(chan.GetMsgHandler.effective(), 49);
    assert_eq!(chan.GetChallengeNr.effective(), 52);
    let flat = CNetChan::layout();
    assert_eq!(flat.GetName.effective(), 0);
    assert_eq!(flat.GetTotalData.effective(), 15);
}

#[test]
fn client_layout_matches_its_revision() {
    let t = Client::layout();
    assert_eq!(t.Connect.effective(), 1);
    assert_eq!(t.GetClientName.effective(), 8);
    assert_eq!(t.GetUserSetting.effective(), 11);
    assert_eq!(t.SetMaxRoutablePayloadSize.effective(), 29);
}

#[test]
fn lua_object_layout_matches_its_revision() {
    let t = LuaObject::layout();
    assert_eq!(t.Set.effective(), 0);
    assert_eq!(t.SetMemberStr.effective(), 12);
    assert_eq!(t.GetMemberBool.effective(), 14);
    assert_eq!(t.GetMemberF.effective(), 29);
}

#[test]
fn enum_codes_match_the_foreign_encoding() {
    assert_eq!(Status::Okay.code(), 0);
    assert_eq!(Status::ErrErr.code(), 5);
    assert_eq!(Gc::Stop.code(), 0);
    assert_eq!(Gc::Inc.code(), 10);
    assert_eq!(Hook::TailCall.code(), 4);
    assert_eq!(Mask::Call.code(), 1 << 0);
    assert_eq!(Mask::Ret.code(), 1 << 1);
    assert_eq!(Mask::Line.code(), 1 << 2);
    assert_eq!(Mask::Count.code(), 1 << 3);
    assert_eq!(Mode::Engine.code(), 0);
    assert_eq!(Mode::WrapCFunc.code(), 0x10);
    assert_eq!(Mode::Max.code(), 0x11);
    assert_eq!(Mode::ModeMask.code(), 0x0ff);
    assert_eq!(LuaType::NoneValue.code(), -1);
    assert_eq!(LuaType::Nil.code(), 0);
    assert_eq!(LuaType::Thread.code(), 8);
    assert_eq!(LuaType::Count.code(), 44);
    assert_eq!(NetEnum::Generic.code(), 0);
    assert_eq!(NetEnum::Total.code(), 13);
    assert_eq!(MDLCacheDataType::StudioHDR.code(), 0);
    assert_eq!(MDLCacheDataType::DecodedAnimBlock.code(), 6);
    assert_eq!(SkyboxVisibility::Visible2D.code(), 2);
}

#[test]
fn foreign_data_layouts_carry_plain_values() {
    let base = ConCommandBase {
        base_vtable: 0x10,
        next: 0,
        registered: true,
        name: 0x20,
        help_string: 0x30,
        flags: 4,
    };
    let var = CVar { base, parent: 0, default_value: 0x40 };
    assert_eq!(var.base.flags, 4);
    assert!(var.base.registered);
    let id = CSteamID(76561197960287930);
    assert_eq!(id.0, 76561197960287930);
    let header = VertexFileHeader {
        id: 0x56534456,
        version: 4,
        checksum: 77,
        numLODs: 1,
        numLODVertexes: [12, 0, 0, 0, 0, 0, 0, 0],
        numFixups: 0,
        fixupTableStart: 64,
        vertexDataStart: 64,
        tangentDataStart: 256,
    };
    assert_eq!(header.numLODVertexes[0], 12);
}

#[test]
fn button_codes_match_the_engine_encoding() {
    assert_eq!(ButtonCode::Invalid.code(), -1);
    assert_eq!(ButtonCode::NoneButton.code(), 0);
    assert_eq!(ButtonCode::Key0.code(), 1);
    assert_eq!(ButtonCode::Key9.code(), 10);
    assert_eq!(ButtonCode::KeyA.code(), 11);
    assert_eq!(ButtonCode::KeyZ.code(), 36);
    assert_eq!(ButtonCode::KeyPad0.code(), 37);
    assert_eq!(ButtonCode::KeyESCAPE.code(), 70);
    assert_eq!(ButtonCode::KeySCROLLLOCKTOGGLE.code(), 106);
    assert_eq!(ButtonCode::MouseLeft.code(), 107);
    assert_eq!(ButtonCode::MouseWheelDown.code(), 113);
}
