use rglua::adapter::{run_entry, EntryPointResult, HostErrorSink, LuaState};
use rglua::cache::{SymbolCache, SymbolError};
use rglua::factory::{
    factory_export, get_from_interface, get_interface, InterfaceDescriptor, InterfaceError,
};
use rglua::host::{Export, HostWorld, LibraryImage};
use rglua::registry::{LibraryRegistry, LoadError};

fn engine_world() -> HostWorld {
    HostWorld {
        libs: vec![
            LibraryImage {
                path: b"engine".to_vec(),
                exports: vec![
                    Export { name: b"CreateInterface".to_vec(), address: 0x1000 },
                    Export { name: b"Sys_GetFactory".to_vec(), address: 0x1100 },
                ],
                versions: vec![
                    Export { name: b"Engine015".to_vec(), address: 0x2000 },
                    Export { name: b"VEngineServer021".to_vec(), address: 0x2100 },
                ],
            },
            LibraryImage {
                path: b"bare".to_vec(),
                exports: vec![Export { name: b"irrelevant".to_vec(), address: 0x3000 }],
                versions: vec![],
            },
        ],
    }
}

#[test]
fn factory_export_name() {
    assert_eq!(factory_export(), b"CreateInterface".to_vec());
}

#[test]
fn engine_scenario_succeeds_with_nonnull_pointer() {
    let world = engine_world();
    let mut reg = LibraryRegistry::new();
    let mut cache = SymbolCache::new();
    let got = get_interface(&world, &mut reg, &mut cache, b"engine", b"Engine015");
    assert_eq!(got, Ok(0x2000));
}

#[test]
fn unknown_version_is_version_not_found() {
    let world = engine_world();
    let mut reg = LibraryRegistry::new();
    let mut cache = SymbolCache::new();
    let got = get_interface(&world, &mut reg, &mut cache, b"engine", b"Engine999");
    assert_eq!(got, Err(InterfaceError::VersionNotFound));
    // Never a null "success".
    assert!(!matches!(got, Ok(0)));
}

#[test]
fn missing_library_is_library_not_found_without_resolution() {
    let world = engine_world();
    let mut reg = LibraryRegistry::new();
    let mut cache = SymbolCache::new();
    let got = get_interface(&world, &mut reg, &mut cache, b"nowhere", b"Engine015");
    assert_eq!(got, Err(InterfaceError::LibraryNotFound));
    // The factory resolution was never attempted.
    assert_eq!(cache.resolution_count(), 0);
    assert_eq!(reg.opened(), 0);
}

#[test]
fn missing_factory_export_is_factory_missing() {
    let world = engine_world();
    let mut reg = LibraryRegistry::new();
    let mut cache = SymbolCache::new();
    let got = get_interface(&world, &mut reg, &mut cache, b"bare", b"Engine015");
    assert_eq!(got, Err(InterfaceError::FactoryMissing));
}

#[test]
fn factory_answers_exact_versions_only() {
    let versions = vec![Export { name: b"Engine015".to_vec(), address: 0x2000 }];
    assert_eq!(get_from_interface(b"Engine015", &versions), Ok(0x2000));
    assert_eq!(get_from_interface(b"Engine01", &versions), Err(InterfaceError::VersionNotFound));
    assert_eq!(get_from_interface(b"Engine0155", &versions), Err(InterfaceError::VersionNotFound));
}

#[test]
fn symbol_cache_is_idempotent_per_key() {
    let world = engine_world();
    let mut reg = LibraryRegistry::new();
    let mut cache = SymbolCache::new();
    let h = reg.acquire(&world, b"engine").unwrap();
    let first = cache.get(&world, &reg, h, b"Sys_GetFactory");
    let second = cache.get(&world, &reg, h, b"Sys_GetFactory");
    assert_eq!(first, Ok(0x1100));
    // Both callers see the same call-ready address.
    assert_eq!(first, second);
}

#[test]
fn repeated_gets_trigger_exactly_one_resolution() {
    let world = engine_world();
    let mut reg = LibraryRegistry::new();
    let mut cache = SymbolCache::new();
    let h = reg.acquire(&world, b"engine").unwrap();
    assert_eq!(cache.resolution_count(), 0);
    for _ in 0..5 {
        let got = cache.get(&world, &reg, h, b"CreateInterface");
        assert_eq!(got, Ok(0x1000));
    }
    assert_eq!(cache.resolution_count(), 1);
}

#[test]
fn failed_resolution_is_sticky_and_counted_once() {
    let world = engine_world();
    let mut reg = LibraryRegistry::new();
    let mut cache = SymbolCache::new();
    let h = reg.acquire(&world, b"engine").unwrap();
    for _ in 0..3 {
        let got = cache.get(&world, &reg, h, b"NoSuchExport");
        assert_eq!(got, Err(SymbolError::Missing));
    }
    assert_eq!(cache.resolution_count(), 1);
}

#[test]
fn distinct_keys_resolve_separately() {
    let world = engine_world();
    let mut reg = LibraryRegistry::new();
    let mut cache = SymbolCache::new();
    let h = reg.acquire(&world, b"engine").unwrap();
    assert_eq!(cache.get(&world, &reg, h, b"CreateInterface"), Ok(0x1000));
    assert_eq!(cache.get(&world, &reg, h, b"Sys_GetFactory"), Ok(0x1100));
    assert_eq!(cache.resolution_count(), 2);
}

#[test]
fn registry_acquire_is_idempotent_per_path() {
    let world = engine_world();
    let mut reg = LibraryRegistry::new();
    let a = reg.acquire(&world, b"engine").unwrap();
    let b = reg.acquire(&world, b"engine").unwrap();
    assert_eq!(a, b);
    assert_eq!(reg.opened(), 1);
    let c = reg.acquire(&world, b"bare").unwrap();
    assert_ne!(a, c);
    assert_eq!(reg.opened(), 2);
}

#[test]
fn registry_unresolvable_path_is_not_found() {
    let world = engine_world();
    let mut reg = LibraryRegistry::new();
    assert_eq!(reg.acquire(&world, b"missing"), Err(LoadError::NotFound));
    assert_eq!(reg.opened(), 0);
}

#[test]
fn acquiring_two_interfaces_reopens_nothing() {
    let world = engine_world();
    let mut reg = LibraryRegistry::new();
    let mut cache = SymbolCache::new();
    let one = get_interface(&world, &mut reg, &mut cache, b"engine", b"Engine015");
    let two = get_interface(&world, &mut reg, &mut cache, b"engine", b"VEngineServer021");
    assert_eq!(one, Ok(0x2000));
    assert_eq!(two, Ok(0x2100));
    assert_eq!(reg.opened(), 1);
    assert_eq!(cache.resolution_count(), 1);
}

#[test]
fn well_known_descriptors_name_their_interfaces() {
    let d = InterfaceDescriptor::engine_server();
    assert_eq!(d.file, b"engine".to_vec());
    assert_eq!(d.version, b"VEngineServer021".to_vec());
    assert_eq!(InterfaceDescriptor::lua_shared().version, b"LUASHARED003".to_vec());
    assert_eq!(InterfaceDescriptor::engine_client().version, b"VEngineClient015".to_vec());
    assert_eq!(InterfaceDescriptor::mdl_cache().file, b"datacache".to_vec());
    assert_eq!(InterfaceDescriptor::material_system().version, b"VMaterialSystem080".to_vec());
    assert_eq!(InterfaceDescriptor::panel().file, b"vgui2".to_vec());
    assert_eq!(InterfaceDescriptor::cvar().version, b"VEngineCvar007".to_vec());
}

#[test]
fn descriptor_driven_acquisition_succeeds() {
    let world = engine_world();
    let mut reg = LibraryRegistry::new();
    let mut cache = SymbolCache::new();
    let d = InterfaceDescriptor::engine_server();
    let got = get_interface(&world, &mut reg, &mut cache, &d.file, &d.version);
    assert_eq!(got, Ok(0x2100));
}

fn read_argument(_l: LuaState, n: i32) -> i32 {
    n * 10
}

#[test]
fn optional_argument_falls_back_only_when_absent() {
    assert_eq!(rglua::util::luaL_opt(0, read_argument, 3, true, 7), 7);
    assert_eq!(rglua::util::luaL_opt(0, read_argument, 3, false, 7), 30);
}

fn returns_two(_l: LuaState) -> EntryPointResult {
    EntryPointResult::Success(2)
}

fn returns_boom(_l: LuaState) -> EntryPointResult {
    EntryPointResult::Failure(b"boom".to_vec())
}

#[test]
fn adapter_passes_success_count_through() {
    let mut sink = HostErrorSink::new();
    let r = run_entry(returns_two, 0xDEAD, &mut sink);
    assert_eq!(r, 2);
    assert_eq!(sink.raised_count(), 0);
}

#[test]
fn adapter_raises_failure_message_and_falls_back_to_zero() {
    let mut sink = HostErrorSink::new();
    let r = run_entry(returns_boom, 0xDEAD, &mut sink);
    assert_eq!(r, 0);
    assert_eq!(sink.raised, vec![b"boom".to_vec()]);
}
