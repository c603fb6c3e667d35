//! The interface factory protocol: acquiring a typed interface pointer
//! by version string.
//!
//! A library that exposes native interfaces exports one well-known
//! factory symbol.  Acquiring an interface is three steps: open the
//! library through the registry, resolve the factory export through the
//! symbol cache, and call the factory with the version string and an
//! out-parameter status code.  Each step has its own typed failure, and
//! a successful answer is guaranteed non-null — though its shape is
//! assumed, never verified, to match the proxy type the caller pairs
//! with the version string.

use vstd::prelude::*;

use crate::cache::{SymbolCache, SymbolError};
use crate::host::{Export, HostWorld, STATUS_OK};
use crate::registry::{LibraryRegistry, LoadError};
use vstd::string::StringSliceAdditionalSpecFns;

verus! {

/// Why an interface could not be acquired.
#[derive(Clone, Copy, Debug, PartialEq, Eq, Structural)]
pub enum InterfaceError {
    /// The OS loader cannot resolve the library file.
    LibraryNotFound,
    /// The library exports no factory symbol.
    FactoryMissing,
    /// The factory answered null or a nonzero status: the binary does
    /// not implement the requested interface revision.
    VersionNotFound,
}

/// The name every interface-bearing library exports its factory under.
pub open spec fn spec_factory_export() -> Seq<u8> {
    "CreateInterface".spec_bytes()
}

/// The factory export name as plain bytes.
pub fn factory_export() -> (r: Vec<u8>)
    ensures
        r@ == spec_factory_export(),
{
    let s = "CreateInterface";
    let bs = s.as_bytes();
    crate::bytes::to_owned_bytes(bs)
}

/// How to acquire one typed interface: the library file the OS loader
/// resolves and the exact version string its factory answers.  Which
/// proxy type the answered pointer is then wrapped in is the caller's
/// choice, and pairing version string and descriptor set correctly is
/// the caller's responsibility — nothing verifies the shape.
#[derive(Clone, Debug)]
pub struct InterfaceDescriptor {
    /// File name of the interface library.
    pub file: Vec<u8>,
    /// Version string the library's factory implements.
    pub version: Vec<u8>,
}

impl InterfaceDescriptor {
    /// Builds a descriptor from its parts.
    pub fn new(file: Vec<u8>, version: Vec<u8>) -> (r: Self)
        ensures
            r.file@ == file@,
            r.version@ == version@,
    {
        InterfaceDescriptor { file, version }
    }

    /// The shared scripting runtime.
    pub fn lua_shared() -> (r: Self)
        ensures
            r.file@ == "lua_shared".spec_bytes(),
            r.version@ == "LUASHARED003".spec_bytes(),
    {
        InterfaceDescriptor {
            file: crate::bytes::to_owned_bytes("lua_shared".as_bytes()),
            version: crate::bytes::to_owned_bytes("LUASHARED003".as_bytes()),
        }
    }

    /// The client-side engine interface.
    pub fn engine_client() -> (r: Self)
        ensures
            r.file@ == "engine".spec_bytes(),
            r.version@ == "VEngineClient015".spec_bytes(),
    {
        InterfaceDescriptor {
            file: crate::bytes::to_owned_bytes("engine".as_bytes()),
            version: crate::bytes::to_owned_bytes("VEngineClient015".as_bytes()),
        }
    }

    /// The server-side engine interface.
    pub fn engine_server() -> (r: Self)
        ensures
            r.file@ == "engine".spec_bytes(),
            r.version@ == "VEngineServer021".spec_bytes(),
    {
        InterfaceDescriptor {
            file: crate::bytes::to_owned_bytes("engine".as_bytes()),
            version: crate::bytes::to_owned_bytes("VEngineServer021".as_bytes()),
        }
    }

    /// The model-data cache.
    pub fn mdl_cache() -> (r: Self)
        ensures
            r.file@ == "datacache".spec_bytes(),
            r.version@ == "MDLCache004".spec_bytes(),
    {
        InterfaceDescriptor {
            file: crate::bytes::to_owned_bytes("datacache".as_bytes()),
            version: crate::bytes::to_owned_bytes("MDLCache004".as_bytes()),
        }
    }

    /// The material system.
    pub fn material_system() -> (r: Self)
        ensures
            r.file@ == "materialsystem".spec_bytes(),
            r.version@ == "VMaterialSystem080".spec_bytes(),
    {
        InterfaceDescriptor {
            file: crate::bytes::to_owned_bytes("materialsystem".as_bytes()),
            version: crate::bytes::to_owned_bytes("VMaterialSystem080".as_bytes()),
        }
    }

    /// The surface UI panel interface.
    pub fn panel() -> (r: Self)
        ensures
            r.file@ == "vgui2".spec_bytes(),
            r.version@ == "VGUI_Panel009".spec_bytes(),
    {
        InterfaceDescriptor {
            file: crate::bytes::to_owned_bytes("vgui2".as_bytes()),
            version: crate::bytes::to_owned_bytes("VGUI_Panel009".as_bytes()),
        }
    }

    /// The console-variable engine interface.
    pub fn cvar() -> (r: Self)
        ensures
            r.file@ == "vstdlib".spec_bytes(),
            r.version@ == "VEngineCvar007".spec_bytes(),
    {
        InterfaceDescriptor {
            file: crate::bytes::to_owned_bytes("vstdlib".as_bytes()),
            version: crate::bytes::to_owned_bytes("VEngineCvar007".as_bytes()),
        }
    }
}

/// Reads a factory's answer the way the protocol requires: a non-null
/// pointer under status [`STATUS_OK`] is success, anything else means
/// the requested interface revision is not implemented.  A null
/// "success" can never come out of this.
pub fn classify_factory_result(address: u64, status: i32) -> (r: Result<u64, InterfaceError>)
    ensures
        status == STATUS_OK && address != 0 ==> r == Ok::<u64, InterfaceError>(address),
        !(status == STATUS_OK && address != 0) ==> r == Err::<u64, InterfaceError>(
            InterfaceError::VersionNotFound,
        ),
        r matches Ok(a) ==> a != 0,
{
    if status == STATUS_OK && address != 0 {
        Ok(address)
    } else {
        Err(InterfaceError::VersionNotFound)
    }
}

/// Asks a factory for the interface matching `iface` — an opaque
/// version string matched exactly, never partially — and classifies the
/// answer.  Succeeds with the version's non-null instance exactly when
/// the factory implements the version.
pub fn get_from_interface(iface: &[u8], factory: &Vec<Export>) -> (r: Result<u64, InterfaceError>)
    requires
        crate::host::spec_addresses_nonnull(factory@),
    ensures
        crate::host::spec_lookup(factory@, iface@) matches Some(a) ==> r == Ok::<
            u64,
            InterfaceError,
        >(a),
        crate::host::spec_lookup(factory@, iface@) is None ==> r == Err::<u64, InterfaceError>(
            InterfaceError::VersionNotFound,
        ),
        r matches Ok(a) ==> a != 0,
{
    proof {
        crate::host::lemma_lookup_nonnull(factory@, iface@);
    }
    let (address, status): (u64, i32) = match crate::host::lookup(factory, iface) {
        Some(a) => (a, STATUS_OK),
        None => (0, crate::host::STATUS_FAILED),
    };
    classify_factory_result(address, status)
}

/// Opens the library behind `file` and resolves its factory export:
/// the first two steps of interface acquisition.  Fails with
/// [`InterfaceError::LibraryNotFound`] — before any factory resolution
/// is attempted — when the loader cannot resolve `file`, and with
/// [`InterfaceError::FactoryMissing`] when the library exports no
/// factory.
pub fn get_interface_handle<'a>(
    world: &'a HostWorld,
    reg: &mut LibraryRegistry,
    cache: &mut SymbolCache,
    file: &[u8],
) -> (r: Result<&'a Vec<Export>, InterfaceError>)
    requires
        world.wf(),
        old(reg).wf(),
        old(reg).spec_coupled(*world),
        old(cache).wf(),
        old(cache).spec_coherent(*world, *old(reg)),
    ensures
        final(reg).wf(),
        final(reg).spec_coupled(*world),
        final(cache).wf(),
        final(cache).spec_coherent(*world, *final(reg)),
        !world.spec_has_lib(file@) ==> r == Err::<&'a Vec<Export>, InterfaceError>(
            InterfaceError::LibraryNotFound,
        ) && *final(cache) == *old(cache) && *final(reg) == *old(reg),
        world.spec_has_lib(file@) ==> {
            &&& final(reg).spec_registered(file@)
            &&& final(cache).spec_snapshot() == crate::cache::spec_step(
                old(cache).spec_snapshot(),
                final(reg).spec_handle_of(file@),
                spec_factory_export(),
                SymbolCache::spec_resolution(
                    *world,
                    *final(reg),
                    final(reg).spec_handle_of(file@),
                    spec_factory_export(),
                ),
            )
            &&& match world.spec_image(file@).spec_resolve(spec_factory_export()) {
                Some(_) => r matches Ok(f) && f@ == world.spec_image(file@).versions@,
                None => r == Err::<&'a Vec<Export>, InterfaceError>(
                    InterfaceError::FactoryMissing,
                ),
            }
        },
{
    let h = match reg.acquire(world, file) {
        Ok(h) => h,
        Err(LoadError::NotFound) => {
            return Err(InterfaceError::LibraryNotFound);
        },
    };
    proof {
        reg.lemma_handle_of(file@, h as int);
    }
    let name = factory_export();
    let outcome = cache.get(world, reg, h, name.as_slice());
    let j = world.find(file).unwrap();
    proof {
        world.lemma_lib_index(file@, j as int);
    }
    match outcome {
        Ok(_) => Ok(&world.libs[j].versions),
        Err(SymbolError::Missing) => Err(InterfaceError::FactoryMissing),
    }
}

/// Acquires a typed interface pointer by version string: opens the
/// library, resolves its factory export through the symbol cache —
/// at most one underlying resolution per library for the process
/// lifetime — and asks the factory for the version.  Each failure is
/// typed by the step that caused it, and a success is never null.
pub fn get_interface(
    world: &HostWorld,
    reg: &mut LibraryRegistry,
    cache: &mut SymbolCache,
    file: &[u8],
    version: &[u8],
) -> (r: Result<u64, InterfaceError>)
    requires
        world.wf(),
        old(reg).wf(),
        old(reg).spec_coupled(*world),
        old(cache).wf(),
        old(cache).spec_coherent(*world, *old(reg)),
    ensures
        final(reg).wf(),
        final(reg).spec_coupled(*world),
        final(cache).wf(),
        final(cache).spec_coherent(*world, *final(reg)),
        !world.spec_has_lib(file@) ==> r == Err::<u64, InterfaceError>(
            InterfaceError::LibraryNotFound,
        ) && *final(cache) == *old(cache) && *final(reg) == *old(reg),
        world.spec_has_lib(file@) && world.spec_image(file@).spec_resolve(spec_factory_export())
            is None ==> r == Err::<u64, InterfaceError>(InterfaceError::FactoryMissing),
        world.spec_has_lib(file@) && world.spec_image(file@).spec_resolve(spec_factory_export())
            is Some ==> {
            let found = crate::host::spec_lookup(world.spec_image(file@).versions@, version@);
            &&& found matches Some(a) ==> r == Ok::<u64, InterfaceError>(a)
            &&& found is None ==> r == Err::<u64, InterfaceError>(InterfaceError::VersionNotFound)
        },
        world.spec_has_lib(file@) ==> final(cache).spec_snapshot() == crate::cache::spec_step(
            old(cache).spec_snapshot(),
            final(reg).spec_handle_of(file@),
            spec_factory_export(),
            SymbolCache::spec_resolution(
                *world,
                *final(reg),
                final(reg).spec_handle_of(file@),
                spec_factory_export(),
            ),
        ),
        r matches Ok(a) ==> a != 0,
{
    let factory = match get_interface_handle(world, reg, cache, file) {
        Ok(f) => f,
        Err(e) => {
            return Err(e);
        },
    };
    proof {
        let idx = world.spec_lib_index(file@);
        assert(world.spec_has_lib(file@));
        assert(0 <= idx < world.libs@.len() && world.libs@[idx].path@ == file@);
        assert(world.libs@[idx].wf());
    }
    get_from_interface(version, factory)
}

} // verus!
