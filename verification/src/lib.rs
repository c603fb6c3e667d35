//! A verified model of a dynamic native-interface binding layer.
//!
//! Host-loaded extension modules reach a foreign, versioned native runtime
//! either through free exported symbols of a shared library or through
//! opaque polymorphic objects that are only reachable by virtual dispatch.
//! This crate holds the logic of that binding layer, stated and proved:
//!
//! * [`registry`] — the library handle registry: one handle per resolved
//!   path, opened at most once for the process lifetime;
//! * [`cache`] — the symbol cache: lazy, at-most-once resolution of
//!   (library, symbol name) pairs with a sticky outcome;
//! * [`vtable`] — the virtual-table proxy: slot descriptors, the effective
//!   index and byte-offset arithmetic, and dispatch over a table of
//!   function addresses;
//! * [`factory`] — the interface factory protocol: acquiring a typed
//!   interface pointer by version string through a well-known factory
//!   export;
//! * [`adapter`] — the entry-point adapter: turning fallible module logic
//!   into the raw, context-in/integer-out shape the host loader expects;
//! * [`host`] — the model of the foreign side: libraries, export tables
//!   and factory version tables as plain data;
//! * [`bytes`] — NUL-terminated byte strings as the host's native string
//!   form;
//! * [`catalog`] and [`globals`] — the declarative per-interface slot
//!   tables, foreign structure layouts and well-known constants the
//!   proxies consume as versioned configuration data;
//! * [`util`] — small host-call helpers.
//!
//! Foreign memory and foreign code are represented as plain data: an
//! address is a `u64`, a virtual table is the sequence of addresses its
//! slots hold, a library is its path, its export table and its factory's
//! version table.  Everything the layer decides — which handle, which
//! slot, which address, which error — is computed here and proved against
//! that model.  The actual OS loader calls and indirect jumps are left to
//! the unverified rim of the embedding application, which feeds their
//! outcomes back in as plain values.

pub mod adapter;
pub mod bytes;
pub mod catalog;
pub mod cache;
pub mod factory;
pub mod globals;
pub mod host;
pub mod registry;
pub mod util;
pub mod vtable;
