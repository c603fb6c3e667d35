//! Declarative catalogs of the native interfaces: per-interface
//! descriptor tables naming where each logical method lives in its
//! virtual table, and the plain layouts of foreign structures the
//! interfaces traffic in.
//!
//! Slot numbers encode undocumented, binary-version-specific ABI
//! knowledge: they are versioned configuration data keyed by the target
//! binary, not code, and are meaningless against a mismatched binary
//! revision.  Each table here is checked against the numbers documented
//! for its revision; using a table against the wrong revision is
//! undefined by design and cannot be detected by this layer.

pub mod common;
pub mod cvar;
pub mod lua;
pub mod materials;
pub mod mdl;
pub mod net;
pub mod panel;
