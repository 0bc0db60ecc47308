//! Core of a deterministic simulation engine for AI agents: a pooled process
//! runtime, a work-stealing scheduler, an intercepting proxy's routing and
//! certificate logic, and a low-overhead event recorder.
//!
//! Everything here is checked by Verus against the contracts it states. The
//! parts that talk to the operating system (processes, sockets, files, the
//! metadata database) live with the host program, which feeds this library
//! plain values and acts on the plain values it hands back.

pub mod agent;
pub mod compressor;
pub mod error;
pub mod event;
pub mod exporter;
pub mod interceptor;
pub mod limits;
pub mod pool;
pub mod process;
pub mod queue;
pub mod recorder;
pub mod routing;
pub mod sandbox;
pub mod scheduler;
pub mod shims;
pub mod storage;
pub mod syscall;
pub mod text;
pub mod tls;

use vstd::prelude::*;

verus! {

/// Version of this engine.
pub const VERSION: &'static str = "0.1.0";

/// Revision of the sources the engine was built from, when known.
pub const GIT_HASH: &'static str = "unknown";

/// Engine build information.
pub struct BuildInfo {
    pub version: &'static str,
    pub git_hash: &'static str,
    pub build_timestamp: &'static str,
    pub rustc_version: &'static str,
}

impl BuildInfo {
    /// Build information of this engine.
    pub fn current() -> (r: Self)
        ensures
            r.version@ == VERSION@,
            r.git_hash@ == GIT_HASH@,
    {
        BuildInfo {
            version: VERSION,
            git_hash: GIT_HASH,
            build_timestamp: "unknown",
            rustc_version: "unknown",
        }
    }
}

} // verus!
