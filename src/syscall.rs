//! Syscall interception through a preloaded library (Linux).
//!
//! Whether a candidate library exists is a question for the filesystem, so
//! the host probes the paths this module names and passes the answers in.

use vstd::prelude::*;
use crate::error::EngineError;
use std::time::Instant;

verus! {

/// Syscall interceptor configuration.
#[derive(Debug, Clone)]
pub struct SyscallConfig {
    /// Intercept network syscalls.
    pub intercept_network: bool,
    /// Intercept file I/O; invasive, so off by default.
    pub intercept_file_io: bool,
    /// Intercept time syscalls, for determinism.
    pub intercept_time: bool,
    /// Path of the preload library, when configured.
    pub preload_library_path: Option<String>,
}

impl Default for SyscallConfig {
    fn default() -> (r: Self)
        ensures
            r.intercept_network,
            !r.intercept_file_io,
            r.intercept_time,
            r.preload_library_path is None,
    {
        SyscallConfig {
            intercept_network: true,
            intercept_file_io: false,
            intercept_time: true,
            preload_library_path: None,
        }
    }
}

/// Where the preload library is looked for when none is configured, in
/// order.
pub open spec fn standard_paths() -> Seq<Seq<char>> {
    seq![
        "/usr/lib/sentra-lab/libinterceptor.so"@,
        "/usr/local/lib/sentra-lab/libinterceptor.so"@,
        "./target/release/libinterceptor.so"@,
    ]
}

/// The standard locations of the preload library, in search order.
pub fn standard_preload_paths() -> (r: Vec<&'static str>)
    ensures
        r@.len() == 3,
        forall|k: int| 0 <= k < 3 ==> (#[trigger] r@[k])@ == standard_paths()[k],
{
    vec![
        "/usr/lib/sentra-lab/libinterceptor.so",
        "/usr/local/lib/sentra-lab/libinterceptor.so",
        "./target/release/libinterceptor.so",
    ]
}

/// Index of the first `true` in `found`, if any.
pub open spec fn first_found(found: Seq<bool>) -> Option<int> {
    if exists|k: int| 0 <= k < found.len() && found[k] {
        Some(choose|k: int| 0 <= k < found.len() && found[k] && forall|j: int| 0 <= j < k ==> !found[j])
    } else {
        None
    }
}

/// Syscall interceptor.
pub struct SyscallInterceptor {
    config: SyscallConfig,
}

/// Intercepted syscall families.
#[derive(Debug, Clone, Copy, PartialEq, Eq, Structural)]
pub enum SyscallType {
    Network,
    FileIO,
    Time,
}

/// One intercepted syscall, for recording.
#[derive(Debug)]
pub struct SyscallEvent {
    pub syscall_type: SyscallType,
    pub name: String,
    pub args: Vec<String>,
    pub return_value: i64,
    pub timestamp: Instant,
}

impl SyscallInterceptor {
    pub closed spec fn config_spec(&self) -> SyscallConfig {
        self.config
    }

    pub fn new(config: SyscallConfig) -> (r: Self)
        ensures
            r.config_spec() == config,
    {
        SyscallInterceptor { config }
    }

    /// The configuration in use.
    pub fn config(&self) -> (r: &SyscallConfig)
        ensures
            *r == self.config_spec(),
    {
        &self.config
    }

    /// The library to preload. A configured path is used if it exists and
    /// is an `InterceptionFailed` error if not. Without one, the first
    /// standard location that exists is used, and none at all means no
    /// preloading. `configured_exists` answers for the configured path;
    /// `found[k]` for the `k`-th standard location.
    pub fn get_preload_env(&self, configured_exists: bool, found: &Vec<bool>) -> (r: Result<
        Option<String>,
        EngineError,
    >)
        requires
            found@.len() == 3,
        ensures
            self.config_spec().preload_library_path matches Some(p) ==> (if configured_exists {
                r matches Ok(Some(q)) && q@ == p@
            } else {
                r matches Err(e) && e is InterceptionFailed
            }),
            self.config_spec().preload_library_path is None ==> match first_found(found@) {
                Some(k) => r matches Ok(Some(q)) && q@ == standard_paths()[k],
                None => r matches Ok(None),
            },
    {
        match &self.config.preload_library_path {
            Some(path) => {
                if configured_exists {
                    Ok(Some(path.clone()))
                } else {
                    Err(EngineError::InterceptionFailed("Preload library not found".to_string()))
                }
            },
            None => {
                assert(self.config.preload_library_path is None);
                let paths = standard_preload_paths();
                let mut k: usize = 0;
                while k < 3
                    invariant
                        k <= 3,
                        self.config.preload_library_path is None,
                        found@.len() == 3,
                        paths@.len() == 3,
                        forall|i: int| 0 <= i < 3 ==> (#[trigger] paths@[i])@ == standard_paths()[i],
                        forall|j: int| 0 <= j < k ==> !found@[j],
                    decreases 3 - k,
                {
                    if found[k] {
                        proof {
                            let c = choose|c: int| 0 <= c < found@.len() && found@[c] && forall|j: int| 0 <= j < c ==> !found@[j];
                            assert(c == k) by {
                                if c < k {
                                    assert(!found@[c]);
                                }
                                if c > k {
                                    assert(!found@[k as int]);
                                }
                            }
                        }
                        return Ok(Some(paths[k].to_string()));
                    }
                    k = k + 1;
                }
                Ok(None)
            },
        }
    }

    /// Whether a preload library is available.
    pub fn is_available(&self, configured_exists: bool, found: &Vec<bool>) -> (r: bool)
        requires
            found@.len() == 3,
        ensures
            self.config_spec().preload_library_path is Some ==> r == configured_exists,
            self.config_spec().preload_library_path is None ==> r == first_found(found@) is Some,
    {
        match self.get_preload_env(configured_exists, found) {
            Ok(Some(_)) => true,
            _ => false,
        }
    }

    /// Environment for a spawned agent: `LD_PRELOAD` when a library is to
    /// be preloaded, then a flag for each enabled interception family.
    pub fn get_env_vars(&self, preload: Option<String>) -> (r: Vec<(String, String)>)
        ensures
            r@.len() == (if preload is Some { 1int } else { 0 }) + (if self.config_spec().intercept_network { 1int } else { 0 })
                + (if self.config_spec().intercept_file_io { 1int } else { 0 }) + (if self.config_spec().intercept_time { 1int } else { 0 }),
            preload matches Some(p) ==> r@[0].0@ == "LD_PRELOAD"@ && r@[0].1@ == p@,
            self.config_spec().intercept_network ==> exists|k: int| 0 <= k < r@.len() && (#[trigger] r@[k]).0@ == "SENTRA_INTERCEPT_NETWORK"@,
            self.config_spec().intercept_time ==> exists|k: int| 0 <= k < r@.len() && (#[trigger] r@[k]).0@ == "SENTRA_INTERCEPT_TIME"@,
            self.config_spec().intercept_file_io ==> exists|k: int| 0 <= k < r@.len() && (#[trigger] r@[k]).0@ == "SENTRA_INTERCEPT_FILE_IO"@,
            forall|k: int| 0 <= k < r@.len() && (#[trigger] r@[k]).0@ != "LD_PRELOAD"@ ==> r@[k].1@ == "1"@,
    {
        proof {
            reveal_strlit("LD_PRELOAD");
            reveal_strlit("SENTRA_INTERCEPT_NETWORK");
            reveal_strlit("SENTRA_INTERCEPT_FILE_IO");
            reveal_strlit("SENTRA_INTERCEPT_TIME");
        }
        let mut env: Vec<(String, String)> = Vec::new();
        if let Some(p) = preload {
            env.push(("LD_PRELOAD".to_string(), p));
        }
        let ghost after_preload = env@.len();
        if self.config.intercept_network {
            env.push(("SENTRA_INTERCEPT_NETWORK".to_string(), "1".to_string()));
            assert(env@[after_preload as int].0@ == "SENTRA_INTERCEPT_NETWORK"@);
        }
        let ghost after_net = env@;
        if self.config.intercept_file_io {
            env.push(("SENTRA_INTERCEPT_FILE_IO".to_string(), "1".to_string()));
            assert(env@[after_net.len() as int].0@ == "SENTRA_INTERCEPT_FILE_IO"@);
        }
        let ghost after_io = env@;
        if self.config.intercept_time {
            env.push(("SENTRA_INTERCEPT_TIME".to_string(), "1".to_string()));
            assert(env@[after_io.len() as int].0@ == "SENTRA_INTERCEPT_TIME"@);
        }
        proof {
            if self.config.intercept_network {
                assert(env@[after_preload as int] == after_net[after_preload as int]);
                if self.config.intercept_file_io {
                    assert(after_io[after_preload as int] == after_net[after_preload as int]);
                }
            }
            if self.config.intercept_file_io {
                assert(env@[after_net.len() as int] == after_io[after_net.len() as int]);
            }
        }
        env
    }
}

impl Default for SyscallInterceptor {
    fn default() -> (r: Self)
        ensures
            r.config_spec().intercept_network && !r.config_spec().intercept_file_io && r.config_spec().intercept_time,
            r.config_spec().preload_library_path is None,
    {
        SyscallInterceptor::new(SyscallConfig::default())
    }
}

} // verus!
