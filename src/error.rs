//! The engine's closed set of error kinds, each with a stable name.

use vstd::prelude::*;

verus! {

/// Errors surfaced to callers of the engine.
#[derive(Debug, Clone)]
pub enum EngineError {
    /// Proxy bind, upstream forward, or TLS setup failed.
    InterceptionFailed(String),
    /// Invalid route, missing CA material, bad resource caps.
    ConfigError(String),
    /// The codec rejected its input or output.
    CompressionFailed(String),
    /// A directory, file, or index operation failed.
    StorageFailed(String),
    /// The event queue was full, or an event could not be serialized.
    RecordingFailed(String),
    /// An output document could not be emitted.
    ExportFailed(String),
    /// Executable lookup or spawn failed.
    ProcessSpawnFailed(String),
    /// A stdio protocol IO failure.
    RuntimeError(String),
    /// The configured per-task timeout elapsed.
    ExecutionTimeout,
    /// The pool's semaphore was closed or an internal invariant broke.
    PoolExhausted,
}

/// The stable name of each error kind.
pub open spec fn kind_name_spec(e: EngineError) -> Seq<char> {
    match e {
        EngineError::InterceptionFailed(_) => "interception-failed"@,
        EngineError::ConfigError(_) => "config-error"@,
        EngineError::CompressionFailed(_) => "compression-failed"@,
        EngineError::StorageFailed(_) => "storage-failed"@,
        EngineError::RecordingFailed(_) => "recording-failed"@,
        EngineError::ExportFailed(_) => "export-failed"@,
        EngineError::ProcessSpawnFailed(_) => "process-spawn-failed"@,
        EngineError::RuntimeError(_) => "runtime-error"@,
        EngineError::ExecutionTimeout => "execution-timeout"@,
        EngineError::PoolExhausted => "pool-exhausted"@,
    }
}

/// The detail text an error carries, if any.
pub open spec fn detail_spec(e: EngineError) -> Option<Seq<char>> {
    match e {
        EngineError::InterceptionFailed(d) => Some(d@),
        EngineError::ConfigError(d) => Some(d@),
        EngineError::CompressionFailed(d) => Some(d@),
        EngineError::StorageFailed(d) => Some(d@),
        EngineError::RecordingFailed(d) => Some(d@),
        EngineError::ExportFailed(d) => Some(d@),
        EngineError::ProcessSpawnFailed(d) => Some(d@),
        EngineError::RuntimeError(d) => Some(d@),
        EngineError::ExecutionTimeout => None,
        EngineError::PoolExhausted => None,
    }
}

impl EngineError {
    /// The stable, string-valued name of this error's kind.
    pub fn kind_name(&self) -> (r: &'static str)
        ensures
            r@ == kind_name_spec(*self),
    {
        match self {
            EngineError::InterceptionFailed(_) => "interception-failed",
            EngineError::ConfigError(_) => "config-error",
            EngineError::CompressionFailed(_) => "compression-failed",
            EngineError::StorageFailed(_) => "storage-failed",
            EngineError::RecordingFailed(_) => "recording-failed",
            EngineError::ExportFailed(_) => "export-failed",
            EngineError::ProcessSpawnFailed(_) => "process-spawn-failed",
            EngineError::RuntimeError(_) => "runtime-error",
            EngineError::ExecutionTimeout => "execution-timeout",
            EngineError::PoolExhausted => "pool-exhausted",
        }
    }

    /// A one-line description: the kind's name, then its detail if any.
    pub fn message(&self) -> (r: String)
        ensures
            r@ == match detail_spec(*self) {
                Some(d) => kind_name_spec(*self) + ": "@ + d,
                None => kind_name_spec(*self),
            },
    {
        let mut out = self.kind_name().to_string();
        match self {
            EngineError::InterceptionFailed(d) | EngineError::ConfigError(d)
            | EngineError::CompressionFailed(d) | EngineError::StorageFailed(d)
            | EngineError::RecordingFailed(d) | EngineError::ExportFailed(d)
            | EngineError::ProcessSpawnFailed(d) | EngineError::RuntimeError(d) => {
                out.append(": ");
                out.append(d.as_str());
            },
            EngineError::ExecutionTimeout | EngineError::PoolExhausted => {},
        }
        out
    }
}

} // verus!
