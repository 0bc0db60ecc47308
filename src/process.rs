//! Interpreter kinds and the cache of where their executables live.

use vstd::prelude::*;
use crate::error::EngineError;

verus! {

/// The closed set of interpreter kinds.
#[derive(Debug, Clone, Copy, PartialEq, Eq, Hash, Structural)]
pub enum ProcessType {
    Python,
    NodeJs,
    Go,
}

pub open spec fn command_of(t: ProcessType) -> Seq<char> {
    match t {
        ProcessType::Python => "python3"@,
        ProcessType::NodeJs => "node"@,
        ProcessType::Go => "go"@,
    }
}

pub open spec fn extension_of(t: ProcessType) -> Seq<char> {
    match t {
        ProcessType::Python => "py"@,
        ProcessType::NodeJs => "js"@,
        ProcessType::Go => "go"@,
    }
}

impl ProcessType {
    /// The executable looked up on PATH.
    pub fn command(&self) -> (r: &'static str)
        ensures
            r@ == command_of(*self),
    {
        match self {
            ProcessType::Python => "python3",
            ProcessType::NodeJs => "node",
            ProcessType::Go => "go",
        }
    }

    /// Arguments that put the interpreter in an interactive, line-buffered
    /// mode: `-u -i` for Python, `-i` for Node.js, `run` for Go.
    pub fn default_args(&self) -> (r: Vec<&'static str>)
        ensures
            *self == ProcessType::Python ==> r@.len() == 2 && r@[0]@ == "-u"@ && r@[1]@ == "-i"@,
            *self == ProcessType::NodeJs ==> r@.len() == 1 && r@[0]@ == "-i"@,
            *self == ProcessType::Go ==> r@.len() == 1 && r@[0]@ == "run"@,
    {
        match self {
            ProcessType::Python => vec!["-u", "-i"],
            ProcessType::NodeJs => vec!["-i"],
            ProcessType::Go => vec!["run"],
        }
    }

    /// Source file suffix.
    pub fn extension(&self) -> (r: &'static str)
        ensures
            r@ == extension_of(*self),
    {
        match self {
            ProcessType::Python => "py",
            ProcessType::NodeJs => "js",
            ProcessType::Go => "go",
        }
    }
}

/// How to start one interpreter child.
#[derive(Debug, Clone)]
pub struct SpawnConfig {
    pub process_type: ProcessType,
    /// Working directory of the child.
    pub work_dir: Option<String>,
    /// Environment given to the child.
    pub env_vars: Vec<(String, String)>,
    /// Execution timeout in seconds.
    pub timeout_secs: u64,
}

impl Default for SpawnConfig {
    fn default() -> (r: Self)
        ensures
            r.process_type == ProcessType::Python,
            r.work_dir is None,
            r.env_vars@.len() == 0,
            r.timeout_secs == 300,
    {
        SpawnConfig {
            process_type: ProcessType::Python,
            work_dir: None,
            env_vars: Vec::new(),
            timeout_secs: 300,
        }
    }
}

/// Relies on `which::which`: searches the directories on PATH for an
/// executable of that name. What it finds depends on the environment and
/// the disk, so nothing is promised of it.
#[verifier::external_body]
fn search_path(command: &str) -> (r: Option<String>) {
    match which::which(command) {
        Ok(path) => Some(path.to_string_lossy().into_owned()),
        Err(_) => None,
    }
}

/// Finds interpreter executables on first use and remembers them per kind.
pub struct ProcessManager {
    executable_paths: Vec<(ProcessType, String)>,
}

/// The cached path of kind `t`, if any.
pub open spec fn cached(paths: Seq<(ProcessType, String)>, t: ProcessType) -> Option<Seq<char>>
    decreases paths.len(),
{
    if paths.len() == 0 {
        None
    } else if paths[0].0 == t {
        Some(paths[0].1@)
    } else {
        cached(paths.drop_first(), t)
    }
}

impl ProcessManager {
    pub closed spec fn cache(&self) -> Seq<(ProcessType, String)> {
        self.executable_paths@
    }

    pub fn new() -> (r: Self)
        ensures
            r.cache().len() == 0,
    {
        ProcessManager { executable_paths: Vec::new() }
    }

    /// The cached executable of `process_type`, if it was found before.
    pub fn cached_executable(&self, process_type: ProcessType) -> (r: Option<String>)
        ensures
            r matches Some(p) ==> cached(self.cache(), process_type) == Some(p@),
            r is None ==> cached(self.cache(), process_type) is None,
    {
        let mut k: usize = 0;
        assert(self.executable_paths@.skip(0) =~= self.executable_paths@);
        while k < self.executable_paths.len()
            invariant
                k <= self.executable_paths@.len(),
                cached(self.executable_paths@, process_type) == cached(
                    self.executable_paths@.skip(k as int),
                    process_type,
                ),
            decreases self.executable_paths@.len() - k,
        {
            let ghost rest = self.executable_paths@.skip(k as int);
            assert(rest.drop_first() =~= self.executable_paths@.skip(k + 1));
            if self.executable_paths[k].0 == process_type {
                return Some(self.executable_paths[k].1.clone());
            }
            k = k + 1;
        }
        assert(self.executable_paths@.skip(k as int).len() == 0);
        None
    }

    /// Takes the outcome of a PATH search for `process_type`: a found path
    /// is cached and returned; nothing found is `ProcessSpawnFailed`.
    pub fn record_search(&mut self, process_type: ProcessType, found: Option<String>) -> (r: Result<
        String,
        EngineError,
    >)
        requires
            cached(old(self).cache(), process_type) is None,
        ensures
            found matches Some(p) ==> (r matches Ok(q) && q@ == p@ && cached(
                final(self).cache(),
                process_type,
            ) == Some(p@)),
            found is None ==> (r matches Err(e) && e is ProcessSpawnFailed && final(self).cache()
                == old(self).cache()),
    {
        match found {
            Some(path) => {
                let ghost before = self.executable_paths@;
                self.executable_paths.insert(0, (process_type, path.clone()));
                assert(self.executable_paths@[0] == (process_type, path));
                Ok(path)
            },
            None => Err(EngineError::ProcessSpawnFailed("Executable not found in PATH".to_string())),
        }
    }

    /// The executable of `process_type`: from the cache, or else searched
    /// for on PATH and cached when found.
    pub fn find_executable(&mut self, process_type: ProcessType) -> (r: Result<String, EngineError>)
        ensures
            cached(old(self).cache(), process_type) matches Some(p) ==> (r matches Ok(q) && q@ == p
                && final(self).cache() == old(self).cache()),
            r matches Ok(q) ==> cached(final(self).cache(), process_type) == Some(q@),
            r matches Err(e) ==> e is ProcessSpawnFailed,
    {
        if let Some(path) = self.cached_executable(process_type) {
            return Ok(path);
        }
        let found = search_path(process_type.command());
        self.record_search(process_type, found)
    }
}

impl Default for ProcessManager {
    fn default() -> (r: Self)
        ensures
            r.cache().len() == 0,
    {
        ProcessManager::new()
    }
}

} // verus!
