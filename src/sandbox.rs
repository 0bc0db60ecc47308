//! Per-process resource caps through control groups.
//!
//! On platforms with a hierarchical resource-control filesystem each capped
//! process gets its own group per controller. This module says which
//! directories to create and which values to write where; the host performs
//! the writes on a best-effort basis and only logs what fails.

use vstd::prelude::*;
use crate::error::EngineError;
use crate::limits::ResourceLimits;
use crate::text::{decimal, push_decimal};

verus! {

/// Scheduling period written for the CPU controller, in microseconds.
pub const CPU_PERIOD_US: u64 = 100_000;

/// Sandbox configuration.
#[derive(Debug, Clone)]
pub struct SandboxConfig {
    pub limit_cpu: bool,
    /// CPU quota, percent of one core.
    pub cpu_quota: u32,
    pub limit_memory: bool,
    /// Memory cap in megabytes.
    pub memory_limit_mb: u64,
    pub isolate_network: bool,
    pub restrict_filesystem: bool,
    /// Paths the agent may read.
    pub read_paths: Vec<String>,
    /// Paths the agent may write.
    pub write_paths: Vec<String>,
}

impl Default for SandboxConfig {
    fn default() -> (r: Self)
        ensures
            r.limit_cpu && r.cpu_quota == 50,
            r.limit_memory && r.memory_limit_mb == 512,
            !r.isolate_network,
            r.restrict_filesystem,
            r.read_paths@.len() == 3 && r.read_paths@[0]@ == "/usr"@ && r.read_paths@[1]@ == "/lib"@
                && r.read_paths@[2]@ == "/etc"@,
            r.write_paths@.len() == 1 && r.write_paths@[0]@ == "/tmp"@,
    {
        SandboxConfig {
            limit_cpu: true,
            cpu_quota: 50,
            limit_memory: true,
            memory_limit_mb: 512,
            isolate_network: false,
            restrict_filesystem: true,
            read_paths: vec!["/usr".to_string(), "/lib".to_string(), "/etc".to_string()],
            write_paths: vec!["/tmp".to_string()],
        }
    }
}

/// The caps a sandbox configuration asks for.
pub open spec fn limits_of(config: SandboxConfig) -> ResourceLimits {
    ResourceLimits {
        cpu_quota: if config.limit_cpu { Some(config.cpu_quota) } else { None },
        memory_limit_mb: if config.limit_memory { Some(config.memory_limit_mb) } else { None },
        network_bandwidth_mbps: None,
    }
}

/// The group directory of `pid` under controller `controller`.
pub open spec fn cgroup_dir(controller: Seq<char>, pid: u32) -> Seq<char> {
    "/sys/fs/cgroup/"@ + controller + "/sentra-lab-"@ + decimal(pid as nat)
}

/// One control group to create and the files to write in it.
#[derive(Debug)]
pub struct CgroupPlan {
    /// Directory of the group.
    pub dir: String,
    /// File name in the group, and the text to write to it.
    pub writes: Vec<(String, String)>,
}

fn cgroup_dir_text(controller: &str, pid: u32) -> (r: String)
    ensures
        r@ == cgroup_dir(controller@, pid),
{
    let mut out = "/sys/fs/cgroup/".to_string();
    out.append(controller);
    out.append("/sentra-lab-");
    push_decimal(&mut out, pid as u64);
    out
}

fn number_text(n: u64) -> (r: String)
    ensures
        r@ == decimal(n as nat),
{
    let mut out = String::new();
    push_decimal(&mut out, n);
    assert(out@ =~= decimal(n as nat));
    out
}

/// Applies resource caps to processes.
pub struct Sandbox {
    config: SandboxConfig,
    resource_limits: ResourceLimits,
}

impl Sandbox {
    pub closed spec fn limits(&self) -> ResourceLimits {
        self.resource_limits
    }

    /// A sandbox for `config`; caps outside their accepted ranges are a
    /// `ConfigError`.
    pub fn new(config: SandboxConfig) -> (r: Result<Self, EngineError>)
        ensures
            r is Ok <==> limits_of(config).is_valid(),
            r matches Ok(s) ==> s.limits() == limits_of(config),
            r matches Err(e) ==> e is ConfigError,
    {
        let resource_limits = ResourceLimits {
            cpu_quota: if config.limit_cpu { Some(config.cpu_quota) } else { None },
            memory_limit_mb: if config.limit_memory { Some(config.memory_limit_mb) } else { None },
            network_bandwidth_mbps: None,
        };
        match resource_limits.validate() {
            Ok(()) => Ok(Sandbox { config, resource_limits }),
            Err(msg) => Err(EngineError::ConfigError(msg)),
        }
    }

    /// The groups to set up for `pid`: a CPU group when a CPU quota is
    /// set, then a memory group when a memory cap is set.
    pub fn apply_limits(&self, pid: u32) -> (r: Vec<CgroupPlan>)
        requires
            self.limits().is_valid(),
        ensures
            r@.len() == (if self.limits().cpu_quota is Some { 1int } else { 0 }) + (
            if self.limits().memory_limit_mb is Some { 1int } else { 0 }),
            self.limits().cpu_quota is Some ==> r@[0].dir@ == cgroup_dir("cpu"@, pid),
            self.limits().memory_limit_mb is Some ==> r@[r@.len() - 1].dir@ == cgroup_dir(
                "memory"@,
                pid,
            ),
    {
        let mut plans: Vec<CgroupPlan> = Vec::new();
        if let Some(quota) = self.resource_limits.cpu_quota {
            plans.push(self.apply_cpu_limit(pid, quota));
        }
        if let Some(limit) = self.resource_limits.memory_limit_mb {
            plans.push(self.apply_memory_limit(pid, limit));
        }
        plans
    }

    /// The CPU group of `pid`: quota `quota`% of the period, the period,
    /// and the process itself.
    pub fn apply_cpu_limit(&self, pid: u32, quota: u32) -> (r: CgroupPlan)
        ensures
            r.dir@ == cgroup_dir("cpu"@, pid),
            r.writes@.len() == 3,
            r.writes@[0].0@ == "cpu.cfs_quota_us"@,
            r.writes@[0].1@ == decimal((quota * CPU_PERIOD_US / 100) as nat),
            r.writes@[1].0@ == "cpu.cfs_period_us"@,
            r.writes@[1].1@ == decimal(CPU_PERIOD_US as nat),
            r.writes@[2].0@ == "cgroup.procs"@,
            r.writes@[2].1@ == decimal(pid as nat),
    {
        let quota_value = (quota as u64) * CPU_PERIOD_US / 100;
        let writes = vec![
            ("cpu.cfs_quota_us".to_string(), number_text(quota_value)),
            ("cpu.cfs_period_us".to_string(), number_text(CPU_PERIOD_US)),
            ("cgroup.procs".to_string(), number_text(pid as u64)),
        ];
        CgroupPlan { dir: cgroup_dir_text("cpu", pid), writes }
    }

    /// The memory group of `pid`: the cap in bytes, and the process
    /// itself.
    pub fn apply_memory_limit(&self, pid: u32, limit_mb: u64) -> (r: CgroupPlan)
        requires
            limit_mb * 1024 * 1024 <= u64::MAX,
        ensures
            r.dir@ == cgroup_dir("memory"@, pid),
            r.writes@.len() == 2,
            r.writes@[0].0@ == "memory.limit_in_bytes"@,
            r.writes@[0].1@ == decimal((limit_mb * 1024 * 1024) as nat),
            r.writes@[1].0@ == "cgroup.procs"@,
            r.writes@[1].1@ == decimal(pid as nat),
    {
        let limit_bytes = limit_mb * 1024 * 1024;
        let writes = vec![
            ("memory.limit_in_bytes".to_string(), number_text(limit_bytes)),
            ("cgroup.procs".to_string(), number_text(pid as u64)),
        ];
        CgroupPlan { dir: cgroup_dir_text("memory", pid), writes }
    }

    /// The group directories to remove once `pid` is gone.
    pub fn cleanup(&self, pid: u32) -> (r: Vec<String>)
        ensures
            r@.len() == 2,
            r@[0]@ == cgroup_dir("cpu"@, pid),
            r@[1]@ == cgroup_dir("memory"@, pid),
    {
        vec![cgroup_dir_text("cpu", pid), cgroup_dir_text("memory", pid)]
    }
}

} // verus!
