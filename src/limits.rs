//! Resource caps for agent processes: CPU quota, memory, bandwidth.

use vstd::prelude::*;

verus! {

/// Smallest and largest accepted CPU quota, in percent of one core.
pub const CPU_QUOTA_MIN: u32 = 1;
pub const CPU_QUOTA_MAX: u32 = 400;
/// Smallest and largest accepted memory cap, in megabytes.
pub const MEMORY_MB_MIN: u64 = 64;
pub const MEMORY_MB_MAX: u64 = 16384;
/// Smallest and largest accepted bandwidth cap, in megabits per second.
pub const BANDWIDTH_MBPS_MIN: u32 = 1;
pub const BANDWIDTH_MBPS_MAX: u32 = 10000;

/// Resource limits for an agent process. `None` means "no cap".
#[derive(Debug, Clone, Copy, PartialEq, Eq, Structural)]
pub struct ResourceLimits {
    /// CPU quota as a percentage of one core (50 = half a core).
    pub cpu_quota: Option<u32>,
    /// Memory limit in megabytes.
    pub memory_limit_mb: Option<u64>,
    /// Network bandwidth limit in Mbps.
    pub network_bandwidth_mbps: Option<u32>,
}

impl ResourceLimits {
    /// Every cap that is set lies in its accepted range.
    pub open spec fn is_valid(self) -> bool {
        &&& (self.cpu_quota matches Some(q) ==> CPU_QUOTA_MIN <= q <= CPU_QUOTA_MAX)
        &&& (self.memory_limit_mb matches Some(m) ==> MEMORY_MB_MIN <= m <= MEMORY_MB_MAX)
        &&& (self.network_bandwidth_mbps matches Some(b) ==> BANDWIDTH_MBPS_MIN <= b
            <= BANDWIDTH_MBPS_MAX)
    }

    /// No restriction at all.
    pub fn unlimited() -> (r: Self)
        ensures
            r.cpu_quota is None,
            r.memory_limit_mb is None,
            r.network_bandwidth_mbps is None,
    {
        ResourceLimits { cpu_quota: None, memory_limit_mb: None, network_bandwidth_mbps: None }
    }

    /// Strict limits, for untrusted code: a quarter core, 256 MB, 10 Mbps.
    pub fn strict() -> (r: Self)
        ensures
            r.cpu_quota == Some(25u32),
            r.memory_limit_mb == Some(256u64),
            r.network_bandwidth_mbps == Some(10u32),
    {
        ResourceLimits {
            cpu_quota: Some(25),
            memory_limit_mb: Some(256),
            network_bandwidth_mbps: Some(10),
        }
    }

    /// Relaxed limits, for development: a full core, 2 GB, no bandwidth cap.
    pub fn relaxed() -> (r: Self)
        ensures
            r.cpu_quota == Some(100u32),
            r.memory_limit_mb == Some(2048u64),
            r.network_bandwidth_mbps is None,
    {
        ResourceLimits {
            cpu_quota: Some(100),
            memory_limit_mb: Some(2048),
            network_bandwidth_mbps: None,
        }
    }

    /// Checks every cap against its range; the error says which one is off.
    pub fn validate(&self) -> (r: Result<(), String>)
        ensures
            r is Ok <==> self.is_valid(),
    {
        if let Some(quota) = self.cpu_quota {
            if quota == 0 {
                return Err("CPU quota cannot be 0".to_string());
            }
            if quota > CPU_QUOTA_MAX {
                return Err("CPU quota cannot exceed 400% (4 cores)".to_string());
            }
        }
        if let Some(memory) = self.memory_limit_mb {
            if memory < MEMORY_MB_MIN {
                return Err("Memory limit cannot be less than 64MB".to_string());
            }
            if memory > MEMORY_MB_MAX {
                return Err("Memory limit cannot exceed 16GB".to_string());
            }
        }
        if let Some(bandwidth) = self.network_bandwidth_mbps {
            if bandwidth == 0 {
                return Err("Network bandwidth cannot be 0".to_string());
            }
            if bandwidth > BANDWIDTH_MBPS_MAX {
                return Err("Network bandwidth cannot exceed 10 Gbps".to_string());
            }
        }
        Ok(())
    }
}

impl Default for ResourceLimits {
    /// Half a core and 512 MB; bandwidth is left open for the local mocks.
    fn default() -> (r: Self)
        ensures
            r.cpu_quota == Some(50u32),
            r.memory_limit_mb == Some(512u64),
            r.network_bandwidth_mbps is None,
    {
        ResourceLimits { cpu_quota: Some(50), memory_limit_mb: Some(512), network_bandwidth_mbps: None }
    }
}

/// Applies one set of limits to many processes and reports their sum.
pub struct ResourceLimiter {
    default_limits: ResourceLimits,
}

impl ResourceLimiter {
    /// The limits each process receives.
    pub closed spec fn limits(&self) -> ResourceLimits {
        self.default_limits
    }

    pub fn new(default_limits: ResourceLimits) -> (r: Self)
        ensures
            r.limits() == default_limits,
    {
        ResourceLimiter { default_limits }
    }

    pub fn default_limits(&self) -> (r: &ResourceLimits)
        ensures
            *r == self.limits(),
    {
        &self.default_limits
    }

    /// What `num_agents` processes may use together: memory scales with the
    /// count; the CPU quota is per process and bandwidth is shared, so
    /// neither aggregates.
    pub fn aggregate_limits(&self, num_agents: usize) -> (r: ResourceLimits)
        requires
            self.limits().memory_limit_mb matches Some(m) ==> m * num_agents <= u64::MAX,
        ensures
            r.cpu_quota == self.limits().cpu_quota,
            r.network_bandwidth_mbps == self.limits().network_bandwidth_mbps,
            r.memory_limit_mb == match self.limits().memory_limit_mb {
                Some(m) => Some((m * num_agents) as u64),
                None => None,
            },
    {
        let mut aggregate = self.default_limits;
        if let Some(memory) = aggregate.memory_limit_mb {
            aggregate.memory_limit_mb = Some(memory * num_agents as u64);
        }
        aggregate
    }
}

impl Default for ResourceLimiter {
    fn default() -> (r: Self)
        ensures
            r.limits() == (ResourceLimits {
                cpu_quota: Some(50u32),
                memory_limit_mb: Some(512u64),
                network_bandwidth_mbps: None,
            }),
    {
        ResourceLimiter::new(ResourceLimits::default())
    }
}

} // verus!
