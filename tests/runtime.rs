use sentra_lab_engine::agent::{frame_code, is_end, AgentRuntimeConfig, ResponseReader};
use sentra_lab_engine::error::EngineError;
use sentra_lab_engine::limits::{ResourceLimiter, ResourceLimits};
use sentra_lab_engine::pool::{initialize_plan, AgentPoolConfig, AgentSlots};
use sentra_lab_engine::process::{ProcessManager, ProcessType, SpawnConfig};
use sentra_lab_engine::sandbox::{Sandbox, SandboxConfig};
use sentra_lab_engine::scheduler::{Task, TaskPick, WorkStealingScheduler};
use sentra_lab_engine::{BuildInfo, VERSION};

#[test]
fn test_version() {
    assert!(!VERSION.is_empty());
}

#[test]
fn test_build_info() {
    let info = BuildInfo::current();
    assert!(!info.version.is_empty());
}

#[test]
fn test_process_type_command() {
    assert_eq!(ProcessType::Python.command(), "python3");
    assert_eq!(ProcessType::NodeJs.command(), "node");
    assert_eq!(ProcessType::Go.command(), "go");
}

#[test]
fn test_process_type_extension() {
    assert_eq!(ProcessType::Python.extension(), "py");
    assert_eq!(ProcessType::NodeJs.extension(), "js");
    assert_eq!(ProcessType::Go.extension(), "go");
}

#[test]
fn process_defaults_and_cache() {
    assert_eq!(ProcessType::Python.default_args(), vec!["-u", "-i"]);
    assert_eq!(ProcessType::Go.default_args(), vec!["run"]);
    assert_eq!(SpawnConfig::default().timeout_secs, 300);
    let mut m = ProcessManager::new();
    assert!(m.cached_executable(ProcessType::Go).is_none());
    let r = m.record_search(ProcessType::Go, None);
    assert!(matches!(r, Err(EngineError::ProcessSpawnFailed(_))));
    assert_eq!(m.record_search(ProcessType::Go, Some("/usr/bin/go".to_string())).unwrap(), "/usr/bin/go");
    assert_eq!(m.find_executable(ProcessType::Go).unwrap(), "/usr/bin/go");
}

#[test]
fn test_default_limits() {
    let limits = ResourceLimits::default();
    assert_eq!(limits.cpu_quota, Some(50));
    assert_eq!(limits.memory_limit_mb, Some(512));
    assert_eq!(limits.network_bandwidth_mbps, None);
}

#[test]
fn test_unlimited() {
    let limits = ResourceLimits::unlimited();
    assert!(limits.cpu_quota.is_none());
    assert!(limits.memory_limit_mb.is_none());
    assert!(limits.network_bandwidth_mbps.is_none());
}

#[test]
fn test_strict_limits() {
    let limits = ResourceLimits::strict();
    assert_eq!(limits.cpu_quota, Some(25));
    assert_eq!(limits.memory_limit_mb, Some(256));
    assert_eq!(limits.network_bandwidth_mbps, Some(10));
}

#[test]
fn test_validation() {
    let valid = ResourceLimits::default();
    assert!(valid.validate().is_ok());
    let invalid_cpu = ResourceLimits { cpu_quota: Some(0), ..Default::default() };
    assert!(invalid_cpu.validate().is_err());
    let invalid_memory = ResourceLimits { memory_limit_mb: Some(32), ..Default::default() };
    assert!(invalid_memory.validate().is_err());
}

#[test]
fn validation_edges() {
    let at = |c, m, b| ResourceLimits { cpu_quota: c, memory_limit_mb: m, network_bandwidth_mbps: b };
    assert!(at(Some(400), Some(16384), Some(10000)).validate().is_ok());
    assert!(at(Some(1), Some(64), Some(1)).validate().is_ok());
    assert!(at(Some(401), None, None).validate().is_err());
    assert!(at(None, Some(16385), None).validate().is_err());
    assert!(at(None, None, Some(0)).validate().is_err());
    assert!(at(None, None, Some(10001)).validate().is_err());
    assert!(ResourceLimits::relaxed().validate().is_ok());
}

#[test]
fn test_aggregate_limits() {
    let limiter = ResourceLimiter::default();
    let aggregate = limiter.aggregate_limits(10);
    assert_eq!(aggregate.memory_limit_mb, Some(5120));
    assert_eq!(aggregate.cpu_quota, Some(50));
}

#[test]
fn test_sandbox_creation() {
    let config = SandboxConfig::default();
    let sandbox = Sandbox::new(config);
    assert!(sandbox.is_ok());
}

#[test]
fn test_default_config() {
    let config = SandboxConfig::default();
    assert_eq!(config.cpu_quota, 50);
    assert_eq!(config.memory_limit_mb, 512);
    assert!(config.limit_cpu);
    assert!(config.limit_memory);
}

#[test]
fn sandbox_plans_cgroup_writes() {
    let sandbox = Sandbox::new(SandboxConfig::default()).unwrap();
    let plans = sandbox.apply_limits(4242);
    assert_eq!(plans.len(), 2);
    assert_eq!(plans[0].dir, "/sys/fs/cgroup/cpu/sentra-lab-4242");
    assert_eq!(plans[0].writes[0], ("cpu.cfs_quota_us".to_string(), "50000".to_string()));
    assert_eq!(plans[0].writes[1], ("cpu.cfs_period_us".to_string(), "100000".to_string()));
    assert_eq!(plans[0].writes[2], ("cgroup.procs".to_string(), "4242".to_string()));
    assert_eq!(plans[1].dir, "/sys/fs/cgroup/memory/sentra-lab-4242");
    assert_eq!(plans[1].writes[0], ("memory.limit_in_bytes".to_string(), "536870912".to_string()));
    assert_eq!(sandbox.cleanup(7), vec!["/sys/fs/cgroup/cpu/sentra-lab-7".to_string(), "/sys/fs/cgroup/memory/sentra-lab-7".to_string()]);
    let bad = Sandbox::new(SandboxConfig { cpu_quota: 0, ..SandboxConfig::default() });
    assert!(matches!(bad, Err(EngineError::ConfigError(_))));
    let none = Sandbox::new(SandboxConfig { limit_cpu: false, limit_memory: false, ..SandboxConfig::default() }).unwrap();
    assert!(none.apply_limits(1).is_empty());
}

#[test]
fn pool_plan_splits_evenly() {
    let plan = initialize_plan(&AgentPoolConfig::default());
    assert_eq!(plan.len(), 64);
    assert_eq!(plan[0].id, 1);
    assert_eq!(plan[0].process_type, ProcessType::Python);
    assert_eq!(plan[21].process_type, ProcessType::Python);
    assert_eq!(plan[22].process_type, ProcessType::NodeJs);
    assert_eq!(plan[42].process_type, ProcessType::NodeJs);
    assert_eq!(plan[43].process_type, ProcessType::Go);
    assert_eq!(plan[63].id, 64);
    assert_eq!(plan[63].process_type, ProcessType::Go);
    let four = AgentPoolConfig { pool_size: 4, supported_types: vec![ProcessType::Python], ..AgentPoolConfig::default() };
    assert_eq!(initialize_plan(&four).len(), 4);
    let two = AgentPoolConfig { pool_size: 2, ..AgentPoolConfig::default() };
    let small = initialize_plan(&two);
    assert_eq!(small.len(), 2);
    assert_eq!(small[1].process_type, ProcessType::NodeJs);
}

#[test]
fn pool_acquire_release_accounting() {
    let mut slots = AgentSlots::new(vec![1u32, 2, 3, 4]);
    let a = slots.acquire().unwrap();
    let s = slots.stats(100);
    assert_eq!((s.total_agents, s.available_agents, s.busy_agents), (4, 3, 1));
    slots.release(a, Ok(())).unwrap();
    let s = slots.stats(100);
    assert_eq!((s.total_agents, s.available_agents, s.busy_agents), (4, 4, 0));
    let b = slots.acquire().unwrap();
    let r = slots.release(b, Err(EngineError::RuntimeError("reset".to_string())));
    assert!(matches!(r, Err(EngineError::RuntimeError(_))));
    let s = slots.stats(100);
    assert_eq!((s.total_agents, s.available_agents, s.busy_agents), (3, 3, 0));
}

#[test]
fn pool_reports_exhaustion() {
    let mut slots = AgentSlots::new(vec![7u8]);
    let held = slots.acquire().unwrap();
    assert!(matches!(slots.acquire(), Err(EngineError::PoolExhausted)));
    slots.release(held, Ok(())).unwrap();
    assert_eq!(slots.acquire().unwrap(), 7);
}

#[test]
fn test_scheduler_creation() {
    let scheduler = WorkStealingScheduler::new(4);
    let stats = scheduler.stats();
    assert_eq!(stats.num_workers, 4);
    assert_eq!(stats.total_tasks, 0);
}

#[test]
fn test_task_submission() {
    let mut scheduler = WorkStealingScheduler::new(4);
    let task = Task::new("task1".to_string(), "print('hello')".to_string());
    scheduler.submit(task);
    let stats = scheduler.stats();
    assert_eq!(stats.total_tasks, 1);
}

#[test]
fn test_batch_submission() {
    let mut scheduler = WorkStealingScheduler::new(4);
    let tasks: Vec<Task> = (0..10).map(|i| Task::new(format!("task{}", i), "code".to_string())).collect();
    let wake = scheduler.submit_batch(tasks);
    let stats = scheduler.stats();
    assert_eq!(stats.total_tasks, 10);
    assert_eq!(wake, 4);
}

#[test]
fn test_get_task() {
    let mut scheduler = WorkStealingScheduler::new(4);
    let task = Task::new("task1".to_string(), "print('hello')".to_string());
    scheduler.submit(task.clone());
    let retrieved = loop {
        match scheduler.get_task(0) {
            TaskPick::Task(t) => break Some(t),
            TaskPick::Retry => continue,
            TaskPick::Empty => break None,
        }
    };
    assert!(retrieved.is_some());
    assert_eq!(retrieved.unwrap().id, task.id);
}

#[test]
fn scheduler_drains_every_submitted_task_once() {
    let mut scheduler = WorkStealingScheduler::new(4);
    let tasks: Vec<Task> = (0..1000u32).map(|i| Task::new(format!("t{}", i), String::new()).with_priority(i % 3)).collect();
    scheduler.submit_batch(tasks);
    let mut seen = vec![false; 1000];
    let mut served = [0usize; 4];
    let mut worker = 0;
    loop {
        match scheduler.get_task(worker) {
            TaskPick::Task(t) => {
                let n: usize = t.id[1..].parse().unwrap();
                assert!(!seen[n]);
                seen[n] = true;
                served[worker] += 1;
                worker = (worker + 1) % 4;
            }
            TaskPick::Retry => {}
            TaskPick::Empty => break,
        }
    }
    assert!(seen.iter().all(|s| *s));
    assert!(served.iter().filter(|n| **n > 0).count() >= 2);
    assert_eq!(scheduler.stats().total_tasks, 0);
}

#[test]
fn stdio_framing_round_trip() {
    assert_eq!(frame_code("print(1)"), "print(1)\n__END__\n");
    assert!(is_end("__END__\n"));
    assert!(is_end("__END__\r\n"));
    assert!(is_end("__END__"));
    assert!(!is_end(" __END__\n"));
    let mut reader = ResponseReader::new();
    assert!(!reader.feed("hello\n"));
    assert!(!reader.feed("world\n"));
    assert!(reader.feed("__END__\n"));
    assert!(reader.feed("late\n"));
    assert_eq!(reader.output(), "hello\nworld\n");
    assert!(reader.is_done());
    assert_eq!(AgentRuntimeConfig::default().timeout_secs, 300);
}

#[test]
fn error_kinds_have_stable_names() {
    assert_eq!(EngineError::ExecutionTimeout.kind_name(), "execution-timeout");
    assert_eq!(EngineError::PoolExhausted.kind_name(), "pool-exhausted");
    assert_eq!(EngineError::ExportFailed("x".to_string()).kind_name(), "export-failed");
    assert_eq!(EngineError::StorageFailed("disk".to_string()).message(), "storage-failed: disk");
    assert_eq!(EngineError::InterceptionFailed(String::new()).kind_name(), "interception-failed");
}
