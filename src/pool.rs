//! Agent pool bookkeeping.
//!
//! The pool owns the idle agents; a borrower owns the agent it acquired
//! until it hands it back. Every agent is available, held by a borrower, or
//! retired after a failed reset, never two of these at once. The host pairs
//! each `acquire` with a semaphore permit, so permits held equal busy
//! agents.

use vstd::prelude::*;
use crate::error::EngineError;
use crate::process::ProcessType;

verus! {

/// Pool configuration.
#[derive(Debug, Clone)]
pub struct AgentPoolConfig {
    /// Agents in the pool.
    pub pool_size: usize,
    /// Most simulations in flight at once.
    pub max_concurrent: usize,
    /// Per-agent execution timeout, in seconds.
    pub agent_timeout_secs: u64,
    /// Interpreter kinds the pool is split across.
    pub supported_types: Vec<ProcessType>,
}

impl Default for AgentPoolConfig {
    fn default() -> (r: Self)
        ensures
            r.pool_size == 64,
            r.max_concurrent == 10_000,
            r.agent_timeout_secs == 300,
            r.supported_types@ == seq![ProcessType::Python, ProcessType::NodeJs, ProcessType::Go],
    {
        let supported_types = vec![ProcessType::Python, ProcessType::NodeJs, ProcessType::Go];
        AgentPoolConfig { pool_size: 64, max_concurrent: 10_000, agent_timeout_secs: 300, supported_types }
    }
}

/// Pool counters.
#[derive(Debug, Clone, Copy, PartialEq, Eq, Structural)]
pub struct PoolStats {
    pub total_agents: usize,
    pub available_agents: usize,
    pub busy_agents: usize,
    pub max_concurrent: usize,
}

/// One agent to start when the pool is built: its id and kind.
#[derive(Debug, Clone, Copy, PartialEq, Eq, Structural)]
pub struct AgentSpec {
    pub id: usize,
    pub process_type: ProcessType,
}

/// Plan position where kind number `t` starts when `base` agents go to
/// every kind and one more to each of the first `extra` kinds.
pub open spec fn kind_start(base: int, extra: int, t: int) -> int {
    t * base + if t < extra { t } else { extra }
}

proof fn lemma_kind_start_mono(b: int, e: int, u: int, v: int)
    requires
        0 <= u <= v,
        b >= 0,
    ensures
        kind_start(b, e, u) <= kind_start(b, e, v),
{
    assert(u * b <= v * b) by (nonlinear_arith)
        requires u <= v, b >= 0;
}

/// The agents to start for `config`: exactly `pool_size` of them, numbered
/// from 1, kind by kind in the configured order. Each kind gets
/// `pool_size / kinds` agents, and the first `pool_size % kinds` kinds one
/// more, so counts differ by at most one.
pub fn initialize_plan(config: &AgentPoolConfig) -> (r: Vec<AgentSpec>)
    requires
        config.supported_types@.len() > 0,
    ensures
        ({
            let n = config.supported_types@.len() as int;
            let base = config.pool_size as int / n;
            let extra = config.pool_size as int % n;
            &&& r@.len() == config.pool_size
            &&& kind_start(base, extra, n) == config.pool_size
            &&& forall|k: int| 0 <= k < r@.len() ==> (#[trigger] r@[k]).id == k + 1
            &&& forall|t: int, k: int|
                #![trigger r@[k], kind_start(base, extra, t)]
                0 <= t < n && kind_start(base, extra, t) <= k < kind_start(base, extra, t + 1)
                    ==> r@[k].process_type == config.supported_types@[t]
        }),
{
    let kinds = config.supported_types.len();
    let base = config.pool_size / kinds;
    let extra = config.pool_size % kinds;
    let ghost b = base as int;
    let ghost e = extra as int;
    proof {
        let p = config.pool_size as int;
        let n = kinds as int;
        assert(p == n * b + e) by (nonlinear_arith)
            requires n > 0, b == p / n, e == p % n;
        assert(kind_start(b, e, n) == p);
    }
    let mut plan: Vec<AgentSpec> = Vec::new();
    let mut t: usize = 0;
    while t < kinds
        invariant
            kinds == config.supported_types@.len(),
            kinds > 0,
            b == base as int,
            e == extra as int,
            e < kinds,
            kind_start(b, e, kinds as int) == config.pool_size,
            t <= kinds,
            plan@.len() == kind_start(b, e, t as int),
            forall|k: int| 0 <= k < plan@.len() ==> (#[trigger] plan@[k]).id == k + 1,
            forall|u: int, k: int|
                #![trigger plan@[k], kind_start(b, e, u)]
                0 <= u < t && kind_start(b, e, u) <= k < kind_start(b, e, u + 1)
                    ==> plan@[k].process_type == config.supported_types@[u],
        decreases kinds - t,
    {
        proof {
            let n = kinds as int;
            assert(n * b + e == config.pool_size);
            if e > 0 {
                assert(b + 1 <= config.pool_size) by (nonlinear_arith)
                    requires n * b + e == config.pool_size, e >= 1, n >= 1, b >= 0;
            }
        }
        let count = if t < extra { base + 1 } else { base };
        proof {
            let ti = t as int;
            assert((ti + 1) * b == ti * b + b) by (nonlinear_arith);
            assert(kind_start(b, e, ti + 1) == kind_start(b, e, ti) + count);
            assert((ti + 1) * b <= (kinds as int) * b) by (nonlinear_arith)
                requires ti + 1 <= kinds, b >= 0;
            assert(kind_start(b, e, ti + 1) <= kind_start(b, e, kinds as int));
        }
        let ghost start = plan@.len() as int;
        let mut i: usize = 0;
        while i < count
            invariant
                kinds == config.supported_types@.len(),
                t < kinds,
                b == base as int,
                e == extra as int,
                i <= count,
                start == kind_start(b, e, t as int),
                start + count <= config.pool_size,
                plan@.len() == start + i,
                forall|k: int| 0 <= k < plan@.len() ==> (#[trigger] plan@[k]).id == k + 1,
                forall|u: int, k: int|
                    #![trigger plan@[k], kind_start(b, e, u)]
                    0 <= u < t && kind_start(b, e, u) <= k < kind_start(b, e, u + 1)
                        ==> plan@[k].process_type == config.supported_types@[u],
                forall|k: int| start <= k < plan@.len() ==> (#[trigger] plan@[k]).process_type
                    == config.supported_types@[t as int],
                b >= 0,
            decreases count - i,
        {
            let id = plan.len() + 1;
            let ghost before = plan@;
            plan.push(AgentSpec { id, process_type: config.supported_types[t] });
            proof {
                assert forall|u: int, k: int|
                    #![trigger plan@[k], kind_start(b, e, u)]
                    0 <= u < t && kind_start(b, e, u) <= k < kind_start(b, e, u + 1)
                        implies plan@[k].process_type == config.supported_types@[u] by {
                    lemma_kind_start_mono(b, e, u + 1, t as int);
                    assert(plan@[k] == before[k]);
                }
            }
            i = i + 1;
        }
        proof {
            assert forall|u: int, k: int|
                #![trigger plan@[k], kind_start(b, e, u)]
                0 <= u < t + 1 && kind_start(b, e, u) <= k < kind_start(b, e, u + 1)
                    implies plan@[k].process_type == config.supported_types@[u] by {
                if u == t {
                    assert(plan@[k].process_type == config.supported_types@[t as int]);
                }
            }
        }
        t = t + 1;
    }
    plan
}

/// The pool's set of agents of type `A`, with its counts.
pub struct AgentSlots<A> {
    available: Vec<A>,
    busy: usize,
    retired: usize,
    created: usize,
}

impl<A> AgentSlots<A> {
    /// Idle agents, ready to be acquired.
    pub closed spec fn available(&self) -> Seq<A> {
        self.available@
    }

    /// Agents held by borrowers.
    pub closed spec fn busy(&self) -> nat {
        self.busy as nat
    }

    /// Agents taken out of service after a failed reset.
    pub closed spec fn retired(&self) -> nat {
        self.retired as nat
    }

    /// Agents the pool was built with.
    pub closed spec fn created(&self) -> nat {
        self.created as nat
    }

    /// Agents still in service.
    pub open spec fn total(&self) -> nat {
        (self.created() - self.retired()) as nat
    }

    /// Each agent is in exactly one of the three states.
    pub closed spec fn wf(&self) -> bool {
        self.available@.len() + self.busy + self.retired == self.created
    }

    /// A pool made of `agents`, all idle.
    pub fn new(agents: Vec<A>) -> (r: Self)
        ensures
            r.wf(),
            r.available() == agents@,
            r.busy() == 0,
            r.retired() == 0,
            r.created() == agents@.len(),
    {
        let created = agents.len();
        AgentSlots { available: agents, busy: 0, retired: 0, created }
    }

    /// Takes an idle agent, the most recently returned one; with none idle,
    /// `PoolExhausted`.
    pub fn acquire(&mut self) -> (r: Result<A, EngineError>)
        requires
            old(self).wf(),
        ensures
            final(self).wf(),
            final(self).created() == old(self).created(),
            final(self).retired() == old(self).retired(),
            r is Ok <==> old(self).available().len() > 0,
            r matches Ok(a) ==> a == old(self).available().last() && final(self).available()
                == old(self).available().drop_last() && final(self).busy() == old(self).busy() + 1,
            r matches Err(e) ==> e is PoolExhausted && final(self).available()
                == old(self).available() && final(self).busy() == old(self).busy(),
    {
        match self.available.pop() {
            Some(agent) => {
                self.busy = self.busy + 1;
                Ok(agent)
            },
            None => Err(EngineError::PoolExhausted),
        }
    }

    /// Hands back a borrowed agent together with the outcome of resetting
    /// it. A reset agent becomes idle again; one whose reset failed is
    /// retired and its error returned.
    pub fn release(&mut self, agent: A, reset: Result<(), EngineError>) -> (r: Result<(), EngineError>)
        requires
            old(self).wf(),
            old(self).busy() > 0,
        ensures
            final(self).wf(),
            final(self).created() == old(self).created(),
            final(self).busy() == old(self).busy() - 1,
            r == reset,
            reset is Ok ==> final(self).available() == old(self).available().push(agent)
                && final(self).retired() == old(self).retired(),
            reset is Err ==> final(self).available() == old(self).available()
                && final(self).retired() == old(self).retired() + 1,
    {
        self.busy = self.busy - 1;
        if reset.is_ok() {
            self.available.push(agent);
        } else {
            self.retired = self.retired + 1;
        }
        reset
    }

    /// Counters, with the configured concurrency bound.
    pub fn stats(&self, max_concurrent: usize) -> (r: PoolStats)
        requires
            self.wf(),
        ensures
            r.total_agents == self.total(),
            r.available_agents == self.available().len(),
            r.busy_agents == self.busy(),
            r.max_concurrent == max_concurrent,
    {
        PoolStats {
            total_agents: self.created - self.retired,
            available_agents: self.available.len(),
            busy_agents: self.busy,
            max_concurrent,
        }
    }
}

/// After any sequence of acquires and releases, idle and busy agents
/// together are exactly the agents in service, never more than the pool
/// was built with; once nothing is borrowed, every agent in service is
/// idle.
pub proof fn lemma_pool_accounting<A>(p: &AgentSlots<A>)
    requires
        p.wf(),
    ensures
        p.available().len() + p.busy() == p.total(),
        p.total() <= p.created(),
        p.busy() == 0 ==> p.available().len() == p.total(),
{
}

} // verus!
