//! The recorder's drain task, as a state machine.
//!
//! The host runs one long-lived task that waits for the earlier of a timer
//! tick and a flush request, then calls [`DrainTask::wake`]. That drains the
//! queue into the working batch and, when there is something to write,
//! hands back the compressed payload. The host writes it to the blob store
//! and reports the outcome with [`DrainTask::written`]. A failed batch stays
//! in memory and is retried; after three failures in a row its oldest half
//! is discarded and counted as dropped.

use vstd::prelude::*;
use vstd::utf8::encode_utf8;
use crate::compressor::{is_compressed_form, CompressionLevel, Compressor};
use crate::error::EngineError;
use crate::event::{events_json, events_to_json, Event};
use crate::queue::{lemma_queue_accounting, EventQueue};
use crate::storage::StorageConfig;

verus! {

/// Consecutive failures after which half of a retained batch is dropped.
pub const MAX_FAILURES: u32 = 3;

/// Recorder configuration.
#[derive(Debug, Clone)]
pub struct RecorderConfig {
    /// Events per batch.
    pub batch_size: usize,
    /// Milliseconds between timer ticks of the drain task.
    pub flush_interval_ms: u64,
    /// Compression strength of batch payloads.
    pub compression_level: CompressionLevel,
    /// Where batches are stored.
    pub storage: StorageConfig,
    /// Capacity of the event queue.
    pub max_queue_size: usize,
}

impl Default for RecorderConfig {
    fn default() -> (r: Self)
        ensures
            r.batch_size == 1000,
            r.flush_interval_ms == 100,
            r.compression_level == CompressionLevel::Fast,
            r.max_queue_size == 1_000_000,
    {
        RecorderConfig {
            batch_size: 1000,
            flush_interval_ms: 100,
            compression_level: CompressionLevel::Fast,
            storage: StorageConfig::default(),
            max_queue_size: 1_000_000,
        }
    }
}

/// Recorder counters; each one only ever grows.
#[derive(Debug, Clone, Copy, PartialEq, Eq, Structural)]
pub struct RecorderStats {
    pub events_recorded: u64,
    pub events_flushed: u64,
    pub batches_flushed: u64,
    pub bytes_written: u64,
    pub total_record_time_ns: u64,
    pub total_flush_time_ms: u64,
}

/// All counters at zero.
pub open spec fn zero_stats() -> RecorderStats {
    RecorderStats {
        events_recorded: 0,
        events_flushed: 0,
        batches_flushed: 0,
        bytes_written: 0,
        total_record_time_ns: 0,
        total_flush_time_ms: 0,
    }
}

impl Default for RecorderStats {
    fn default() -> (r: Self)
        ensures
            r == zero_stats(),
    {
        RecorderStats {
            events_recorded: 0,
            events_flushed: 0,
            batches_flushed: 0,
            bytes_written: 0,
            total_record_time_ns: 0,
            total_flush_time_ms: 0,
        }
    }
}

/// `a + b`, held at `u64::MAX`.
pub open spec fn sat_add(a: u64, b: u64) -> u64 {
    if a + b > u64::MAX { u64::MAX } else { (a + b) as u64 }
}

/// Every counter of `b` is at least that of `a`.
pub open spec fn stats_grew(a: RecorderStats, b: RecorderStats) -> bool {
    &&& a.events_recorded <= b.events_recorded
    &&& a.events_flushed <= b.events_flushed
    &&& a.batches_flushed <= b.batches_flushed
    &&& a.bytes_written <= b.bytes_written
    &&& a.total_record_time_ns <= b.total_record_time_ns
    &&& a.total_flush_time_ms <= b.total_flush_time_ms
}

impl RecorderStats {
    /// Mean time of one `record`, or 0 before the first.
    pub fn avg_record_time_ns(&self) -> (r: u64)
        ensures
            self.events_recorded == 0 ==> r == 0,
            self.events_recorded > 0 ==> r == self.total_record_time_ns / self.events_recorded,
    {
        if self.events_recorded == 0 {
            0
        } else {
            self.total_record_time_ns / self.events_recorded
        }
    }

    /// Mean time of one batch write, or 0 before the first.
    pub fn avg_flush_time_ms(&self) -> (r: u64)
        ensures
            self.batches_flushed == 0 ==> r == 0,
            self.batches_flushed > 0 ==> r == self.total_flush_time_ms / self.batches_flushed,
    {
        if self.batches_flushed == 0 {
            0
        } else {
            self.total_flush_time_ms / self.batches_flushed
        }
    }
}

/// Puts `event` on the queue without blocking. A full queue hands it back,
/// counts a drop and reports `RecordingFailed`.
pub fn record(queue: &mut EventQueue, event: Event) -> (r: Result<(), EngineError>)
    requires
        old(queue).wf(),
        old(queue)@.attempts() < u64::MAX,
    ensures
        final(queue).wf(),
        final(queue)@.popped == old(queue)@.popped,
        r is Ok <==> old(queue)@.items().len() < old(queue)@.capacity,
        r is Ok ==> final(queue)@.pushed == old(queue)@.pushed.push(event) && final(queue)@.drops
            == old(queue)@.drops,
        r matches Err(e) ==> e is RecordingFailed && final(queue)@.pushed == old(queue)@.pushed
            && final(queue)@.drops == old(queue)@.drops + 1,
{
    match queue.push(event) {
        Ok(()) => Ok(()),
        Err(_) => Err(EngineError::RecordingFailed("Event queue full".to_string())),
    }
}

/// Where the drain task stands.
#[derive(Debug, Clone, Copy, PartialEq, Eq, Structural)]
pub enum DrainState {
    /// Waiting for a tick or a flush request.
    Idle,
    /// A batch was written; more may be waiting in the queue.
    Draining,
    /// A payload was handed out and its outcome is awaited.
    Flushing,
}

/// What the host is to do after a wake-up.
#[derive(Debug)]
pub enum DrainAction {
    /// Nothing to write: wait for the next tick or flush request.
    Sleep,
    /// Write `payload` as the next batch, holding `event_count` events,
    /// then report the outcome.
    Write { payload: Vec<u8>, event_count: usize },
}

/// The bytes a batch of events is encoded to before compression.
pub open spec fn batch_bytes(events: Seq<Event>) -> Seq<u8> {
    encode_utf8(events_json(events, false))
}

/// The single drain task of a recorder.
pub struct DrainTask {
    batch_size: usize,
    compressor: Compressor,
    buffer: Vec<Event>,
    failures: u32,
    state: DrainState,
    stats: RecorderStats,
    dropped: u64,
    taken: Ghost<Seq<Event>>,
    consumed: Ghost<Seq<Event>>,
}

impl DrainTask {
    /// Every event taken from the queue, in the order the queue yielded
    /// them.
    pub closed spec fn taken(&self) -> Seq<Event> {
        self.taken@
    }

    /// Every event that has left the task, written in a batch or
    /// discarded, in the order it left.
    pub closed spec fn consumed(&self) -> Seq<Event> {
        self.consumed@
    }

    pub closed spec fn batch_size(&self) -> nat {
        self.batch_size as nat
    }

    /// Events taken from the queue and not yet written, oldest first.
    pub closed spec fn buffer(&self) -> Seq<Event> {
        self.buffer@
    }

    /// Failed attempts to write the current batch, since the last success
    /// or discard.
    pub closed spec fn failures(&self) -> nat {
        self.failures as nat
    }

    pub closed spec fn state(&self) -> DrainState {
        self.state
    }

    pub closed spec fn stats_spec(&self) -> RecorderStats {
        self.stats
    }

    /// Events discarded after repeated write failures.
    pub closed spec fn dropped(&self) -> nat {
        self.dropped as nat
    }

    pub closed spec fn wf(&self) -> bool {
        &&& 0 < self.batch_size
        &&& self.buffer@.len() <= self.batch_size
        &&& self.failures < MAX_FAILURES
        &&& self.taken@ == self.consumed@ + self.buffer@
    }

    /// A drain task that writes batches of up to `batch_size` events,
    /// compressed at `level`.
    pub fn new(batch_size: usize, level: CompressionLevel) -> (r: Self)
        requires
            batch_size > 0,
        ensures
            r.wf(),
            r.batch_size() == batch_size,
            r.buffer().len() == 0,
            r.failures() == 0,
            r.state() == DrainState::Idle,
            r.stats_spec() == zero_stats(),
            r.dropped() == 0,
            r.taken().len() == 0,
            r.consumed().len() == 0,
    {
        DrainTask {
            batch_size,
            compressor: Compressor::new(level),
            buffer: Vec::new(),
            failures: 0,
            state: DrainState::Idle,
            stats: RecorderStats::default(),
            dropped: 0,
            taken: Ghost(Seq::empty()),
            consumed: Ghost(Seq::empty()),
        }
    }

    /// Where the task stands.
    pub fn current_state(&self) -> (r: DrainState)
        ensures
            r == self.state(),
    {
        self.state
    }

    /// Current counters.
    pub fn stats(&self) -> (r: RecorderStats)
        ensures
            r == self.stats_spec(),
    {
        self.stats
    }

    /// Events discarded so far after repeated write failures.
    pub fn dropped_events(&self) -> (r: u64)
        ensures
            r == self.dropped(),
    {
        self.dropped
    }

    /// Notes one `record` call that took `elapsed_ns`.
    pub fn note_recorded(&mut self, elapsed_ns: u64)
        ensures
            final(self).stats_spec() == (RecorderStats {
                events_recorded: sat_add(old(self).stats_spec().events_recorded, 1),
                total_record_time_ns: sat_add(
                    old(self).stats_spec().total_record_time_ns,
                    elapsed_ns,
                ),
                ..old(self).stats_spec()
            }),
            final(self).batch_size() == old(self).batch_size(),
            final(self).buffer() == old(self).buffer(),
            final(self).failures() == old(self).failures(),
            final(self).state() == old(self).state(),
            final(self).dropped() == old(self).dropped(),
            final(self).taken() == old(self).taken(),
            final(self).consumed() == old(self).consumed(),
            final(self).wf() == old(self).wf(),
    {
        self.stats.events_recorded = self.stats.events_recorded.saturating_add(1);
        self.stats.total_record_time_ns = self.stats.total_record_time_ns.saturating_add(
            elapsed_ns,
        );
    }

    /// A failed write of the retained batch: count it, and on the third
    /// one in a row drop the oldest half of the batch.
    fn fail(&mut self)
        requires
            old(self).wf(),
        ensures
            final(self).wf(),
            final(self).batch_size() == old(self).batch_size(),
            final(self).stats_spec() == old(self).stats_spec(),
            final(self).state() == DrainState::Idle,
            final(self).taken() == old(self).taken(),
            final(self).consumed() + final(self).buffer() == old(self).consumed() + old(self).buffer(),
            old(self).failures() + 1 < MAX_FAILURES ==> final(self).failures()
                == old(self).failures() + 1 && final(self).buffer() == old(self).buffer()
                && final(self).dropped() == old(self).dropped(),
            old(self).failures() + 1 >= MAX_FAILURES ==> final(self).failures() == 0
                && final(self).buffer() == old(self).buffer().skip(
                (old(self).buffer().len() / 2) as int,
            ) && final(self).dropped() == sat_add(
                old(self).dropped() as u64,
                (old(self).buffer().len() / 2) as u64,
            ),
    {
        self.state = DrainState::Idle;
        if self.failures + 1 < MAX_FAILURES {
            self.failures = self.failures + 1;
        } else {
            let half = self.buffer.len() / 2;
            let ghost before = self.buffer@;
            let kept = self.buffer.split_off(half);
            proof {
                self.consumed@ = self.consumed@ + before.take(half as int);
                assert(before =~= before.take(half as int) + kept@);
            }
            self.buffer = kept;
            assert(self.taken@ =~= self.consumed@ + self.buffer@);
            self.dropped = self.dropped.saturating_add(half as u64);
            self.failures = 0;
        }
    }

    /// A tick or flush request arrived: fill the working batch from the
    /// queue, oldest first, until it holds `batch_size` events or the queue
    /// is empty. An empty batch means there is nothing to do. Otherwise the
    /// batch is encoded and compressed, which never fails, and handed out
    /// for writing.
    pub fn wake(&mut self, queue: &mut EventQueue) -> (r: DrainAction)
        requires
            old(self).wf(),
            old(self).state() != DrainState::Flushing,
            old(queue).wf(),
        ensures
            final(self).wf(),
            final(queue).wf(),
            final(self).batch_size() == old(self).batch_size(),
            final(self).stats_spec() == old(self).stats_spec(),
            final(queue)@.pushed == old(queue)@.pushed,
            final(queue)@.drops == old(queue)@.drops,
            final(queue)@.capacity == old(queue)@.capacity,
            ({
                let room = old(self).batch_size() - old(self).buffer().len();
                let avail = old(queue)@.items().len();
                let taken = old(queue)@.items().take(if avail < room { avail as int } else { room as int });
                let filled = old(self).buffer() + taken;
                &&& final(queue)@.popped == old(queue)@.popped + taken
                &&& final(self).taken() == old(self).taken() + taken
                &&& final(self).consumed() == old(self).consumed()
                &&& final(self).buffer() == filled
                &&& final(self).failures() == old(self).failures()
                &&& final(self).dropped() == old(self).dropped()
                &&& filled.len() == 0 ==> r is Sleep && final(self).state() == DrainState::Idle
                &&& filled.len() > 0 ==> r is Write
                &&& r matches DrainAction::Write { payload, event_count } ==> event_count
                    == filled.len() && is_compressed_form(payload@, batch_bytes(filled))
                    && final(self).state() == DrainState::Flushing
            }),
    {
        let ghost buf0 = self.buffer@;
        let ghost items0 = queue@.items();
        let ghost popped0 = queue@.popped;
        let ghost room = self.batch_size - self.buffer@.len();
        let ghost want: int = if items0.len() < room { items0.len() as int } else { room as int };
        let ghost mut n: int = 0;
        while self.buffer.len() < self.batch_size
            invariant
                self.wf(),
                queue.wf(),
                queue@.pushed == old(queue)@.pushed,
                queue@.drops == old(queue)@.drops,
                queue@.capacity == old(queue)@.capacity,
                self.batch_size == old(self).batch_size,
                self.stats == old(self).stats,
                self.failures == old(self).failures,
                self.dropped == old(self).dropped,
                self.state == old(self).state,
                0 <= n <= want,
                n <= items0.len(),
                self.buffer@ == buf0 + items0.take(n),
                self.taken@ == old(self).taken@ + items0.take(n),
                self.consumed@ == old(self).consumed@,
                queue@.popped == popped0 + items0.take(n),
                queue@.items() == items0.skip(n),
                room == self.batch_size - buf0.len(),
                want == (if items0.len() < room { items0.len() as int } else { room as int }),
                items0 == old(queue)@.items(),
                popped0 == old(queue)@.popped,
                buf0 == old(self).buffer@,
            ensures
                n == want,
                self.wf(),
                queue.wf(),
                queue@.pushed == old(queue)@.pushed,
                queue@.drops == old(queue)@.drops,
                queue@.capacity == old(queue)@.capacity,
                self.batch_size == old(self).batch_size,
                self.stats == old(self).stats,
                self.failures == old(self).failures,
                self.dropped == old(self).dropped,
                self.state == old(self).state,
                self.buffer@ == buf0 + items0.take(n),
                self.taken@ == old(self).taken@ + items0.take(n),
                self.consumed@ == old(self).consumed@,
                queue@.popped == popped0 + items0.take(n),
            decreases self.batch_size - self.buffer.len(),
        {
            let ghost before_items = queue@.items();
            let ghost before_q = queue@;
            match queue.try_pop() {
                Some(e) => {
                    assert(queue@.items() =~= before_items.drop_first()) by {
                        lemma_queue_accounting(queue);
                        assert(queue@.popped.len() == before_q.popped.len() + 1);
                        assert(queue@.pushed == before_q.pushed);
                    }
                    proof {
                        assert(items0.skip(n)[0] == items0[n]);
                        assert(items0.take(n + 1) =~= items0.take(n).push(items0[n]));
                        assert(items0.skip(n).drop_first() =~= items0.skip(n + 1));
                        n = n + 1;
                    }
                    self.buffer.push(e);
                    proof {
                        self.taken@ = self.taken@.push(e);
                    }
                    assert(self.buffer@ =~= buf0 + items0.take(n));
                    assert(self.taken@ =~= old(self).taken@ + items0.take(n));
                    assert(queue@.popped =~= popped0 + items0.take(n));
                    assert(queue@.items() =~= items0.skip(n));
                },
                None => {
                    proof {
                        assert(items0.skip(n).len() == 0);
                    }
                    break;
                },
            }
        }
        let ghost filled = self.buffer@;
        if self.buffer.len() == 0 {
            self.state = DrainState::Idle;
            return DrainAction::Sleep;
        }
        let text = events_to_json(&self.buffer, false);
        let bytes = text.as_str().as_bytes();
        match self.compressor.compress(bytes) {
            Ok(payload) => {
                self.state = DrainState::Flushing;
                DrainAction::Write { payload, event_count: self.buffer.len() }
            },
            Err(_) => DrainAction::Sleep,
        }
    }

    /// The host reports how writing the handed-out batch went. On success
    /// the batch leaves memory and the counters grow; on failure it is kept
    /// for the next tick, and the third failure in a row drops its oldest
    /// half.
    pub fn written(&mut self, ok: bool, bytes: u64, elapsed_ms: u64)
        requires
            old(self).wf(),
            old(self).state() == DrainState::Flushing,
        ensures
            final(self).wf(),
            final(self).batch_size() == old(self).batch_size(),
            stats_grew(old(self).stats_spec(), final(self).stats_spec()),
            final(self).taken() == old(self).taken(),
            ok ==> final(self).consumed() == old(self).consumed() + old(self).buffer(),
            ok ==> final(self).buffer().len() == 0 && final(self).failures() == 0
                && final(self).state() == DrainState::Draining && final(self).dropped()
                == old(self).dropped() && final(self).stats_spec() == (RecorderStats {
                events_flushed: sat_add(
                    old(self).stats_spec().events_flushed,
                    old(self).buffer().len() as u64,
                ),
                batches_flushed: sat_add(old(self).stats_spec().batches_flushed, 1),
                bytes_written: sat_add(old(self).stats_spec().bytes_written, bytes),
                total_flush_time_ms: sat_add(old(self).stats_spec().total_flush_time_ms, elapsed_ms),
                ..old(self).stats_spec()
            }),
            !ok ==> final(self).stats_spec() == old(self).stats_spec() && final(self).state()
                == DrainState::Idle,
            !ok && old(self).failures() + 1 < MAX_FAILURES ==> final(self).buffer()
                == old(self).buffer() && final(self).failures() == old(self).failures() + 1,
            !ok && old(self).failures() + 1 >= MAX_FAILURES ==> final(self).failures() == 0
                && final(self).buffer() == old(self).buffer().skip(
                (old(self).buffer().len() / 2) as int,
            ) && final(self).dropped() == sat_add(
                old(self).dropped() as u64,
                (old(self).buffer().len() / 2) as u64,
            ),
    {
        if ok {
            let n = self.buffer.len() as u64;
            self.stats.events_flushed = self.stats.events_flushed.saturating_add(n);
            self.stats.batches_flushed = self.stats.batches_flushed.saturating_add(1);
            self.stats.bytes_written = self.stats.bytes_written.saturating_add(bytes);
            self.stats.total_flush_time_ms = self.stats.total_flush_time_ms.saturating_add(
                elapsed_ms,
            );
            proof {
                self.consumed@ = self.consumed@ + self.buffer@;
            }
            self.buffer.clear();
            assert(self.taken@ =~= self.consumed@ + self.buffer@);
            self.failures = 0;
            self.state = DrainState::Draining;
        } else {
            self.fail();
        }
    }
}

/// Events leave the drain task in the order the queue yielded them:
/// what was written or discarded so far, followed by the batch still held,
/// is exactly the sequence taken from the queue. So a later batch never
/// holds an event the queue yielded before one of an earlier batch.
pub proof fn lemma_drain_order(d: &DrainTask)
    requires
        d.wf(),
    ensures
        d.taken() == d.consumed() + d.buffer(),
        d.consumed() == d.taken().take(d.consumed().len() as int),
{
    assert(d.consumed() =~= d.taken().take(d.consumed().len() as int));
}

} // verus!
