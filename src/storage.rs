//! Layout and index of the append-only batch store.
//!
//! A recording session keeps `events.db` (one row per batch) next to an
//! `events/` directory of compressed batch files named
//! `batch_NNNNNNNN.zst`. `BatchIndex` is the in-memory image of that table:
//! it hands out batch numbers densely from 1 and only takes a row once the
//! batch's file has been written, with the length the write reported.

use vstd::prelude::*;
use crate::error::EngineError;
use crate::text::{push_zero_padded, same_text, zero_padded};

verus! {

/// Where a session's files live.
#[derive(Debug, Clone)]
pub struct StorageConfig {
    /// Base directory of the session.
    pub base_dir: String,
    /// File name of the metadata database inside `base_dir`.
    pub db_name: String,
    /// Name of the directory of batch files inside `base_dir`.
    pub events_dir: String,
}

impl Default for StorageConfig {
    fn default() -> (r: Self)
        ensures
            r.base_dir@ == "~/.sentra-lab/simulations"@,
            r.db_name@ == "events.db"@,
            r.events_dir@ == "events"@,
    {
        StorageConfig {
            base_dir: "~/.sentra-lab/simulations".to_string(),
            db_name: "events.db".to_string(),
            events_dir: "events".to_string(),
        }
    }
}

/// Statement that creates the batch table.
pub const SCHEMA_TABLE: &'static str = "CREATE TABLE IF NOT EXISTS event_batches (
    id INTEGER PRIMARY KEY AUTOINCREMENT,
    batch_id TEXT NOT NULL UNIQUE,
    file_path TEXT NOT NULL,
    event_count INTEGER NOT NULL,
    compressed_size INTEGER NOT NULL,
    created_at INTEGER NOT NULL
)";

/// Statement that indexes the table by batch id.
pub const SCHEMA_INDEX: &'static str = "CREATE INDEX IF NOT EXISTS idx_batch_id ON event_batches(batch_id)";

/// Statement that records one batch.
pub const INSERT_BATCH: &'static str = "INSERT INTO event_batches (batch_id, file_path, event_count, compressed_size, created_at) VALUES (?1, ?2, ?3, ?4, ?5)";

/// Query that lists the batches in commit order.
pub const SELECT_BATCHES: &'static str = "SELECT batch_id, event_count, compressed_size, created_at FROM event_batches ORDER BY id";

/// One row of the batch table.
#[derive(Debug)]
pub struct BatchMetadata {
    pub batch_id: String,
    pub event_count: i64,
    pub compressed_size: i64,
    pub created_at: i64,
}

impl Clone for BatchMetadata {
    fn clone(&self) -> (r: Self)
        ensures
            r == *self,
    {
        BatchMetadata {
            batch_id: self.batch_id.clone(),
            event_count: self.event_count,
            compressed_size: self.compressed_size,
            created_at: self.created_at,
        }
    }
}

/// Totals over all batches.
#[derive(Debug, Clone, Copy, PartialEq, Eq, Structural)]
pub struct StorageStats {
    pub total_batches: u64,
    pub total_size_bytes: u64,
}

/// The id of batch number `n`: `batch_` and eight digits.
pub open spec fn batch_name(n: nat) -> Seq<char> {
    "batch_"@ + zero_padded(n, 8)
}

/// The file that holds batch number `n`, relative to the base directory.
pub open spec fn batch_path(events_dir: Seq<char>, n: nat) -> Seq<char> {
    events_dir + "/"@ + batch_name(n) + ".zst"@
}

/// The id of batch number `n`.
pub fn batch_id_for(n: u64) -> (r: String)
    ensures
        r@ == batch_name(n as nat),
{
    let mut out = "batch_".to_string();
    push_zero_padded(&mut out, n, 8);
    out
}

/// The path of batch number `n`'s file, relative to the base directory.
pub fn batch_file_path(events_dir: &str, n: u64) -> (r: String)
    ensures
        r@ == batch_path(events_dir@, n as nat),
{
    let mut out = events_dir.to_string();
    out.append("/");
    let id = batch_id_for(n);
    out.append(id.as_str());
    out.append(".zst");
    out
}

/// Sum of the recorded sizes of `rows`.
pub open spec fn total_size(rows: Seq<BatchMetadata>) -> int
    decreases rows.len(),
{
    if rows.len() == 0 {
        0
    } else {
        total_size(rows.drop_last()) + rows.last().compressed_size
    }
}

/// `rows` are batches 1, 2, ... in order, with non-negative sizes.
pub open spec fn rows_dense(rows: Seq<BatchMetadata>) -> bool {
    forall|k: int|
        0 <= k < rows.len() ==> (#[trigger] rows[k]).batch_id@ == batch_name((k + 1) as nat)
            && rows[k].compressed_size >= 0
}

/// `file_name` names the file of one of `rows`.
pub open spec fn committed_file(rows: Seq<BatchMetadata>, file_name: Seq<char>) -> bool {
    exists|k: int| 0 <= k < rows.len() && (#[trigger] rows[k]).batch_id@ + ".zst"@ == file_name
}

/// What the next write is to produce.
#[derive(Debug)]
pub struct WritePlan {
    /// Number of the batch, one more than the last committed.
    pub number: u64,
    /// Its id, the key of its index row.
    pub batch_id: String,
    /// Its file, relative to the base directory.
    pub file_path: String,
}

/// In-memory image of the batch table.
pub struct BatchIndex {
    events_dir: String,
    rows: Vec<BatchMetadata>,
    total: u64,
}

impl BatchIndex {
    pub closed spec fn dir(&self) -> Seq<char> {
        self.events_dir@
    }

    /// The committed rows, in commit order.
    pub closed spec fn rows(&self) -> Seq<BatchMetadata> {
        self.rows@
    }

    pub closed spec fn wf(&self) -> bool {
        &&& rows_dense(self.rows@)
        &&& self.rows@.len() < u64::MAX
        &&& self.total == total_size(self.rows@)
    }

    /// An index with no batches yet.
    pub fn new(events_dir: String) -> (r: Self)
        ensures
            r.wf(),
            r.dir() == events_dir@,
            r.rows().len() == 0,
    {
        BatchIndex { events_dir, rows: Vec::new(), total: 0 }
    }

    /// Rebuilds the index from rows read back from the table, in id order.
    /// They must be batches 1, 2, ... with no gap and non-negative sizes.
    pub fn from_rows(events_dir: String, rows: Vec<BatchMetadata>) -> (r: Result<
        Self,
        EngineError,
    >)
        ensures
            r is Ok <==> rows_dense(rows@) && rows@.len() < u64::MAX && total_size(rows@)
                <= u64::MAX,
            r matches Ok(idx) ==> idx.wf() && idx.rows() == rows@ && idx.dir() == events_dir@,
            r matches Err(e) ==> e is StorageFailed,
    {
        let mut total: u64 = 0;
        let mut k: usize = 0;
        while k < rows.len()
            invariant
                k <= rows.len(),
                k < u64::MAX,
                rows_dense(rows@.subrange(0, k as int)),
                total == total_size(rows@.subrange(0, k as int)),
            decreases rows.len() - k,
        {
            let ghost prefix = rows@.subrange(0, k as int);
            let ghost next = rows@.subrange(0, k + 1);
            assert(next.drop_last() =~= prefix);
            if k as u64 >= u64::MAX - 1 {
                proof {
                    assert(rows@.len() >= u64::MAX);
                }
                return Err(EngineError::StorageFailed("Batch table is too long".to_string()));
            }
            let expected = batch_id_for(k as u64 + 1);
            let row = &rows[k];
            if row.batch_id != expected || row.compressed_size < 0 {
                proof {
                    assert(!rows_dense(rows@)) by {
                        assert(rows@[k as int] == row);
                    }
                }
                return Err(EngineError::StorageFailed("Batch table has a gap".to_string()));
            }
            if row.compressed_size as u64 > u64::MAX - total {
                proof {
                    if rows_dense(rows@) {
                        assert forall|j: int| 0 <= j < rows@.len() implies (
                        #[trigger] rows@[j]).compressed_size >= 0 by {
                            assert(rows@[j].compressed_size >= 0);
                        }
                        lemma_total_size_prefix(rows@, k as int + 1);
                    }
                }
                return Err(EngineError::StorageFailed("Batch sizes overflow".to_string()));
            }
            total = total + row.compressed_size as u64;
            k = k + 1;
            assert forall|j: int| 0 <= j < next.len() implies (#[trigger] next[j]).batch_id@
                == batch_name((j + 1) as nat) && next[j].compressed_size >= 0 by {
                if j < next.len() - 1 {
                    assert(next[j] == prefix[j]);
                }
            }
        }
        assert(rows@.subrange(0, rows.len() as int) =~= rows@);
        Ok(BatchIndex { events_dir, rows, total })
    }

    /// The number, id and file of the next batch.
    pub fn next_write(&self) -> (r: WritePlan)
        requires
            self.wf(),
        ensures
            r.number == self.rows().len() + 1,
            r.batch_id@ == batch_name(r.number as nat),
            r.file_path@ == batch_path(self.dir(), r.number as nat),
    {
        let number = self.rows.len() as u64 + 1;
        WritePlan {
            number,
            batch_id: batch_id_for(number),
            file_path: batch_file_path(self.events_dir.as_str(), number),
        }
    }

    /// Records that batch `number` was written in full: its file holds
    /// `file_len` bytes and `event_count` events.
    pub fn commit(&mut self, number: u64, file_len: u64, event_count: i64, created_at: i64)
        requires
            old(self).wf(),
            number == old(self).rows().len() + 1,
            number < u64::MAX,
            file_len <= i64::MAX,
            total_size(old(self).rows()) + file_len <= u64::MAX,
        ensures
            final(self).wf(),
            final(self).dir() == old(self).dir(),
            final(self).rows().len() == old(self).rows().len() + 1,
            final(self).rows().drop_last() == old(self).rows(),
            final(self).rows().last().batch_id@ == batch_name(number as nat),
            final(self).rows().last().compressed_size == file_len,
            final(self).rows().last().event_count == event_count,
            final(self).rows().last().created_at == created_at,
    {
        let row = BatchMetadata {
            batch_id: batch_id_for(number),
            event_count,
            compressed_size: file_len as i64,
            created_at,
        };
        let ghost before = self.rows@;
        self.rows.push(row);
        self.total = self.total + file_len;
        assert(self.rows@.drop_last() =~= before);
        assert forall|k: int| 0 <= k < self.rows@.len() implies (
        #[trigger] self.rows@[k]).batch_id@ == batch_name((k + 1) as nat)
            && self.rows@[k].compressed_size >= 0 by {
            if k < before.len() {
                assert(self.rows@[k] == before[k]);
            }
        }
    }

    /// Takes the outcome of writing batch `number`: `data_len` bytes were
    /// handed to the file, and reading its metadata back after the sync
    /// gave `file_len`. The row is recorded only when the two agree, so
    /// every row's size is the length its file was seen to have; a
    /// mismatch, a stale number or sizes past the index's limits are a
    /// `StorageFailed` error and leave the index as it was.
    pub fn record_written(
        &mut self,
        number: u64,
        data_len: usize,
        file_len: u64,
        event_count: usize,
        created_at: i64,
    ) -> (r: Result<(), EngineError>)
        requires
            old(self).wf(),
        ensures
            final(self).wf(),
            final(self).dir() == old(self).dir(),
            r is Ok <==> number == old(self).rows().len() + 1 && number < u64::MAX && file_len
                == data_len && file_len <= i64::MAX && event_count <= i64::MAX && total_size(
                old(self).rows(),
            ) + file_len <= u64::MAX,
            r is Ok ==> final(self).rows().drop_last() == old(self).rows() && final(self).rows().len()
                == old(self).rows().len() + 1 && final(self).rows().last().batch_id@ == batch_name(
                number as nat,
            ) && final(self).rows().last().compressed_size == data_len
                && final(self).rows().last().event_count == event_count
                && final(self).rows().last().created_at == created_at,
            r matches Err(e) ==> e is StorageFailed && final(self).rows() == old(self).rows(),
    {
        if number != self.rows.len() as u64 + 1 || number == u64::MAX {
            return Err(EngineError::StorageFailed("Batch number out of order".to_string()));
        }
        if file_len != data_len as u64 {
            return Err(EngineError::StorageFailed("Batch file length differs from its data".to_string()));
        }
        if file_len > i64::MAX as u64 || event_count as u64 > i64::MAX as u64 || file_len > u64::MAX
            - self.total {
            return Err(EngineError::StorageFailed("Batch store is full".to_string()));
        }
        self.commit(number, file_len, event_count as i64, created_at);
        Ok(())
    }

    /// Every row, in commit order.
    pub fn list_batches(&self) -> (r: Vec<BatchMetadata>)
        ensures
            r@ == self.rows(),
    {
        let r = self.rows.clone();
        assert(r@ =~= self.rows@);
        r
    }

    /// The file of the batch with id `batch_id`, if it was committed.
    pub fn file_of(&self, batch_id: &str) -> (r: Option<String>)
        requires
            self.wf(),
        ensures
            r is Some <==> exists|k: int|
                0 <= k < self.rows().len() && (#[trigger] self.rows()[k]).batch_id@
                    == batch_id@,
            r matches Some(p) ==> exists|k: int|
                0 <= k < self.rows().len() && (#[trigger] self.rows()[k]).batch_id@
                    == batch_id@ && p@ == batch_path(self.dir(), (k + 1) as nat),
    {
        let wanted = batch_id.to_string();
        let mut k: usize = 0;
        while k < self.rows.len()
            invariant
                k <= self.rows@.len(),
                self.wf(),
                wanted@ == batch_id@,
                forall|j: int| 0 <= j < k ==> (#[trigger] self.rows@[j]).batch_id@ != batch_id@,
            decreases self.rows@.len() - k,
        {
            if self.rows[k].batch_id == wanted {
                assert(self.rows()[k as int].batch_id@ == batch_id@);
                return Some(batch_file_path(self.events_dir.as_str(), k as u64 + 1));
            }
            k = k + 1;
        }
        None
    }

    /// Whether `file_name` is the file of a committed batch.
    pub fn is_committed_file(&self, file_name: &str) -> (r: bool)
        requires
            self.wf(),
        ensures
            r == committed_file(self.rows(), file_name@),
    {
        let mut k: usize = 0;
        while k < self.rows.len()
            invariant
                k <= self.rows@.len(),
                forall|j: int| 0 <= j < k ==> (#[trigger] self.rows@[j]).batch_id@ + ".zst"@ != file_name@,
            decreases self.rows@.len() - k,
        {
            let mut name = self.rows[k].batch_id.clone();
            name.append(".zst");
            if same_text(name.as_str(), file_name) {
                return true;
            }
            k = k + 1;
        }
        false
    }

    /// The files of a directory listing that no committed batch accounts
    /// for, in listing order: leftovers of a write that was interrupted
    /// before its row was recorded. They are ignored.
    pub fn orphan_files(&self, listing: &Vec<String>) -> (r: Vec<String>)
        requires
            self.wf(),
        ensures
            r@.map_values(|f: String| f@) == listing@.map_values(|f: String| f@).filter(
                |f: Seq<char>| !committed_file(self.rows(), f),
            ),
    {
        let mut out: Vec<String> = Vec::new();
        let mut i: usize = 0;
        while i < listing.len()
            invariant
                i <= listing@.len(),
                self.wf(),
                out@.map_values(|f: String| f@) == listing@.subrange(0, i as int).map_values(
                    |f: String| f@,
                ).filter(|f: Seq<char>| !committed_file(self.rows(), f)),
            decreases listing@.len() - i,
        {
            let ghost before = out@;
            let keep = !self.is_committed_file(listing[i].as_str());
            proof {
                let prev = listing@.subrange(0, i as int).map_values(|f: String| f@);
                let next = listing@.subrange(0, i + 1).map_values(|f: String| f@);
                assert(next =~= prev.push(listing@[i as int]@));
                reveal_with_fuel(Seq::filter, 1);
                assert(next.drop_last() =~= prev);
            }
            if keep {
                out.push(listing[i].clone());
                assert(out@.map_values(|f: String| f@) =~= before.map_values(|f: String| f@).push(listing@[i as int]@));
            }
            i = i + 1;
        }
        assert(listing@.subrange(0, listing@.len() as int) =~= listing@);
        out
    }

    /// Number of batches and their total compressed size.
    pub fn stats(&self) -> (r: StorageStats)
        requires
            self.wf(),
        ensures
            r.total_batches == self.rows().len(),
            r.total_size_bytes == total_size(self.rows()),
    {
        StorageStats { total_batches: self.rows.len() as u64, total_size_bytes: self.total }
    }
}

proof fn lemma_total_size_prefix(rows: Seq<BatchMetadata>, k: int)
    requires
        0 <= k <= rows.len(),
        forall|j: int| 0 <= j < rows.len() ==> (#[trigger] rows[j]).compressed_size >= 0,
    ensures
        total_size(rows.subrange(0, k)) <= total_size(rows),
    decreases rows.len() - k,
{
    if k < rows.len() {
        lemma_total_size_prefix(rows.drop_last(), k);
        assert(rows.drop_last().subrange(0, k) =~= rows.subrange(0, k));
        if k == rows.len() - 1 {
            assert(rows.subrange(0, k) =~= rows.drop_last());
        }
    } else {
        assert(rows.subrange(0, k) =~= rows);
    }
}

/// For every committed batch number `n`, the `n`-th row is batch `n`:
/// numbers run from 1 with no gap, each row names the file of its own
/// number, and its recorded size is what the file write reported.
pub proof fn lemma_batches_dense(idx: &BatchIndex, n: nat)
    requires
        idx.wf(),
        1 <= n <= idx.rows().len(),
    ensures
        idx.rows()[n - 1].batch_id@ == batch_name(n),
        idx.rows()[n - 1].compressed_size >= 0,
        forall|m: nat| 1 <= m <= n ==> (#[trigger] idx.rows()[m - 1]).batch_id@ == batch_name(m),
{
    assert(idx.rows()[n - 1].batch_id@ == batch_name(n));
    assert forall|m: nat| 1 <= m <= n implies (#[trigger] idx.rows()[m - 1]).batch_id@
        == batch_name(m) by {
        assert(idx.rows()[(m - 1) as int].batch_id@ == batch_name(((m - 1) + 1) as nat));
    }
}

/// Capacity of a memory-mapped batch file after growing it by at least
/// `additional` bytes: it at least doubles. `None` where that overflows.
pub fn grown_capacity(capacity: usize, additional: usize) -> (r: Option<usize>)
    ensures
        ({
            let step = if additional > capacity { additional } else { capacity };
            &&& capacity + step <= usize::MAX ==> r == Some((capacity + step) as usize)
            &&& capacity + step > usize::MAX ==> r is None
        }),
{
    let step = if additional > capacity { additional } else { capacity };
    capacity.checked_add(step)
}

} // verus!
