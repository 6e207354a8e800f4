//! JSONL journaling for local client persistence.
//!
//! A journal is a file of lines, one JSON record each. This module frames and reads the
//! lines, decides which records are committed, and prepares the records of a new batch.

use vstd::prelude::*;
use crate::bytes::{
    append_slice, byte_lists, is_ascii_space, split_at_byte, split_bytes, trim_ascii_whitespace,
    trim_bytes, trim_bytes_start,
};
use crate::client::error::Error;
use crate::decimal::{decimal, u64_text};
use crate::text::{
    before, before_spec, joined, joined3, joined4, same, starts_with, text_opt, trim, trim_spec,
};
use crate::time::Timestamp;

verus! {

/// The journal schema version.
pub const JOURNAL_RECORD_VERSION: u32 = 1;

/// Logical direction of one journaled record.
#[derive(Debug, Clone, Copy, PartialEq, Eq, Structural)]
pub enum JournalDirection {
    /// Messages replicated from the server into a local cache.
    Inbound,
    /// Messages prepared for later producer recovery work.
    Outbound,
}

/// Stream identity bound to one journal file.
///
/// Journaling is restricted to JSON streams.
#[derive(Debug, Clone, PartialEq, Eq)]
pub struct JournalStreamIdentity {
    /// Durable Streams path.
    pub path: String,
    /// Stream content type.
    pub content_type: String,
}

/// Whether a content type is `application/json`, with or without parameters.
pub open spec fn is_json_type(content_type: Seq<char>) -> bool {
    "application/json"@.is_prefix_of(content_type) && trim_spec(before_spec(content_type, ';'))
        == "application/json"@
}

/// Why an identity is rejected, if it is.
pub open spec fn identity_rejection(path: Seq<char>, content_type: Seq<char>) -> Option<Seq<char>> {
    if trim_spec(path).len() == 0 {
        Some("journal stream path must not be empty"@)
    } else if !is_json_type(content_type) {
        Some(
            "journal only supports application/json content types, got '"@ + content_type + "'"@,
        )
    } else {
        None
    }
}

impl JournalStreamIdentity {
    /// Construct and validate a stream identity for JSON journaling.
    pub fn new(path: String, content_type: String) -> (r: Result<Self, Error>)
        ensures
            match r {
                Ok(stream) => {
                    &&& identity_rejection(path@, content_type@) is None
                    &&& stream == (JournalStreamIdentity { path, content_type })
                },
                Err(Error::InvalidArgument(m)) => identity_rejection(path@, content_type@) == Some(m@),
                Err(_) => false,
            },
    {
        let stream = JournalStreamIdentity { path, content_type };
        match stream.validate() {
            Ok(_) => Ok(stream),
            Err(e) => Err(e),
        }
    }

    /// Checks that the path is not empty and the content type is JSON.
    pub fn validate(&self) -> (r: Result<(), Error>)
        ensures
            match r {
                Ok(_) => identity_rejection(self.path@, self.content_type@) is None,
                Err(Error::InvalidArgument(m)) => identity_rejection(self.path@, self.content_type@)
                    == Some(m@),
                Err(_) => false,
            },
    {
        if trim(self.path.as_str()).is_empty() {
            return Err(Error::invalid_argument("journal stream path must not be empty"));
        }
        let main = before(self.content_type.as_str(), ';');
        if !starts_with(self.content_type.as_str(), "application/json") || !same(
            trim(main.as_str()),
            "application/json",
        ) {
            return Err(
                Error::InvalidArgument(
                    joined3(
                        "journal only supports application/json content types, got '",
                        self.content_type.as_str(),
                        "'",
                    ),
                ),
            );
        }
        Ok(())
    }

    /// A copy of the identity.
    pub fn copy(&self) -> (r: Self)
        ensures
            r == *self,
    {
        JournalStreamIdentity { path: self.path.clone(), content_type: self.content_type.clone() }
    }
}

/// Reserved producer metadata for later outbound persistence.
#[derive(Debug, Clone, PartialEq, Eq)]
pub struct ProducerJournalProgress {
    /// Producer identifier.
    pub producer_id: String,
    /// Current claimed epoch.
    pub epoch: i64,
    /// Next sequence the producer plans to send.
    pub next_seq: i64,
    /// Latest server offset acknowledged for this producer state.
    pub acked_server_offset: Option<String>,
    /// Latest local journal position acknowledged by this producer state.
    pub acked_local_seq: Option<u64>,
}

impl ProducerJournalProgress {
    /// A copy of the metadata.
    pub fn copy(&self) -> (r: Self)
        ensures
            r.producer_id == self.producer_id,
            r.epoch == self.epoch,
            r.next_seq == self.next_seq,
            text_opt(r.acked_server_offset) == text_opt(self.acked_server_offset),
            r.acked_local_seq == self.acked_local_seq,
    {
        ProducerJournalProgress {
            producer_id: self.producer_id.clone(),
            epoch: self.epoch,
            next_seq: self.next_seq,
            acked_server_offset: self.acked_server_offset.clone(),
            acked_local_seq: self.acked_local_seq,
        }
    }
}

/// One persisted JSONL journal record.
///
/// Each line carries one logical JSON value plus enough metadata to rebuild the
/// local cache and derive the last durable server offset after replay.
#[derive(Debug, Clone, PartialEq, Eq)]
pub struct JournalRecord {
    /// Journal schema version.
    pub version: u32,
    /// Stream identity persisted in the file.
    pub stream: JournalStreamIdentity,
    /// Inbound or outbound direction.
    pub direction: JournalDirection,
    /// Monotonic local sequence number within the journal.
    pub local_seq: u64,
    /// Batch identifier used to drop only incomplete trailing writes.
    pub batch_seq: u64,
    /// Zero-based index of this record within its batch.
    pub batch_index: u32,
    /// Total number of records in this batch.
    pub batch_len: u32,
    /// Replicated JSON payload, as compact text.
    pub payload: String,
    /// Latest durable server next offset acknowledged for this batch.
    pub next_offset: Option<String>,
    /// Local observation time for this payload.
    pub observed_at: Timestamp,
    /// Local persistence time for this payload.
    pub persisted_at: Timestamp,
    /// Reserved producer metadata for forward compatibility.
    pub producer: Option<ProducerJournalProgress>,
}

/// Whether the record `k` places after `from` goes on with the batch that begins there.
pub open spec fn continues(rs: Seq<JournalRecord>, from: int, k: int) -> bool {
    let r = rs[from + k];
    let first = rs[from];
    &&& r.local_seq == from + k
    &&& r.batch_index == k
    &&& r.batch_seq == first.batch_seq
    &&& r.batch_len == first.batch_len
    &&& text_opt(r.next_offset) == text_opt(first.next_offset)
}

/// How many records from `from` on belong to one batch, where the first `k` do.
pub open spec fn run_len(rs: Seq<JournalRecord>, from: int, k: int) -> int
    decreases rs.len() - from - k,
{
    if from + k < rs.len() && continues(rs, from, k) {
        run_len(rs, from, k + 1)
    } else {
        k
    }
}

/// What replay comes to: how many records are committed, the offset to resume from and the
/// number of the next batch.
#[verifier::ext_equal]
pub struct ReplayView {
    pub committed: int,
    pub resume: Option<Seq<char>>,
    pub next_batch: int,
}

/// The offset that a batch leaves to resume from.
pub open spec fn resume_after(first: JournalRecord, before: Option<Seq<char>>) -> Option<Seq<char>> {
    moved(text_opt(first.next_offset), before)
}

/// Commits whole batches from `from` on: a batch counts where it has exactly as many records
/// as it says, and replay goes on behind it with a batch of another number.
pub open spec fn replay_from(
    rs: Seq<JournalRecord>,
    from: int,
    resume: Option<Seq<char>>,
    next_batch: int,
) -> ReplayView
    decreases rs.len() - from,
{
    let n = run_len(rs, from, 0);
    if n <= 0 || from >= rs.len() || n != rs[from].batch_len {
        ReplayView { committed: from, resume, next_batch }
    } else {
        let resume2 = resume_after(rs[from], resume);
        let next2 = rs[from].batch_seq + 1;
        if from + n < rs.len() && rs[from + n].batch_seq != rs[from].batch_seq {
            replay_from(rs, from + n, resume2, next2)
        } else {
            ReplayView { committed: from + n, resume: resume2, next_batch: next2 }
        }
    }
}

/// What replay of all records comes to.
pub open spec fn replayed(rs: Seq<JournalRecord>) -> ReplayView {
    replay_from(rs, 0, None, 0)
}

proof fn lemma_run_len(rs: Seq<JournalRecord>, from: int, k: int)
    requires
        0 <= from <= rs.len(),
        0 <= k <= rs.len() - from,
    ensures
        k <= run_len(rs, from, k) <= rs.len() - from,
        forall|j: int| k <= j < run_len(rs, from, k) ==> #[trigger] continues(rs, from, j),
        ({
            let n = run_len(rs, from, k);
            from + n == rs.len() || !continues(rs, from, n)
        }),
    decreases rs.len() - from - k,
{
    if from + k < rs.len() && continues(rs, from, k) {
        lemma_run_len(rs, from, k + 1);
    }
}

proof fn lemma_run_len_is(rs: Seq<JournalRecord>, from: int, k: int, n: int)
    requires
        0 <= from <= rs.len(),
        0 <= k <= n <= rs.len() - from,
        forall|j: int| k <= j < n ==> #[trigger] continues(rs, from, j),
        from + n == rs.len() || !continues(rs, from, n),
    ensures
        run_len(rs, from, k) == n,
    decreases n - k,
{
    if k < n {
        assert(continues(rs, from, k));
        lemma_run_len_is(rs, from, k + 1, n);
    }
}

/// What a journal's file comes to.
#[derive(Debug)]
pub struct ReplayState {
    pub records: Vec<JournalRecord>,
    pub resume_offset: Option<String>,
    pub next_local_seq: u64,
    pub next_batch_seq: u64,
    /// Byte length of the validated file content: up to the end of the last committed record's
    /// line. What follows should be truncated before appending new data.
    pub valid_bytes: u64,
}

/// Whether two optional strings have the same content.
fn same_opt(a: &Option<String>, b: &Option<String>) -> (r: bool)
    ensures
        r == (text_opt(*a) == text_opt(*b)),
{
    match (a, b) {
        (Some(x), Some(y)) => same(x.as_str(), y.as_str()),
        (None, None) => true,
        _ => false,
    }
}

fn record_continues(records: &Vec<JournalRecord>, from: usize, k: usize) -> (r: bool)
    requires
        from + k < records@.len(),
    ensures
        r == continues(records@, from as int, k as int),
{
    let total: usize = records.len();
    assert(from + k < total);
    let r = &records[from + k];
    let first = &records[from];
    r.local_seq == (from + k) as u64 && r.batch_index as u64 == k as u64 && r.batch_seq
        == first.batch_seq && r.batch_len == first.batch_len && same_opt(
        &r.next_offset,
        &first.next_offset,
    )
}

/// Commits the longest prefix of the records that is made of whole batches.
pub fn commit_valid_prefix(records: Vec<JournalRecord>) -> (r: ReplayState)
    requires
        forall|i: int| 0 <= i < records@.len() ==> (#[trigger] records@[i]).batch_seq < u64::MAX,
    ensures
        ({
            let v = replayed(records@);
            &&& 0 <= v.committed <= records@.len()
            &&& r.records@ == records@.take(v.committed)
            &&& text_opt(r.resume_offset) == v.resume
            &&& r.next_local_seq == v.committed
            &&& r.next_batch_seq == v.next_batch
            &&& r.valid_bytes == 0
        }),
{
    let ghost rs = records@;
    let total: usize = records.len();
    let mut from: usize = 0;
    let mut resume_offset: Option<String> = None;
    let mut next_batch_seq: u64 = 0;
    let mut more = true;
    while more
        invariant
            total == records@.len(),
            records@ == rs,
            forall|i: int| 0 <= i < rs.len() ==> (#[trigger] rs[i]).batch_seq < u64::MAX,
            from <= total,
            more ==> replayed(rs) == replay_from(
                rs,
                from as int,
                text_opt(resume_offset),
                next_batch_seq as int,
            ),
            !more ==> replayed(rs) == (ReplayView {
                committed: from as int,
                resume: text_opt(resume_offset),
                next_batch: next_batch_seq as int,
            }),
        decreases
            total - from + if more {
                1int
            } else {
                0int
            },
    {
        let mut n: usize = 0;
        while from + n < total && record_continues(&records, from, n)
            invariant
                from + n <= total,
                total == records@.len(),
                records@ == rs,
                run_len(rs, from as int, 0) == run_len(rs, from as int, n as int),
            decreases total - from - n,
        {
            n += 1;
        }
        proof {
            lemma_run_len(rs, from as int, n as int);
            assert(run_len(rs, from as int, n as int) == n);
        }
        if n == 0 || n as u64 != records[from].batch_len as u64 {
            more = false;
        } else {
            if records[from].next_offset.is_some() {
                resume_offset = records[from].next_offset.clone();
            }
            next_batch_seq = records[from].batch_seq + 1;
            more = from + n < total && records[from + n].batch_seq != records[from].batch_seq;
            from = from + n;
        }
    }
    let mut committed = records;
    committed.truncate(from);
    assert(committed@ =~= rs.take(from as int));
    ReplayState {
        records: committed,
        resume_offset,
        next_local_seq: from as u64,
        next_batch_seq,
        valid_bytes: 0,
    }
}

/// What the checks of the parsed lines come to: how many lines are records of this journal,
/// up to the first that is no record, or the first record that does not fit.
pub enum Scan {
    Accepted(int),
    WrongVersion(u32),
    WrongStream(JournalStreamIdentity),
}

/// Checks the parsed lines from `i` on.
pub open spec fn scan(parsed: Seq<Option<JournalRecord>>, stream: JournalStreamIdentity, i: int) -> Scan
    decreases parsed.len() - i,
{
    if i >= parsed.len() {
        Scan::Accepted(i)
    } else {
        match parsed[i] {
            None => Scan::Accepted(i),
            Some(r) => if r.version != JOURNAL_RECORD_VERSION {
                Scan::WrongVersion(r.version)
            } else if r.stream.path@ != stream.path@ || r.stream.content_type@
                != stream.content_type@ {
                Scan::WrongStream(r.stream)
            } else {
                scan(parsed, stream, i + 1)
            },
        }
    }
}

/// The records in the first `n` parsed lines.
pub open spec fn records_in(parsed: Seq<Option<JournalRecord>>, n: int) -> Seq<JournalRecord> {
    Seq::new(n as nat, |i: int| parsed[i].unwrap())
}

/// The message for a journal of another stream.
pub open spec fn mismatch_message(expected: JournalStreamIdentity, found: JournalStreamIdentity) -> Seq<
    char,
> {
    "journal stream mismatch: expected '"@ + expected.path@ + "' with content type '"@
        + expected.content_type@ + "', found '"@ + found.path@ + "' with '"@ + found.content_type@
        + "'"@
}

/// Whether a replay state is what replay of the records comes to.
pub open spec fn is_replay(state: ReplayState, rs: Seq<JournalRecord>) -> bool {
    let v = replayed(rs);
    &&& 0 <= v.committed <= rs.len()
    &&& state.records@ == rs.take(v.committed)
    &&& text_opt(state.resume_offset) == v.resume
    &&& state.next_local_seq == v.committed
    &&& state.next_batch_seq == v.next_batch
}

/// The length of the file content that the first `committed` lines take up, where each line ends
/// at `ends`.
pub open spec fn validated_len(ends: Seq<int>, committed: int) -> int {
    if committed == 0 {
        0
    } else {
        ends[committed - 1]
    }
}

/// The places in a file.
pub open spec fn places(ends: Seq<usize>) -> Seq<int> {
    ends.map_values(|e: usize| e as int)
}

/// Rebuilds a journal from its parsed lines, of which a line that is no record is `None`, and
/// the places where the lines end. Replay ends at the first such line; a record of another
/// version or stream fails it.
pub fn replay_journal(
    parsed: Vec<Option<JournalRecord>>,
    stream: &JournalStreamIdentity,
    ends: &Vec<usize>,
) -> (r: Result<ReplayState, Error>)
    requires
        ends@.len() == parsed@.len(),
        forall|i: int|
            0 <= i < parsed@.len() ==> (#[trigger] parsed@[i] matches Some(rec) ==> rec.batch_seq
                < u64::MAX),
    ensures
        match scan(parsed@, *stream, 0) {
            Scan::Accepted(n) => r matches Ok(state) && is_replay(state, records_in(parsed@, n))
                && state.valid_bytes == validated_len(
                places(ends@),
                replayed(records_in(parsed@, n)).committed,
            ),
            Scan::WrongVersion(v) => r matches Err(Error::Parse(m)) && m@
                == "unsupported journal record version "@ + decimal(v as nat),
            Scan::WrongStream(found) => r matches Err(Error::Parse(m)) && m@ == mismatch_message(
                *stream,
                found,
            ),
        },
{
    let ghost all = parsed@;
    let mut records: Vec<JournalRecord> = Vec::new();
    let mut open = true;
    assert(records@ =~= records_in(all, 0));
    for item in it: parsed
        invariant
            it.seq() == all,
            forall|i: int|
                0 <= i < all.len() ==> (#[trigger] all[i] matches Some(rec) ==> rec.batch_seq
                    < u64::MAX),
            records@.len() <= it.index() <= all.len(),
            open ==> records@.len() == it.index() && scan(all, *stream, 0) == scan(
                all,
                *stream,
                it.index() as int,
            ),
            !open ==> scan(all, *stream, 0) == Scan::Accepted(records@.len() as int),
            records@ == records_in(all, records@.len() as int),
            forall|i: int| 0 <= i < records@.len() ==> (#[trigger] records@[i]).batch_seq < u64::MAX,
    {
        if open {
            match item {
                None => {
                    open = false;
                },
                Some(record) => {
                    assert(all[it.index() as int] == Some(record));
                    if record.version != JOURNAL_RECORD_VERSION {
                        return Err(
                            Error::Parse(
                                joined(
                                    "unsupported journal record version ",
                                    u64_text(record.version as u64).as_str(),
                                ),
                            ),
                        );
                    }
                    if !same(record.stream.path.as_str(), stream.path.as_str()) || !same(
                        record.stream.content_type.as_str(),
                        stream.content_type.as_str(),
                    ) {
                        let head = joined4(
                            "journal stream mismatch: expected '",
                            stream.path.as_str(),
                            "' with content type '",
                            stream.content_type.as_str(),
                        );
                        let middle = joined4(
                            head.as_str(),
                            "', found '",
                            record.stream.path.as_str(),
                            "' with '",
                        );
                        let whole = joined3(
                            middle.as_str(),
                            record.stream.content_type.as_str(),
                            "'",
                        );
                        return Err(Error::Parse(whole));
                    }
                    let ghost before = records@;
                    records.push(record);
                    assert(records@ =~= records_in(all, records@.len() as int));
                },
            }
        }
    }
    let mut state = commit_valid_prefix(records);
    let committed: usize = state.records.len();
    if committed > 0 {
        state.valid_bytes = ends[committed - 1] as u64;
    }
    Ok(state)
}

/// Opened append-only JSONL journal.
///
/// Replay is fail-open for a trailing damaged suffix: an incomplete last line
/// or malformed trailing record is ignored without discarding the valid prefix.
/// Earlier structural inconsistencies, such as a stream identity mismatch or an
/// unsupported schema version, still fail the open operation.
#[derive(Debug)]
pub struct JsonJournal {
    pub stream: JournalStreamIdentity,
    pub records: Vec<JournalRecord>,
    pub resume_offset: Option<String>,
    pub next_local_seq: u64,
    pub next_batch_seq: u64,
}

/// Whether the records are those of one batch: each carries its place, the length and the
/// offset of the batch.
pub open spec fn is_batch(
    batch: Seq<JournalRecord>,
    local_seq: int,
    batch_seq: int,
    next_offset: Option<Seq<char>>,
) -> bool {
    forall|k: int|
        0 <= k < batch.len() ==> {
            let r = #[trigger] batch[k];
            &&& r.version == JOURNAL_RECORD_VERSION
            &&& r.local_seq == local_seq + k
            &&& r.batch_seq == batch_seq
            &&& r.batch_index == k
            &&& r.batch_len == batch.len()
            &&& text_opt(r.next_offset) == next_offset
        }
}

/// Whether a record repeats what was handed over for the batch.
pub open spec fn carries(
    r: JournalRecord,
    stream: JournalStreamIdentity,
    direction: JournalDirection,
    payload: String,
    now: Timestamp,
    producer: Option<&ProducerJournalProgress>,
) -> bool {
    &&& r.stream == stream
    &&& r.direction == direction
    &&& r.payload == payload
    &&& r.observed_at == now
    &&& r.persisted_at == now
    &&& match (r.producer, producer) {
        (Some(p), Some(q)) => p.producer_id == q.producer_id && p.epoch == q.epoch && p.next_seq
            == q.next_seq && text_opt(p.acked_server_offset) == text_opt(q.acked_server_offset)
            && p.acked_local_seq == q.acked_local_seq,
        (None, None) => true,
        _ => false,
    }
}

/// What a journal holds.
#[verifier::ext_equal]
pub struct JournalView {
    pub stream: JournalStreamIdentity,
    pub records: Seq<JournalRecord>,
    pub resume: Option<Seq<char>>,
    pub next_local: int,
    pub next_batch: int,
}

impl View for JsonJournal {
    type V = JournalView;

    open spec fn view(&self) -> JournalView {
        JournalView {
            stream: self.stream,
            records: self.records@,
            resume: text_opt(self.resume_offset),
            next_local: self.next_local_seq as int,
            next_batch: self.next_batch_seq as int,
        }
    }
}

/// What replay leaves a journal with.
pub open spec fn opened(stream: JournalStreamIdentity, rs: Seq<JournalRecord>) -> JournalView {
    let v = replayed(rs);
    JournalView {
        stream,
        records: rs.take(v.committed),
        resume: v.resume,
        next_local: v.committed,
        next_batch: v.next_batch,
    }
}

/// An offset, where there is one, else the one before it.
pub open spec fn moved(offset: Option<Seq<char>>, before: Option<Seq<char>>) -> Option<Seq<char>> {
    match offset {
        Some(o) => Some(o),
        None => before,
    }
}

/// What a journal holds after a batch.
pub open spec fn after_batch(j: JournalView, batch: Seq<JournalRecord>) -> JournalView {
    if batch.len() == 0 {
        j
    } else {
        JournalView {
            records: j.records + batch,
            resume: moved(text_opt(batch.last().next_offset), j.resume),
            next_local: j.next_local + batch.len(),
            next_batch: j.next_batch + 1,
            ..j
        }
    }
}

impl JsonJournal {
    /// The journal that a replay comes to.
    pub fn open(stream: JournalStreamIdentity, replay: ReplayState) -> (r: Self)
        ensures
            r.stream == stream,
            r.records == replay.records,
            r.resume_offset == replay.resume_offset,
            r.next_local_seq == replay.next_local_seq,
            r.next_batch_seq == replay.next_batch_seq,
            forall|rs: Seq<JournalRecord>| #[trigger]
                is_replay(replay, rs) ==> r@ == opened(stream, rs),
    {
        JsonJournal {
            stream,
            records: replay.records,
            resume_offset: replay.resume_offset,
            next_local_seq: replay.next_local_seq,
            next_batch_seq: replay.next_batch_seq,
        }
    }

    /// Return the bound stream identity.
    #[must_use]
    pub fn stream(&self) -> (r: &JournalStreamIdentity)
        ensures
            *r == self.stream,
    {
        &self.stream
    }

    /// Return the last persisted server offset, if any.
    #[must_use]
    pub fn resume_offset(&self) -> (r: Option<&str>)
        ensures
            match r {
                Some(o) => text_opt(self.resume_offset) == Some(o@),
                None => self.resume_offset is None,
            },
    {
        match &self.resume_offset {
            Some(o) => Some(o.as_str()),
            None => None,
        }
    }

    /// Borrow all committed journal records.
    #[must_use]
    pub fn records(&self) -> (r: &Vec<JournalRecord>)
        ensures
            *r == self.records,
    {
        &self.records
    }

    /// The persisted JSON payloads in committed local sequence order.
    #[must_use]
    pub fn values(&self) -> (r: Vec<&String>)
        ensures
            r@.len() == self.records@.len(),
            forall|i: int| 0 <= i < r@.len() ==> *(#[trigger] r@[i]) == self.records@[i].payload,
    {
        let mut out: Vec<&String> = Vec::new();
        let mut i: usize = 0;
        while i < self.records.len()
            invariant
                i <= self.records@.len(),
                out@.len() == i,
                forall|j: int| 0 <= j < i ==> *(#[trigger] out@[j]) == self.records@[j].payload,
            decreases self.records.len() - i,
        {
            out.push(&self.records[i].payload);
            i += 1;
        }
        out
    }

    /// Return whether the journal has no committed records.
    #[must_use]
    pub fn is_empty(&self) -> (r: bool)
        ensures
            r == (self.records@.len() == 0),
    {
        self.records.len() == 0
    }

    /// The records of a new batch of values, to be written one line each. All of them share
    /// the durable `next_offset`.
    pub fn prepare_batch(
        &self,
        direction: JournalDirection,
        values: &Vec<String>,
        next_offset: &Option<String>,
        producer: Option<&ProducerJournalProgress>,
        now: Timestamp,
    ) -> (r: Result<Vec<JournalRecord>, Error>)
        requires
            self.next_local_seq + values@.len() <= u64::MAX,
        ensures
            match r {
                Ok(batch) => {
                    &&& values@.len() <= u32::MAX
                    &&& batch@.len() == values@.len()
                    &&& is_batch(
                        batch@,
                        self.next_local_seq as int,
                        self.next_batch_seq as int,
                        text_opt(*next_offset),
                    )
                    &&& forall|k: int|
                        0 <= k < batch@.len() ==> carries(
                            #[trigger] batch@[k],
                            self.stream,
                            direction,
                            values@[k],
                            now,
                            producer,
                        )
                },
                Err(Error::InvalidArgument(m)) => values@.len() > u32::MAX && m@
                    == "journal batch is too large"@,
                Err(_) => false,
            },
    {
        let total: usize = values.len();
        if total as u64 > u32::MAX as u64 {
            return Err(Error::invalid_argument("journal batch is too large"));
        }
        let batch_len: u32 = total as u32;
        let mut batch: Vec<JournalRecord> = Vec::new();
        let mut i: usize = 0;
        while i < total
            invariant
                i <= total,
                total == values@.len(),
                total <= u32::MAX,
                batch_len == total,
                self.next_local_seq + total <= u64::MAX,
                batch@.len() == i,
                forall|k: int|
                    0 <= k < i ==> {
                        let r = #[trigger] batch@[k];
                        &&& r.version == JOURNAL_RECORD_VERSION
                        &&& r.local_seq == self.next_local_seq + k
                        &&& r.batch_seq == self.next_batch_seq
                        &&& r.batch_index == k
                        &&& r.batch_len == total
                        &&& text_opt(r.next_offset) == text_opt(*next_offset)
                        &&& carries(r, self.stream, direction, values@[k], now, producer)
                    },
            decreases total - i,
        {
            let progress = match producer {
                Some(p) => Some(p.copy()),
                None => None,
            };
            let record = JournalRecord {
                version: JOURNAL_RECORD_VERSION,
                stream: self.stream.copy(),
                direction,
                local_seq: self.next_local_seq + i as u64,
                batch_seq: self.next_batch_seq,
                batch_index: i as u32,
                batch_len,
                payload: values[i].clone(),
                next_offset: next_offset.clone(),
                observed_at: now,
                persisted_at: now,
                producer: progress,
            };
            batch.push(record);
            i += 1;
        }
        Ok(batch)
    }

    /// Takes over a batch whose lines are on disk.
    pub fn commit_written(&mut self, batch: Vec<JournalRecord>)
        requires
            old(self).next_local_seq + batch@.len() <= u64::MAX,
            old(self).next_batch_seq < u64::MAX,
        ensures
            final(self)@ == after_batch(old(self)@, batch@),
            batch@.len() == 0 ==> *final(self) == *old(self),
    {
        let n: usize = batch.len();
        if n == 0 {
            return ;
        }
        if batch[n - 1].next_offset.is_some() {
            self.resume_offset = batch[n - 1].next_offset.clone();
        }
        self.next_local_seq = self.next_local_seq + n as u64;
        self.next_batch_seq = self.next_batch_seq + 1;
        let mut added = batch;
        self.records.append(&mut added);
    }

    /// Takes over an append whose lines, if it has any, are on disk, and says how many records
    /// it has. One without records only moves the resume offset.
    pub fn append_written(&mut self, batch: Vec<JournalRecord>, next_offset: Option<String>) -> (r:
        usize)
        requires
            old(self).next_local_seq + batch@.len() <= u64::MAX,
            batch@.len() > 0 ==> old(self).next_batch_seq < u64::MAX,
        ensures
            final(self)@ == after_append(
                old(self)@,
                (Append { batch: batch@, offset: text_opt(next_offset) }),
            ),
            r == batch@.len(),
    {
        let count: usize = batch.len();
        if count == 0 {
            self.advance_offset(next_offset);
        } else {
            self.commit_written(batch);
        }
        count
    }

    /// Moves the resume offset after a page without values, so that the same position is not
    /// asked for again.
    pub fn advance_offset(&mut self, next_offset: Option<String>)
        ensures
            final(self)@ == (JournalView {
                resume: moved(text_opt(next_offset), old(self)@.resume),
                ..old(self)@
            }),
            final(self).stream == old(self).stream,
            final(self).records == old(self).records,
            final(self).next_local_seq == old(self).next_local_seq,
            final(self).next_batch_seq == old(self).next_batch_seq,
            final(self).resume_offset == match next_offset {
                Some(o) => Some(o),
                None => old(self).resume_offset,
            },
    {
        if let Some(offset) = next_offset {
            self.resume_offset = Some(offset);
        }
    }
}

proof fn lemma_same_run(rs: Seq<JournalRecord>, more: Seq<JournalRecord>, from: int, n: int)
    requires
        0 <= from < rs.len(),
        n == run_len(rs, from, 0),
        from + n < rs.len() || more.len() == 0 || more[0].batch_seq != rs[from].batch_seq,
    ensures
        run_len(rs + more, from, 0) == n,
{
    lemma_run_len(rs, from, 0);
    let all = rs + more;
    assert forall|j: int| 0 <= j < n implies #[trigger] continues(all, from, j) by {
        assert(continues(rs, from, j));
    }
    if from + n == rs.len() && more.len() > 0 {
        assert(all[from + n] == more[0]);
    }
    if from + n < rs.len() {
        assert(all[from + n] == rs[from + n]);
        assert(all[from] == rs[from]);
        assert(!continues(rs, from, n));
    }
    lemma_run_len_is(all, from, 0, n);
}

proof fn lemma_replay_bounds(
    rs: Seq<JournalRecord>,
    from: int,
    resume: Option<Seq<char>>,
    next_batch: int,
)
    requires
        0 <= from <= rs.len(),
    ensures
        from <= replay_from(rs, from, resume, next_batch).committed <= rs.len(),
        forall|i: int|
            from <= i < replay_from(rs, from, resume, next_batch).committed
                ==> (#[trigger] rs[i]).local_seq == i && rs[i].batch_index < rs[i].batch_len,
    decreases rs.len() - from,
{
    lemma_run_len(rs, from, 0);
    let n = run_len(rs, from, 0);
    if n > 0 && n == rs[from].batch_len {
        assert forall|i: int| from <= i < from + n implies (#[trigger] rs[i]).local_seq == i
            && rs[i].batch_index < rs[i].batch_len by {
            assert(continues(rs, from, i - from));
        }
        if from + n < rs.len() && rs[from + n].batch_seq != rs[from].batch_seq {
            lemma_replay_bounds(rs, from + n, resume_after(rs[from], resume), rs[from].batch_seq + 1);
        }
    }
}

/// Replay commits a prefix of the records, and the committed records are numbered without
/// gaps from zero.
pub proof fn law_replay_commits_a_prefix(rs: Seq<JournalRecord>)
    ensures
        0 <= replayed(rs).committed <= rs.len(),
        forall|i: int| 0 <= i < replayed(rs).committed ==> (#[trigger] rs[i]).local_seq == i,
{
    lemma_replay_bounds(rs, 0, None, 0);
}

proof fn lemma_replay_of_batch(
    rs: Seq<JournalRecord>,
    batch: Seq<JournalRecord>,
    m: int,
    offset: Option<Seq<char>>,
    resume: Option<Seq<char>>,
    next_batch: int,
)
    requires
        batch.len() > 0,
        0 < m <= batch.len(),
        is_batch(batch, rs.len() as int, next_batch, offset),
    ensures
        replay_from(rs + batch.take(m), rs.len() as int, resume, next_batch) == if m == batch.len() {
            ReplayView {
                committed: rs.len() + m,
                resume: moved(offset, resume),
                next_batch: next_batch + 1,
            }
        } else {
            ReplayView { committed: rs.len() as int, resume, next_batch }
        },
{
    let part = batch.take(m);
    let all = rs + part;
    let from = rs.len() as int;
    assert forall|j: int| 0 <= j < m implies #[trigger] continues(all, from, j) by {
        assert(all[from + j] == batch[j]);
        assert(all[from] == batch[0]);
    }
    lemma_run_len_is(all, from, 0, m);
    assert(all[from] == batch[0]);
}

proof fn lemma_replay_then(
    rs: Seq<JournalRecord>,
    batch: Seq<JournalRecord>,
    m: int,
    offset: Option<Seq<char>>,
    from: int,
    resume: Option<Seq<char>>,
    next_batch: int,
)
    requires
        0 <= from < rs.len(),
        batch.len() > 0,
        0 < m <= batch.len(),
        replay_from(rs, from, resume, next_batch).committed == rs.len(),
        is_batch(
            batch,
            rs.len() as int,
            replay_from(rs, from, resume, next_batch).next_batch,
            offset,
        ),
    ensures
        ({
            let v = replay_from(rs, from, resume, next_batch);
            replay_from(rs + batch.take(m), from, resume, next_batch) == replay_from(
                rs + batch.take(m),
                rs.len() as int,
                v.resume,
                v.next_batch,
            )
        }),
    decreases rs.len() - from,
{
    let part = batch.take(m);
    let all = rs + part;
    lemma_run_len(rs, from, 0);
    let n = run_len(rs, from, 0);
    let v = replay_from(rs, from, resume, next_batch);
    assert(n > 0 && n == rs[from].batch_len);
    assert(part[0] == batch[0]);
    assert(all[from] == rs[from]);
    if from + n < rs.len() {
        lemma_same_run(rs, part, from, n);
        assert(rs[from + n].batch_seq != rs[from].batch_seq);
        assert(all[from + n] == rs[from + n]);
        lemma_replay_then(
            rs,
            batch,
            m,
            offset,
            from + n,
            resume_after(rs[from], resume),
            rs[from].batch_seq + 1,
        );
    } else {
        assert(v.next_batch == rs[from].batch_seq + 1);
        lemma_same_run(rs, part, from, n);
        assert(all[from + n] == batch[0]);
    }
}

/// What a restart rebuilds: where replay of the records commits them all, replay of the
/// records with the next batch behind them commits them all too, moves the offset to that
/// of the batch and counts the batch.
pub proof fn law_replay_rebuilds_appended_batch(
    rs: Seq<JournalRecord>,
    batch: Seq<JournalRecord>,
    offset: Option<Seq<char>>,
)
    requires
        replayed(rs).committed == rs.len(),
        batch.len() > 0,
        is_batch(batch, rs.len() as int, replayed(rs).next_batch, offset),
    ensures
        replayed(rs + batch) == (ReplayView {
            committed: (rs + batch).len() as int,
            resume: moved(offset, replayed(rs).resume),
            next_batch: replayed(rs).next_batch + 1,
        }),
{
    let v = replayed(rs);
    let m = batch.len() as int;
    assert(batch.take(m) =~= batch);
    if rs.len() == 0 {
        lemma_run_len(rs, 0, 0);
        lemma_replay_of_batch(rs, batch, m, offset, None, 0);
    } else {
        lemma_replay_then(rs, batch, m, offset, 0, None, 0);
        lemma_replay_of_batch(rs, batch, m, offset, v.resume, v.next_batch);
    }
}

/// A batch of which only a part was written is dropped: replay comes to what it came to
/// without it, and the offset does not move.
pub proof fn law_partial_batch_is_dropped(
    rs: Seq<JournalRecord>,
    batch: Seq<JournalRecord>,
    m: int,
    offset: Option<Seq<char>>,
)
    requires
        replayed(rs).committed == rs.len(),
        0 < m < batch.len(),
        is_batch(batch, rs.len() as int, replayed(rs).next_batch, offset),
    ensures
        replayed(rs + batch.take(m)) == replayed(rs),
{
    let v = replayed(rs);
    if rs.len() == 0 {
        lemma_run_len(rs, 0, 0);
        lemma_replay_of_batch(rs, batch, m, offset, None, 0);
    } else {
        lemma_replay_then(rs, batch, m, offset, 0, None, 0);
        lemma_replay_of_batch(rs, batch, m, offset, v.resume, v.next_batch);
    }
}

/// Whether replay of a journal's records gives them all back, and goes on numbering where the
/// journal does.
pub open spec fn keeps_records(j: JournalView) -> bool {
    let v = replayed(j.records);
    v.committed == j.records.len() && v.next_batch == j.next_batch && j.next_local == j.records.len()
}

/// Whether replay of a journal's records gives back all that it holds.
pub open spec fn is_rebuilt(j: JournalView) -> bool {
    opened(j.stream, j.records) == j
}

/// What replay commits, replay commits alone: without the records behind it, it comes to the
/// same.
pub proof fn law_committed_records_replay_alike(rs: Seq<JournalRecord>)
    ensures
        replayed(rs.take(replayed(rs).committed)) == replayed(rs),
{
    lemma_replay_bounds(rs, 0, None, 0);
    lemma_replay_of_committed(rs, 0, None, 0);
}

proof fn lemma_replay_of_committed(
    rs: Seq<JournalRecord>,
    from: int,
    resume: Option<Seq<char>>,
    next_batch: int,
)
    requires
        0 <= from <= rs.len(),
    ensures
        ({
            let v = replay_from(rs, from, resume, next_batch);
            replay_from(rs.take(v.committed), from, resume, next_batch) == v
        }),
    decreases rs.len() - from,
{
    lemma_replay_bounds(rs, from, resume, next_batch);
    lemma_run_len(rs, from, 0);
    let v = replay_from(rs, from, resume, next_batch);
    let part = rs.take(v.committed);
    let n = run_len(rs, from, 0);
    if n <= 0 || from >= rs.len() || n != rs[from].batch_len {
        lemma_run_len(part, from, 0);
    } else {
        let resume2 = resume_after(rs[from], resume);
        let next2 = rs[from].batch_seq + 1;
        let goes_on = from + n < rs.len() && rs[from + n].batch_seq != rs[from].batch_seq;
        if goes_on {
            lemma_replay_of_committed(rs, from + n, resume2, next2);
            lemma_replay_bounds(rs, from + n, resume2, next2);
        }
        assert(from + n <= v.committed);
        assert forall|k: int| 0 <= k < n implies #[trigger] continues(part, from, k) by {
            assert(continues(rs, from, k));
            assert(part[from + k] == rs[from + k]);
            assert(part[from] == rs[from]);
        }
        assert(part[from] == rs[from]);
        if from + n < v.committed {
            assert(part[from + n] == rs[from + n]);
            assert(!continues(rs, from, n));
            assert(!continues(part, from, n));
        }
        lemma_run_len_is(part, from, 0, n);
        if goes_on && from + n == v.committed {
            let w = replay_from(rs, from + n, resume2, next2);
            lemma_run_len(part, from + n, 0);
            assert(replay_from(part, from + n, resume2, next2) == w);
            lemma_stopped_at_once(rs, from + n, resume2, next2);
        }
    }
}

/// Replay that commits nothing changes nothing.
proof fn lemma_stopped_at_once(
    rs: Seq<JournalRecord>,
    from: int,
    resume: Option<Seq<char>>,
    next_batch: int,
)
    requires
        0 <= from <= rs.len(),
        replay_from(rs, from, resume, next_batch).committed == from,
    ensures
        replay_from(rs, from, resume, next_batch) == (ReplayView {
            committed: from,
            resume,
            next_batch,
        }),
{
    lemma_run_len(rs, from, 0);
    let n = run_len(rs, from, 0);
    if n > 0 && n == rs[from].batch_len && from + n < rs.len() && rs[from + n].batch_seq
        != rs[from].batch_seq {
        lemma_replay_bounds(rs, from + n, resume_after(rs[from], resume), rs[from].batch_seq + 1);
    }
}

/// One append: the records of its batch, and the offset that they share. A batch without
/// records moves the offset in memory alone.
pub struct Append {
    pub batch: Seq<JournalRecord>,
    pub offset: Option<Seq<char>>,
}

/// What a journal holds after an append.
pub open spec fn after_append(j: JournalView, a: Append) -> JournalView {
    if a.batch.len() == 0 {
        JournalView { resume: moved(a.offset, j.resume), ..j }
    } else {
        after_batch(j, a.batch)
    }
}

/// What a journal holds after some appends.
pub open spec fn after_appends(j: JournalView, appends: Seq<Append>) -> JournalView
    decreases appends.len(),
{
    if appends.len() == 0 {
        j
    } else {
        after_append(after_appends(j, appends.drop_last()), appends.last())
    }
}

/// Whether each batch is one that the journal prepares when its turn comes, of its own stream.
pub open spec fn are_prepared(j: JournalView, appends: Seq<Append>) -> bool
    decreases appends.len(),
{
    appends.len() == 0 || {
        let before = after_appends(j, appends.drop_last());
        are_prepared(j, appends.drop_last()) && is_batch(
            appends.last().batch,
            before.next_local,
            before.next_batch,
            appends.last().offset,
        ) && forall|k: int|
            0 <= k < appends.last().batch.len() ==> (#[trigger] appends.last().batch[k]).stream
                == j.stream
    }
}

/// Whether no batch is empty.
pub open spec fn hold_records(appends: Seq<Append>) -> bool {
    forall|i: int| 0 <= i < appends.len() ==> (#[trigger] appends[i]).batch.len() > 0
}

/// The records of the appends, in order.
pub open spec fn appended(appends: Seq<Append>) -> Seq<JournalRecord>
    decreases appends.len(),
{
    if appends.len() == 0 {
        Seq::empty()
    } else {
        appended(appends.drop_last()) + appends.last().batch
    }
}

/// After any appends replay gives back the records of all of them, in order, and goes on
/// numbering where the journal does.
pub proof fn law_restart_keeps_appended_records(j: JournalView, appends: Seq<Append>)
    requires
        keeps_records(j),
        are_prepared(j, appends),
    ensures
        keeps_records(after_appends(j, appends)),
        after_appends(j, appends).records == j.records + appended(appends),
        after_appends(j, appends).stream == j.stream,
    decreases appends.len(),
{
    if appends.len() == 0 {
        assert(j.records + appended(appends) =~= j.records);
    } else {
        let most = appends.drop_last();
        let last = appends.last();
        law_restart_keeps_appended_records(j, most);
        let before = after_appends(j, most);
        if last.batch.len() > 0 {
            law_replay_rebuilds_appended_batch(before.records, last.batch, last.offset);
        }
        assert(before.records + last.batch =~= j.records + appended(appends));
        assert(last.batch.len() == 0 ==> before.records + last.batch =~= before.records);
    }
}

/// After any appends of records, a restart gives back what the journal held: replay of its
/// records comes to the same records, the same offset to resume from and the same numbers.
pub proof fn law_restart_rebuilds_the_journal(j: JournalView, appends: Seq<Append>)
    requires
        is_rebuilt(j),
        are_prepared(j, appends),
        hold_records(appends),
    ensures
        is_rebuilt(after_appends(j, appends)),
    decreases appends.len(),
{
    let end = after_appends(j, appends);
    lemma_replay_bounds(j.records, 0, None, 0);
    assert(opened(j.stream, j.records).records.len() == replayed(j.records).committed);
    assert(keeps_records(j));
    law_restart_keeps_appended_records(j, appends);
    if appends.len() > 0 {
        let most = appends.drop_last();
        let last = appends.last();
        assert forall|i: int| 0 <= i < most.len() implies (#[trigger] most[i]).batch.len() > 0 by {
            assert(most[i] == appends[i]);
        }
        assert(appends[appends.len() - 1].batch.len() > 0);
        law_restart_rebuilds_the_journal(j, most);
        law_restart_keeps_appended_records(j, most);
        let before = after_appends(j, most);
        assert(opened(before.stream, before.records).resume == before.resume);
        law_replay_rebuilds_appended_batch(before.records, last.batch, last.offset);
        assert(text_opt(last.batch.last().next_offset) == last.offset);
    }
    assert(end.records.take(end.records.len() as int) =~= end.records);
    assert(opened(end.stream, end.records) =~= end);
}

/// How long the complete lines of a file are: up to and with the last line feed.
pub open spec fn complete_len(bytes: Seq<u8>) -> int
    decreases bytes.len(),
{
    if bytes.len() == 0 {
        0
    } else if bytes.last() == 10 {
        bytes.len() as int
    } else {
        complete_len(bytes.drop_last())
    }
}

/// The lines without the white space around them; empty ones are left out.
pub open spec fn kept_lines(lines: Seq<Seq<u8>>) -> Seq<Seq<u8>>
    decreases lines.len(),
{
    if lines.len() == 0 {
        Seq::empty()
    } else {
        let line = trim_bytes(lines.last());
        if line.len() == 0 {
            kept_lines(lines.drop_last())
        } else {
            kept_lines(lines.drop_last()).push(line)
        }
    }
}

/// How long pieces are, each with a line feed behind it.
pub open spec fn parts_len(parts: Seq<Seq<u8>>) -> int
    decreases parts.len(),
{
    if parts.len() == 0 {
        0
    } else {
        parts_len(parts.drop_last()) + parts.last().len() + 1
    }
}

/// Where the lines that are not left out end, behind their line feeds.
pub open spec fn kept_ends(lines: Seq<Seq<u8>>) -> Seq<int>
    decreases lines.len(),
{
    if lines.len() == 0 {
        Seq::empty()
    } else if trim_bytes(lines.last()).len() == 0 {
        kept_ends(lines.drop_last())
    } else {
        kept_ends(lines.drop_last()).push(parts_len(lines))
    }
}

/// The lines that a journal's file holds.
pub open spec fn journal_lines(bytes: Seq<u8>) -> Seq<Seq<u8>> {
    kept_lines(split_bytes(bytes.take(complete_len(bytes)), 10))
}

/// Where the lines of a journal's file end, behind their line feeds.
pub open spec fn journal_ends(bytes: Seq<u8>) -> Seq<int> {
    kept_ends(split_bytes(bytes.take(complete_len(bytes)), 10))
}

proof fn lemma_split_len(s: Seq<u8>)
    ensures
        split_bytes(s, 10).len() > 0,
        parts_len(split_bytes(s, 10)) == s.len() + 1,
    decreases s.len(),
{
    let parts = split_bytes(s, 10);
    if s.len() == 0 {
        assert(parts.drop_last() =~= Seq::<Seq<u8>>::empty());
        assert(parts_len(parts.drop_last()) == 0);
    } else {
        let p = split_bytes(s.drop_last(), 10);
        lemma_split_len(s.drop_last());
        if s.last() == 10 {
            assert(parts.drop_last() =~= p);
        } else {
            assert(parts.drop_last() =~= p.drop_last());
        }
    }
}

proof fn lemma_parts_len_grows(parts: Seq<Seq<u8>>, i: int)
    requires
        0 <= i <= parts.len(),
    ensures
        0 <= parts_len(parts.take(i)),
        parts_len(parts.take(i)) + (parts.len() - i) <= parts_len(parts),
    decreases parts.len(),
{
    if i == parts.len() {
        assert(parts.take(i) =~= parts);
        if i > 0 {
            lemma_parts_len_grows(parts.drop_last(), i - 1);
            assert(parts.drop_last().take(i - 1) =~= parts.drop_last());
        }
    } else {
        lemma_parts_len_grows(parts.drop_last(), i);
        assert(parts.drop_last().take(i) =~= parts.take(i));
    }
}

proof fn lemma_complete_len(bytes: Seq<u8>, n: int)
    requires
        0 <= n <= bytes.len(),
        n == 0 || bytes[n - 1] == 10,
        forall|j: int| n <= j < bytes.len() ==> #[trigger] bytes[j] != 10,
    ensures
        complete_len(bytes) == n,
    decreases bytes.len(),
{
    if n < bytes.len() {
        let t = bytes.drop_last();
        assert forall|j: int| n <= j < t.len() implies #[trigger] t[j] != 10 by {
            assert(t[j] == bytes[j]);
        }
        assert(bytes[bytes.len() - 1] != 10);
        lemma_complete_len(t, n);
    }
}

/// Reads the lines of a journal's file and where they end. What follows the last line feed is
/// left out.
pub fn read_lines(bytes: &Vec<u8>) -> (r: (Vec<Vec<u8>>, Vec<usize>))
    ensures
        byte_lists(r.0@) == journal_lines(bytes@),
        places(r.1@) == journal_ends(bytes@),
        r.0@.len() == r.1@.len(),
{
    let mut end: usize = bytes.len();
    while end > 0 && bytes[end - 1] != 10
        invariant
            end <= bytes@.len(),
            forall|j: int| end <= j < bytes@.len() ==> #[trigger] bytes@[j] != 10,
        decreases end,
    {
        end -= 1;
    }
    let ghost complete = bytes@.take(end as int);
    proof {
        lemma_complete_len(bytes@, end as int);
        lemma_split_len(complete);
    }
    let parts = split_at_byte(bytes, end, 10);
    let ghost all = byte_lists(parts@);
    let mut lines: Vec<Vec<u8>> = Vec::new();
    let mut ends: Vec<usize> = Vec::new();
    let mut pos: usize = 0;
    let mut i: usize = 0;
    assert(byte_lists(lines@) =~= kept_lines(all.take(0)));
    assert(places(ends@) =~= kept_ends(all.take(0)));
    assert(all.last().len() == 0);
    while i < parts.len()
        invariant
            i <= parts@.len(),
            all == byte_lists(parts@),
            parts_len(all) == end + 1,
            all.len() > 0 && all.last().len() == 0,
            pos == if i == 0 {
                0
            } else {
                parts_len(all.take(i as int)) - 1
            },
            byte_lists(lines@) == kept_lines(all.take(i as int)),
            places(ends@) == kept_ends(all.take(i as int)),
            lines@.len() == ends@.len(),
        decreases parts.len() - i,
    {
        let line = trim_ascii_whitespace(&parts[i]);
        proof {
            let b = all.take(i + 1);
            assert(b.drop_last() =~= all.take(i as int));
            assert(b.last() == parts@[i as int]@);
            lemma_parts_len_grows(all, i + 1);
            assert(all.take(0) =~= Seq::<Seq<u8>>::empty());
            assert(parts_len(all.take(0)) == 0);
            assert(parts_len(b) == parts_len(all.take(i as int)) + parts@[i as int]@.len() + 1);
        }
        if i > 0 {
            pos += 1;
        }
        pos += parts[i].len();
        assert(pos == parts_len(all.take(i + 1)) - 1);
        if line.len() > 0 {
            assert(i + 1 < all.len());
            let ghost before = lines@;
            let ghost places_before = ends@;
            let ghost l = line@;
            lines.push(line);
            ends.push(pos + 1);
            assert(byte_lists(lines@) =~= byte_lists(before).push(l));
            assert(places(ends@) =~= places(places_before).push(pos + 1));
        }
        i += 1;
    }
    assert(all.take(all.len() as int) =~= all);
    (lines, ends)
}

/// The lines, each with a line feed behind it.
pub open spec fn framed(lines: Seq<Seq<u8>>) -> Seq<u8>
    decreases lines.len(),
{
    if lines.len() == 0 {
        Seq::empty()
    } else {
        framed(lines.drop_last()) + lines.last() + seq![10u8]
    }
}

/// Puts a line feed behind each line.
pub fn frame_lines(lines: &Vec<Vec<u8>>) -> (r: Vec<u8>)
    ensures
        r@ == framed(byte_lists(lines@)),
{
    let mut out: Vec<u8> = Vec::new();
    let mut i: usize = 0;
    assert(out@ =~= framed(byte_lists(lines@.take(0))));
    while i < lines.len()
        invariant
            i <= lines@.len(),
            out@ == framed(byte_lists(lines@.take(i as int))),
        decreases lines.len() - i,
    {
        append_slice(&mut out, lines[i].as_slice());
        out.push(10);
        proof {
            let b = byte_lists(lines@.take(i + 1));
            assert(b.drop_last() =~= byte_lists(lines@.take(i as int)));
            assert(b.last() == lines@[i as int]@);
            assert(out@ =~= framed(b));
        }
        i += 1;
    }
    assert(lines@.take(lines@.len() as int) =~= lines@);
    out
}

/// Whether a text can stand as a line of the journal: it is not empty, holds no line feed
/// and no white space stands around it.
pub open spec fn is_line(line: Seq<u8>) -> bool {
    &&& line.len() > 0
    &&& !is_ascii_space(line[0])
    &&& !is_ascii_space(line.last())
    &&& forall|j: int| 0 <= j < line.len() ==> #[trigger] line[j] != 10
}

proof fn lemma_split_then(s: Seq<u8>, l: Seq<u8>)
    requires
        forall|j: int| 0 <= j < l.len() ==> #[trigger] l[j] != 10,
    ensures
        ({
            let p = split_bytes(s, 10);
            &&& p.len() > 0
            &&& split_bytes(s + l, 10) == p.drop_last().push(p.last() + l)
        }),
    decreases s.len() + l.len(),
{
    let p = split_bytes(s, 10);
    if l.len() == 0 {
        assert(s + l =~= s);
        if s.len() > 0 {
            let t = s.drop_last();
            lemma_split_then(t, l);
        }
        assert(p.last() + l =~= p.last());
        assert(p.drop_last().push(p.last()) =~= p);
    } else {
        let k = l.drop_last();
        assert forall|j: int| 0 <= j < k.len() implies #[trigger] k[j] != 10 by {
            assert(k[j] == l[j]);
        }
        lemma_split_then(s, k);
        assert((s + l).drop_last() =~= s + k);
        assert((s + l).last() == l[l.len() - 1]);
        let q = split_bytes(s + k, 10);
        assert(q.drop_last() =~= p.drop_last());
        assert((p.last() + k).push(l.last()) =~= p.last() + l);
    }
}

proof fn lemma_split_framed(lines: Seq<Seq<u8>>)
    requires
        forall|i: int| 0 <= i < lines.len() ==> is_line(#[trigger] lines[i]),
    ensures
        split_bytes(framed(lines), 10) == lines.push(Seq::empty()),
    decreases lines.len(),
{
    if lines.len() == 0 {
        assert(split_bytes(framed(lines), 10) =~= lines.push(Seq::empty()));
    } else {
        let most = lines.drop_last();
        let l = lines.last();
        assert forall|i: int| 0 <= i < most.len() implies is_line(#[trigger] most[i]) by {
            assert(most[i] == lines[i]);
        }
        lemma_split_framed(most);
        assert(is_line(lines[lines.len() - 1]));
        let s = framed(most);
        lemma_split_then(s, l);
        let p = split_bytes(s, 10);
        assert(p.drop_last() =~= most);
        assert(p.last() + l =~= l);
        assert(most.push(l) =~= lines);
        let whole = framed(lines);
        assert(whole.drop_last() =~= s + l);
        assert(whole.last() == 10);
    }
}

proof fn lemma_kept_lines(lines: Seq<Seq<u8>>)
    requires
        forall|i: int| 0 <= i < lines.len() ==> is_line(#[trigger] lines[i]),
    ensures
        kept_lines(lines) == lines,
    decreases lines.len(),
{
    if lines.len() > 0 {
        let most = lines.drop_last();
        assert forall|i: int| 0 <= i < most.len() implies is_line(#[trigger] most[i]) by {
            assert(most[i] == lines[i]);
        }
        lemma_kept_lines(most);
        assert(is_line(lines[lines.len() - 1]));
        assert(trim_bytes_start(lines.last()) == lines.last());
        assert(trim_bytes(lines.last()) == lines.last());
        assert(most.push(lines.last()) =~= lines);
    } else {
        assert(kept_lines(lines) =~= lines);
    }
}

/// Lines that were written are read back, and a line that was only partly written behind
/// them is left out.
pub proof fn law_written_lines_read_back(lines: Seq<Seq<u8>>, partial: Seq<u8>)
    requires
        forall|i: int| 0 <= i < lines.len() ==> is_line(#[trigger] lines[i]),
        forall|j: int| 0 <= j < partial.len() ==> #[trigger] partial[j] != 10,
    ensures
        complete_len(framed(lines) + partial) == framed(lines).len(),
        journal_lines(framed(lines) + partial) == lines,
{
    let s = framed(lines);
    let all = s + partial;
    let n = s.len() as int;
    if n > 0 {
        assert(s.last() == 10);
        assert(all[n - 1] == s[n - 1]);
    }
    assert forall|j: int| n <= j < all.len() implies #[trigger] all[j] != 10 by {
        assert(all[j] == partial[j - n]);
    }
    lemma_complete_len(all, n);
    assert(all.take(n) =~= s);
    lemma_split_framed(lines);
    let parts = lines.push(Seq::<u8>::empty());
    assert(parts.drop_last() =~= lines);
    assert(trim_bytes(Seq::<u8>::empty()).len() == 0);
    lemma_kept_lines(lines);
}

proof fn lemma_split_of_prefix(s: Seq<u8>, m: int)
    requires
        0 <= m < split_bytes(s, 10).len(),
    ensures
        ({
            let parts = split_bytes(s, 10);
            let k = parts_len(parts.take(m));
            &&& 0 <= k <= s.len()
            &&& split_bytes(s.take(k), 10) == parts.take(m).push(Seq::empty())
        }),
    decreases s.len(),
{
    let parts = split_bytes(s, 10);
    let k = parts_len(parts.take(m));
    lemma_split_len(s);
    lemma_parts_len_grows(parts, m);
    if s.len() == 0 {
        assert(parts.take(0) =~= Seq::<Seq<u8>>::empty());
        assert(s.take(0) =~= s);
        assert(parts =~= parts.take(0).push(Seq::empty()));
    } else {
        let t = s.drop_last();
        let p = split_bytes(t, 10);
        lemma_split_len(t);
        if s.last() == 10 && m == p.len() {
            assert(parts.take(m) =~= p);
            assert(s.take(k) =~= s);
        } else {
            lemma_split_of_prefix(t, m);
            assert(parts.take(m) =~= p.take(m));
            assert(s.take(k) =~= t.take(k));
        }
    }
}

proof fn lemma_kept_prefix(parts: Seq<Seq<u8>>, k: int) -> (m: int)
    requires
        0 < k <= kept_lines(parts).len(),
    ensures
        kept_ends(parts).len() == kept_lines(parts).len(),
        0 <= m <= parts.len(),
        m == parts.len() ==> trim_bytes(parts.last()).len() > 0,
        kept_ends(parts)[k - 1] == parts_len(parts.take(m)),
        kept_lines(parts.take(m)) == kept_lines(parts).take(k),
    decreases parts.len(),
{
    let most = parts.drop_last();
    lemma_kept_counts(parts);
    lemma_kept_counts(most);
    if trim_bytes(parts.last()).len() > 0 && k == kept_lines(parts).len() {
        assert(parts.take(parts.len() as int) =~= parts);
        assert(kept_lines(parts).take(k) =~= kept_lines(parts));
        parts.len() as int
    } else {
        let m = lemma_kept_prefix(most, k);
        assert(most.take(m) =~= parts.take(m));
        assert(kept_lines(most).take(k) =~= kept_lines(parts).take(k));
        m
    }
}

proof fn lemma_kept_counts(parts: Seq<Seq<u8>>)
    ensures
        kept_ends(parts).len() == kept_lines(parts).len(),
    decreases parts.len(),
{
    if parts.len() > 0 {
        lemma_kept_counts(parts.drop_last());
    }
}

proof fn lemma_lines_behind(c: Seq<u8>, q: Seq<Seq<u8>>, lines: Seq<Seq<u8>>)
    requires
        split_bytes(c, 10) == q.push(Seq::empty()),
        forall|i: int| 0 <= i < lines.len() ==> is_line(#[trigger] lines[i]),
    ensures
        split_bytes(c + framed(lines), 10) == (q + lines).push(Seq::empty()),
        kept_lines((q + lines).push(Seq::empty())) == kept_lines(q) + lines,
    decreases lines.len(),
{
    let all = q + lines;
    assert(all.push(Seq::empty()).drop_last() =~= all);
    assert(trim_bytes(Seq::<u8>::empty()).len() == 0);
    if lines.len() == 0 {
        assert(c + framed(lines) =~= c);
        assert(all =~= q);
        assert(kept_lines(q) + lines =~= kept_lines(q));
    } else {
        let most = lines.drop_last();
        let l = lines.last();
        assert forall|i: int| 0 <= i < most.len() implies is_line(#[trigger] most[i]) by {
            assert(most[i] == lines[i]);
        }
        assert(is_line(lines[lines.len() - 1]));
        lemma_lines_behind(c, q, most);
        let before = q + most;
        assert(before.push(Seq::empty()).drop_last() =~= before);
        let s = c + framed(most);
        lemma_split_then(s, l);
        let whole = c + framed(lines);
        assert(whole.drop_last() =~= s + l);
        assert(whole.last() == 10);
        let p = split_bytes(s, 10);
        assert(p.last() + l =~= l);
        assert(p.drop_last().push(l) =~= all);
        assert(all.drop_last() =~= before);
        assert(all.last() == l);
        assert(trim_bytes_start(l) == l);
        assert(trim_bytes(l) == l);
        assert(kept_lines(all) =~= kept_lines(q) + lines);
    }
}

/// A file that is cut behind the first `k` of its lines, and to which lines are then appended,
/// holds those lines and the new ones.
pub proof fn law_cut_file_goes_on(bytes: Seq<u8>, k: int, lines: Seq<Seq<u8>>)
    requires
        0 <= k <= journal_lines(bytes).len(),
        forall|i: int| 0 <= i < lines.len() ==> is_line(#[trigger] lines[i]),
    ensures
        0 <= validated_len(journal_ends(bytes), k) <= bytes.len(),
        journal_lines(bytes.take(validated_len(journal_ends(bytes), k)) + framed(lines))
            == journal_lines(bytes).take(k) + lines,
{
    let n = validated_len(journal_ends(bytes), k);
    lemma_complete_len_bounds(bytes);
    let s = bytes.take(complete_len(bytes));
    let parts = split_bytes(s, 10);
    lemma_split_len(s);
    if k == 0 {
        let c = bytes.take(0);
        let q = Seq::<Seq<u8>>::empty();
        assert(split_bytes(c, 10) =~= q.push(Seq::empty()));
        lemma_cut_then(c, q, lines);
        assert(journal_lines(bytes).take(0) =~= kept_lines(q));
    } else {
        assert(s.len() > 0 ==> s.last() == 10);
        assert(parts.last().len() == 0);
        let m = lemma_kept_prefix(parts, k);
        assert(trim_bytes(Seq::<u8>::empty()).len() == 0);
        assert(parts.last() =~= Seq::<u8>::empty());
        assert(m < parts.len());
        lemma_split_of_prefix(s, m);
        let c = bytes.take(n);
        assert(c =~= s.take(n));
        lemma_cut_then(c, parts.take(m), lines);
    }
}

proof fn lemma_complete_len_bounds(bytes: Seq<u8>)
    ensures
        0 <= complete_len(bytes) <= bytes.len(),
        complete_len(bytes) > 0 ==> bytes[complete_len(bytes) - 1] == 10,
    decreases bytes.len(),
{
    if bytes.len() > 0 && bytes.last() != 10 {
        lemma_complete_len_bounds(bytes.drop_last());
    }
}

proof fn lemma_cut_then(c: Seq<u8>, q: Seq<Seq<u8>>, lines: Seq<Seq<u8>>)
    requires
        split_bytes(c, 10) == q.push(Seq::empty()),
        forall|i: int| 0 <= i < lines.len() ==> is_line(#[trigger] lines[i]),
    ensures
        journal_lines(c + framed(lines)) == kept_lines(q) + lines,
{
    let all = c + framed(lines);
    lemma_lines_behind(c, q, lines);
    if all.len() > 0 {
        let parts = split_bytes(all, 10);
        assert(parts.last().len() == 0);
        if all.last() != 10 {
            let p = split_bytes(all.drop_last(), 10);
            assert(parts.last() == p.last().push(all.last()));
        }
    }
    lemma_complete_len(all, all.len() as int);
    assert(all.take(all.len() as int) =~= all);
}

/// What the lines of a file hold, as they are read.
pub open spec fn parsed_lines(bytes: Seq<u8>, parse: spec_fn(Seq<u8>) -> Option<JournalRecord>) -> Seq<
    Option<JournalRecord>,
> {
    journal_lines(bytes).map_values(parse)
}

/// The journal that opening a file gives, where its records fit.
pub open spec fn opened_file(
    bytes: Seq<u8>,
    parse: spec_fn(Seq<u8>) -> Option<JournalRecord>,
    stream: JournalStreamIdentity,
) -> Option<JournalView> {
    let parsed = parsed_lines(bytes, parse);
    match scan(parsed, stream, 0) {
        Scan::Accepted(n) => Some(opened(stream, records_in(parsed, n))),
        _ => None,
    }
}

/// What opening a file leaves of it: the content that was validated.
pub open spec fn validated_file(
    bytes: Seq<u8>,
    parse: spec_fn(Seq<u8>) -> Option<JournalRecord>,
    stream: JournalStreamIdentity,
) -> Seq<u8> {
    let parsed = parsed_lines(bytes, parse);
    match scan(parsed, stream, 0) {
        Scan::Accepted(n) => bytes.take(
            validated_len(journal_ends(bytes), replayed(records_in(parsed, n)).committed),
        ),
        _ => bytes,
    }
}

/// Whether a record is one of a journal.
pub open spec fn fits(r: JournalRecord, stream: JournalStreamIdentity) -> bool {
    &&& r.version == JOURNAL_RECORD_VERSION
    &&& r.stream.path@ == stream.path@
    &&& r.stream.content_type@ == stream.content_type@
}

proof fn lemma_scan_accepts(parsed: Seq<Option<JournalRecord>>, stream: JournalStreamIdentity, i: int)
    requires
        0 <= i <= parsed.len(),
        forall|k: int|
            i <= k < parsed.len() ==> (#[trigger] parsed[k] matches Some(r) && fits(r, stream)),
    ensures
        scan(parsed, stream, i) == Scan::Accepted(parsed.len() as int),
    decreases parsed.len() - i,
{
    if i < parsed.len() {
        assert(parsed[i] is Some);
        lemma_scan_accepts(parsed, stream, i + 1);
    }
}

proof fn lemma_accepted(parsed: Seq<Option<JournalRecord>>, stream: JournalStreamIdentity, i: int, n: int)
    requires
        0 <= i <= parsed.len(),
        scan(parsed, stream, i) == Scan::Accepted(n),
    ensures
        i <= n <= parsed.len(),
        forall|k: int| i <= k < n ==> (#[trigger] parsed[k] matches Some(r) && fits(r, stream)),
    decreases parsed.len() - i,
{
    if i < parsed.len() && parsed[i] is Some {
        lemma_accepted(parsed, stream, i + 1, n);
    }
}

proof fn lemma_appended_fit(j: JournalView, appends: Seq<Append>)
    requires
        are_prepared(j, appends),
    ensures
        forall|i: int| 0 <= i < appended(appends).len() ==> fits(#[trigger] appended(appends)[i], j.stream),
    decreases appends.len(),
{
    if appends.len() > 0 {
        let most = appended(appends.drop_last());
        lemma_appended_fit(j, appends.drop_last());
        assert forall|i: int| 0 <= i < appended(appends).len() implies fits(
            #[trigger] appended(appends)[i],
            j.stream,
        ) by {
            if i < most.len() {
                assert(appended(appends)[i] == most[i]);
            } else {
                assert(appended(appends)[i] == appends.last().batch[i - most.len()]);
            }
        }
    }
}

/// What a restart gives back. A file is opened, whatever stands in it, and cut to what was
/// validated; batches are appended, each record in a line that reads back as the record. Opening
/// the file again gives the journal as it was: the same records, the same offset to resume from
/// and the same numbers.
pub proof fn law_reopened_file_gives_the_journal(
    bytes: Seq<u8>,
    parse: spec_fn(Seq<u8>) -> Option<JournalRecord>,
    line: spec_fn(JournalRecord) -> Seq<u8>,
    stream: JournalStreamIdentity,
    j: JournalView,
    appends: Seq<Append>,
)
    requires
        opened_file(bytes, parse, stream) == Some(j),
        are_prepared(j, appends),
        hold_records(appends),
        forall|i: int|
            0 <= i < appended(appends).len() ==> {
                let r = #[trigger] appended(appends)[i];
                is_line(line(r)) && parse(line(r)) == Some(r)
            },
    ensures
        opened_file(
            validated_file(bytes, parse, stream) + framed(appended(appends).map_values(line)),
            parse,
            stream,
        ) == Some(after_appends(j, appends)),
{
    let new = appended(appends);
    let lines = new.map_values(line);
    let parsed = parsed_lines(bytes, parse);
    let n = scan(parsed, stream, 0)->Accepted_0;
    lemma_accepted(parsed, stream, 0, n);
    let rs = records_in(parsed, n);
    let k = replayed(rs).committed;
    law_replay_commits_a_prefix(rs);
    assert forall|i: int| 0 <= i < lines.len() implies is_line(#[trigger] lines[i]) by {
        assert(lines[i] == line(new[i]));
    }
    law_cut_file_goes_on(bytes, k, lines);
    lemma_appended_fit(j, appends);
    let file = validated_file(bytes, parse, stream) + framed(lines);
    let again = parsed_lines(file, parse);
    assert(again.len() == k + new.len());
    assert forall|i: int| 0 <= i < again.len() implies (#[trigger] again[i] matches Some(r) && fits(
        r,
        stream,
    )) && again[i] == Some((j.records + new)[i]) by {
        if i < k {
            assert(again[i] == parsed[i]);
            assert(j.records[i] == rs[i]);
        } else {
            assert(again[i] == parse(lines[i - k]));
            assert(lines[i - k] == line(new[i - k]));
        }
    }
    lemma_scan_accepts(again, stream, 0);
    assert(records_in(again, again.len() as int) =~= j.records + new);
    law_committed_records_replay_alike(rs);
    assert(j.records.take(k) =~= j.records);
    assert(is_rebuilt(j));
    law_restart_rebuilds_the_journal(j, appends);
    law_restart_keeps_appended_records(j, appends);
}

/// Whether every record of a journal is of its version and stream, carries its place in the
/// journal as its number, and lies within its batch.
pub open spec fn is_well_numbered(j: JournalView) -> bool {
    j.next_local == j.records.len() && forall|i: int|
        0 <= i < j.records.len() ==> {
            let r = #[trigger] j.records[i];
            fits(r, j.stream) && r.local_seq == i && r.batch_index < r.batch_len
        }
}

/// After an open and any appends, every record is of the journal's version and stream, its
/// number is its place in the journal, and its index is below the length of its batch.
pub proof fn law_records_are_well_numbered(
    parsed: Seq<Option<JournalRecord>>,
    n: int,
    stream: JournalStreamIdentity,
    appends: Seq<Append>,
)
    requires
        scan(parsed, stream, 0) == Scan::Accepted(n),
        are_prepared(opened(stream, records_in(parsed, n)), appends),
    ensures
        is_well_numbered(after_appends(opened(stream, records_in(parsed, n)), appends)),
        after_appends(opened(stream, records_in(parsed, n)), appends).stream == stream,
    decreases appends.len(),
{
    let rs = records_in(parsed, n);
    let j = opened(stream, rs);
    if appends.len() == 0 {
        lemma_accepted(parsed, stream, 0, n);
        lemma_replay_bounds(rs, 0, None, 0);
        assert forall|i: int| 0 <= i < j.records.len() implies {
            let r = #[trigger] j.records[i];
            fits(r, stream) && r.local_seq == i && r.batch_index < r.batch_len
        } by {
            assert(j.records[i] == rs[i]);
            assert(parsed[i] is Some);
        }
    } else {
        let most = appends.drop_last();
        let batch = appends.last().batch;
        law_records_are_well_numbered(parsed, n, stream, most);
        let before = after_appends(j, most);
        let end = after_appends(j, appends);
        assert(end == after_append(before, appends.last()));
        assert forall|i: int| 0 <= i < end.records.len() implies {
            let r = #[trigger] end.records[i];
            fits(r, stream) && r.local_seq == i && r.batch_index < r.batch_len
        } by {
            if i < before.records.len() {
                assert(end.records[i] == before.records[i]);
            } else {
                assert(end.records[i] == batch[i - before.records.len()]);
            }
        }
    }
}

/// A stream can be journaled exactly where it has a path and holds JSON.
pub proof fn law_only_json_streams_are_journaled(path: Seq<char>, content_type: Seq<char>)
    ensures
        identity_rejection(path, content_type) is None <==> trim_spec(path).len() > 0 && is_json_type(
            content_type,
        ),
{
}

} // verus!
