//! Read-side replication backed by the local JSONL journal.

use vstd::prelude::*;
use crate::client::error::Error;
use crate::client::journal::{
    JournalDirection, JournalRecord, JournalStreamIdentity, JsonJournal, ReplayState, carries,
    is_batch,
};
use crate::client::model::{LiveMode, ReadPayload, ReadRequest, ReadResponse};
use crate::client::read::same_rest;
use crate::text::{str_opt, text_opt};
use crate::time::Timestamp;

verus! {

/// Result of one replication step against the server.
///
/// This reports only what was durably appended to the local journal during the
/// current step, not how many messages may have been visible remotely.
#[derive(Debug, Clone, PartialEq, Eq)]
pub struct ReadReplicaResult {
    /// Number of newly appended journal records.
    pub appended: usize,
    /// Journal size after this replication step.
    pub total: usize,
    /// Most recent persisted server offset.
    pub next_offset: Option<String>,
    /// Whether the server reported the reader is up to date.
    pub up_to_date: bool,
    /// Whether the stream is closed.
    pub stream_closed: bool,
}

/// Whether a result is a rejection with a message.
pub open spec fn is_rejection<T>(r: Result<T, Error>, message: Seq<char>) -> bool {
    r matches Err(Error::InvalidArgument(m)) && m@ == message
}

/// Whether a request goes on where a journal ends, and asks for what another does else.
pub open spec fn is_replica_request(journal: JsonJournal, request: ReadRequest, r: ReadRequest) -> bool {
    text_opt(r.offset) == text_opt(journal.resume_offset) && r.live == request.live && r.timeout
        == request.timeout && same_rest(r, request)
}

/// The request of a replication step: it goes on where the journal ends. The caller's
/// request must not name an offset, and live events are not replicated.
pub fn replica_request(journal: &JsonJournal, request: ReadRequest) -> (r: Result<ReadRequest, Error>)
    ensures
        if request.offset is Some {
            is_rejection(r, "read replica request offsets are derived from the journal"@)
        } else if request.live == LiveMode::Sse {
            is_rejection(
                r,
                "read replica currently supports catch_up, long_poll, and auto reads"@,
            )
        } else {
            r matches Ok(q) && is_replica_request(*journal, request, q)
        },
{
    if request.offset.is_some() {
        return Err(
            Error::invalid_argument("read replica request offsets are derived from the journal"),
        );
    }
    if request.live == LiveMode::Sse {
        return Err(
            Error::invalid_argument(
                "read replica currently supports catch_up, long_poll, and auto reads",
            ),
        );
    }
    let mut q = request;
    q.offset = journal.resume_offset.clone();
    Ok(q)
}

/// The JSON values of a response.
pub fn response_json_values(payload: Option<ReadPayload>) -> (r: Result<Vec<String>, Error>)
    ensures
        match payload {
            Some(ReadPayload::Json(values)) => r == Ok::<Vec<String>, Error>(values),
            Some(ReadPayload::Bytes(_)) => r matches Err(Error::Parse(m)) && m@
                == "read replica only supports application/json payloads"@,
            None => r matches Ok(values) && values@.len() == 0,
        },
{
    match payload {
        Some(ReadPayload::Json(values)) => Ok(values),
        Some(ReadPayload::Bytes(_)) => Err(
            Error::parse("read replica only supports application/json payloads"),
        ),
        None => Ok(Vec::new()),
    }
}

/// What a replication step reports, once its records are in the journal.
pub fn replica_result(journal: &JsonJournal, appended: usize, up_to_date: bool, stream_closed: bool) -> (r:
    ReadReplicaResult)
    ensures
        r.appended == appended,
        r.total == journal.records@.len(),
        text_opt(r.next_offset) == text_opt(journal.resume_offset),
        r.up_to_date == up_to_date,
        r.stream_closed == stream_closed,
{
    ReadReplicaResult {
        appended,
        total: journal.records.len(),
        next_offset: journal.resume_offset.clone(),
        up_to_date,
        stream_closed,
    }
}

/// Read-side replication session for one JSON stream.
///
/// The session treats the local journal as a durable cache. On startup it
/// replays the journal, derives the last persisted server offset, and uses that
/// offset for the next read automatically.
#[derive(Debug)]
pub struct ReadReplica {
    pub journal: JsonJournal,
}

/// The values of a payload that can be replicated.
pub open spec fn payload_values(payload: Option<ReadPayload>) -> Option<Seq<String>> {
    match payload {
        Some(ReadPayload::Json(values)) => Some(values@),
        Some(ReadPayload::Bytes(_)) => None,
        None => Some(Seq::empty()),
    }
}

/// Whether a result is the records of a response, or why there are none.
pub open spec fn is_replicated(
    r: Result<Vec<JournalRecord>, Error>,
    journal: JsonJournal,
    response: ReadResponse,
    now: Timestamp,
) -> bool {
    match payload_values(response.payload) {
        None => r matches Err(Error::Parse(m)) && m@
            == "read replica only supports application/json payloads"@,
        Some(values) => if values.len() > u32::MAX {
            is_rejection(r, "journal batch is too large"@)
        } else {
            &&& r matches Ok(batch)
            &&& batch@.len() == values.len()
            &&& is_batch(
                batch@,
                journal.next_local_seq as int,
                journal.next_batch_seq as int,
                Some(response.next_offset@),
            )
            &&& forall|k: int|
                0 <= k < batch@.len() ==> carries(
                    #[trigger] batch@[k],
                    journal.stream,
                    JournalDirection::Inbound,
                    values[k],
                    now,
                    None,
                )
        },
    }
}

/// Whether the records of a response were taken over, and the step is reported.
pub open spec fn is_finished_step(
    r: ReadReplicaResult,
    before: JsonJournal,
    batch: Seq<JournalRecord>,
    next_offset: Seq<char>,
    up_to_date: bool,
    stream_closed: bool,
    after: JsonJournal,
) -> bool {
    &&& after.stream == before.stream
    &&& after.records@ == before.records@ + batch
    &&& text_opt(after.resume_offset) == Some(next_offset)
    &&& after.next_local_seq == before.next_local_seq + batch.len()
    &&& after.next_batch_seq == before.next_batch_seq + (if batch.len() > 0 {
        1int
    } else {
        0
    })
    &&& r.appended == batch.len()
    &&& r.total == after.records@.len()
    &&& text_opt(r.next_offset) == Some(next_offset)
    &&& r.up_to_date == up_to_date
    &&& r.stream_closed == stream_closed
}

impl ReadReplica {
    /// Starts a session from what was replayed of a journal.
    pub fn open(stream: JournalStreamIdentity, replay: ReplayState) -> (r: Self)
        ensures
            r.journal.stream == stream,
            r.journal.records == replay.records,
            r.journal.resume_offset == replay.resume_offset,
            r.journal.next_batch_seq == replay.next_batch_seq,
            r.journal.next_local_seq == replay.next_local_seq,
    {
        ReadReplica { journal: JsonJournal::open(stream, replay) }
    }

    /// Borrow the underlying journal.
    #[must_use]
    pub fn journal(&self) -> (r: &JsonJournal)
        ensures
            *r == self.journal,
    {
        &self.journal
    }

    /// Borrow the replicated JSON values in journal order.
    #[must_use]
    pub fn values(&self) -> (r: Vec<&String>)
        ensures
            r@.len() == self.journal.records@.len(),
            forall|i: int| 0 <= i < r@.len() ==> *(#[trigger] r@[i]) == self.journal.records@[i].payload,
    {
        self.journal.values()
    }

    /// Return the last persisted server offset, if any.
    #[must_use]
    pub fn resume_offset(&self) -> (r: Option<&str>)
        ensures
            str_opt(r) == text_opt(self.journal.resume_offset),
    {
        self.journal.resume_offset()
    }

    /// Return all committed journal records.
    #[must_use]
    pub fn records(&self) -> (r: &Vec<JournalRecord>)
        ensures
            *r == self.journal.records,
    {
        self.journal.records()
    }

    /// The records of a response, to be written to the journal.
    ///
    /// # Errors
    ///
    /// Returns an error where the response is no JSON, or holds more values than a batch can.
    pub fn replicate(&self, response: ReadResponse, now: Timestamp) -> (r: Result<
        Vec<JournalRecord>,
        Error,
    >)
        requires
            payload_values(response.payload) matches Some(v) ==> self.journal.next_local_seq + v.len()
                <= u64::MAX,
        ensures
            is_replicated(r, self.journal, response, now),
    {
        let values = match response_json_values(response.payload) {
            Ok(values) => values,
            Err(e) => return Err(e),
        };
        assert(payload_values(response.payload)->0 =~= values@);
        let next_offset = Some(response.next_offset);
        self.journal.prepare_batch(JournalDirection::Inbound, &values, &next_offset, None, now)
    }

    /// Takes over the records of a response that are on disk, and reports the step. A
    /// response without values still moves the offset.
    pub fn finish_step(
        &mut self,
        batch: Vec<JournalRecord>,
        next_offset: String,
        up_to_date: bool,
        stream_closed: bool,
    ) -> (r: ReadReplicaResult)
        requires
            old(self).journal.next_local_seq + batch@.len() <= u64::MAX,
            batch@.len() > 0 ==> old(self).journal.next_batch_seq < u64::MAX,
            batch@.len() > 0 ==> text_opt(batch@.last().next_offset) == Some(next_offset@),
        ensures
            is_finished_step(
                r,
                old(self).journal,
                batch@,
                next_offset@,
                up_to_date,
                stream_closed,
                final(self).journal,
            ),
    {
        assert(batch@.len() == 0 ==> self.journal.records@ + batch@ =~= self.journal.records@);
        let appended: usize = self.journal.append_written(batch, Some(next_offset));
        replica_result(&self.journal, appended, up_to_date, stream_closed)
    }
}

/// After a step the next one goes on at the offset that the server gave.
pub proof fn law_next_step_resumes(journal: JsonJournal, next_offset: Seq<char>, request: ReadRequest, r: ReadRequest)
    requires
        text_opt(journal.resume_offset) == Some(next_offset),
        is_replica_request(journal, request, r),
    ensures
        text_opt(r.offset) == Some(next_offset),
{
}

/// A step adds the values of a response to the journal, each and in order, behind those that were
/// there, and the next step reads on from where the response ended. The report counts what was added
/// and what there is, and repeats the state of the stream.
pub proof fn law_step_adds_the_values_of_a_response(
    before: JsonJournal,
    response: ReadResponse,
    now: Timestamp,
    batch: Vec<JournalRecord>,
    r: ReadReplicaResult,
    after: JsonJournal,
    request: ReadRequest,
    next: ReadRequest,
)
    requires
        is_replicated(Ok(batch), before, response, now),
        is_finished_step(
            r,
            before,
            batch@,
            response.next_offset@,
            response.up_to_date,
            response.stream_closed,
            after,
        ),
        is_replica_request(after, request, next),
    ensures
        ({
            let values = match response.payload {
                Some(ReadPayload::Json(v)) => v@,
                _ => Seq::empty(),
            };
            let n = before.records@.len();
            &&& !(response.payload matches Some(ReadPayload::Bytes(_)))
            &&& after.records@.len() == n + values.len()
            &&& after.records@.take(n as int) == before.records@
            &&& forall|k: int|
                0 <= k < values.len() ==> {
                    let record = #[trigger] after.records@[n + k];
                    record.payload@ == values[k]@ && record.local_seq == before.next_local_seq + k
                        && record.stream == before.stream && record.direction
                        == JournalDirection::Inbound && text_opt(record.next_offset) == Some(
                        response.next_offset@,
                    )
                }
            &&& r.appended == values.len() && r.total == n + values.len()
            &&& r.up_to_date == response.up_to_date && r.stream_closed == response.stream_closed
            &&& text_opt(next.offset) == Some(response.next_offset@) && next.live == request.live
        }),
{
    let n = before.records@.len();
    assert(after.records@.take(n as int) =~= before.records@);
    assert forall|k: int| 0 <= k < batch@.len() implies #[trigger] after.records@[n + k] == batch@[k] by {
    }
}

} // verus!
