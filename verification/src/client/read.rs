//! Reads that take several requests, and subscriptions.

use vstd::prelude::*;
use crate::client::error::Error;
use crate::client::model::{
    LiveMode, ReadChunk, ReadRequest, ReadResponse, RequestOptions, SubscriptionEvent, chunk_views,
};
use crate::client::protocol::{last_chunk, response_to_event};
use crate::fields::copy_fields;
use crate::text::text_opt;
use crate::time::Span;

verus! {

/// Whether two requests ask for the same.
pub open spec fn same_request(a: ReadRequest, b: ReadRequest) -> bool {
    &&& text_opt(a.offset) == text_opt(b.offset)
    &&& a.live == b.live
    &&& a.timeout == b.timeout
    &&& same_rest(a, b)
}

/// Whether two requests agree in what a read of several requests does not change.
pub open spec fn same_rest(a: ReadRequest, b: ReadRequest) -> bool {
    &&& a.max_chunks == b.max_chunks
    &&& a.wait_for_up_to_date == b.wait_for_up_to_date
    &&& text_opt(a.cursor) == text_opt(b.cursor)
    &&& text_opt(a.if_none_match) == text_opt(b.if_none_match)
    &&& a.options.headers@ == b.options.headers@
    &&& a.options.query@ == b.options.query@
}

/// Copies a request.
pub fn copy_request(request: &ReadRequest) -> (r: ReadRequest)
    ensures
        same_request(r, *request),
{
    ReadRequest {
        offset: request.offset.clone(),
        live: request.live,
        timeout: request.timeout,
        max_chunks: request.max_chunks,
        wait_for_up_to_date: request.wait_for_up_to_date,
        cursor: request.cursor.clone(),
        if_none_match: request.if_none_match.clone(),
        options: RequestOptions {
            headers: copy_fields(&request.options.headers),
            query: copy_fields(&request.options.query),
        },
    }
}

/// The offset of a request in the protocol: the beginning where it names none.
pub open spec fn offset_or_start(offset: Option<Seq<char>>) -> Seq<char> {
    match offset {
        Some(o) => o,
        None => "-1"@,
    }
}

/// Whether a response says that there is nothing new at an offset.
pub open spec fn is_nothing_new(r: ReadResponse, status: u16, offset: Seq<char>) -> bool {
    &&& r.status == status
    &&& r.next_offset@ == offset
    &&& r.up_to_date
    &&& !r.stream_closed
    &&& r.cursor is None
    &&& r.content_type is None
    &&& r.etag is None
    &&& r.chunks@.len() == 0
    &&& r.payload is None
}

fn nothing_new(status: u16, offset: &Option<String>) -> (r: ReadResponse)
    ensures
        is_nothing_new(r, status, offset_or_start(text_opt(*offset))),
{
    let next_offset = match offset {
        Some(o) => o.clone(),
        None => "-1".to_owned(),
    };
    ReadResponse {
        status,
        next_offset,
        up_to_date: true,
        stream_closed: false,
        cursor: None,
        content_type: None,
        etag: None,
        chunks: Vec::new(),
        payload: None,
    }
}

/// What a read over HTTP comes to when its time is up: a long poll has found nothing new,
/// any other read has failed.
pub fn read_timed_out(request: &ReadRequest) -> (r: Result<ReadResponse, Error>)
    ensures
        if request.live == LiveMode::LongPoll {
            r matches Ok(read) && is_nothing_new(
                read,
                204,
                offset_or_start(text_opt(request.offset)),
            )
        } else {
            r matches Err(Error::Parse(m)) && m@ == "timed out waiting for response"@
        },
{
    match request.live {
        LiveMode::LongPoll => Ok(nothing_new(204, &request.offset)),
        _ => Err(Error::parse("timed out waiting for response")),
    }
}

/// What a read of events comes to when its time is up.
pub fn sse_timed_out() -> (r: Error)
    ensures
        r matches Error::InvalidArgument(m) && m@ == "timed out waiting for SSE response"@,
{
    Error::invalid_argument("timed out waiting for SSE response")
}

/// Whether a response is what was collected with a new response added: the state of the new
/// one, the chunks of both.
pub open spec fn is_collected(r: ReadResponse, before: Option<ReadResponse>, new: ReadResponse) -> bool {
    match before {
        None => r == new,
        Some(b) => {
            &&& r.status == new.status
            &&& r.next_offset == new.next_offset
            &&& r.up_to_date == new.up_to_date
            &&& r.stream_closed == new.stream_closed
            &&& r.cursor == new.cursor
            &&& r.content_type == if new.content_type is Some {
                new.content_type
            } else {
                b.content_type
            }
            &&& r.etag == if new.etag is Some {
                new.etag
            } else {
                b.etag
            }
            &&& r.chunks@ == b.chunks@ + new.chunks@
            &&& r.payload == if b.payload is None {
                new.payload
            } else {
                b.payload
            }
        },
    }
}

/// The chunks that have been collected.
pub open spec fn chunks_of(r: Option<ReadResponse>) -> Seq<ReadChunk> {
    match r {
        Some(read) => read.chunks@,
        None => Seq::empty(),
    }
}

fn add_response(before: Option<ReadResponse>, new: ReadResponse) -> (r: ReadResponse)
    ensures
        is_collected(r, before, new),
        r.chunks@ == chunks_of(before) + new.chunks@,
{
    match before {
        None => {
            assert(Seq::<ReadChunk>::empty() + new.chunks@ =~= new.chunks@);
            new
        },
        Some(b) => {
            let mut chunks = b.chunks;
            let mut added = new.chunks;
            chunks.append(&mut added);
            ReadResponse {
                status: new.status,
                next_offset: new.next_offset,
                up_to_date: new.up_to_date,
                stream_closed: new.stream_closed,
                cursor: new.cursor,
                content_type: if new.content_type.is_some() {
                    new.content_type
                } else {
                    b.content_type
                },
                etag: if new.etag.is_some() {
                    new.etag
                } else {
                    b.etag
                },
                chunks,
                payload: if b.payload.is_none() {
                    new.payload
                } else {
                    b.payload
                },
            }
        },
    }
}

/// A long poll: requests one after another until there is enough.
#[derive(Debug)]
pub struct LongPoll {
    /// The request that is sent next.
    pub request: ReadRequest,
    pub budget: Option<Span>,
    pub max_chunks: usize,
    pub wait_for_up_to_date: bool,
    /// What has been collected.
    pub collected: Option<ReadResponse>,
}

impl LongPoll {
    /// Whether a collected read is enough.
    pub open spec fn enough(self, read: ReadResponse) -> bool {
        read.stream_closed || read.chunks@.len() >= self.max_chunks || (self.wait_for_up_to_date
            && read.up_to_date)
    }

    /// Whether two long polls stop on the same terms.
    pub open spec fn same_terms(self, other: LongPoll) -> bool {
        self.budget == other.budget && self.max_chunks == other.max_chunks
            && self.wait_for_up_to_date == other.wait_for_up_to_date
    }

    /// Whether a request was begun after some time, or the time is up and the read has ended.
    pub open spec fn is_begun(self, elapsed: Span, next: LongPoll, r: Option<ReadResponse>) -> bool {
        &&& next.same_terms(self)
        &&& same_rest(next.request, self.request)
        &&& next.request.live == self.request.live
        &&& next.request.offset == self.request.offset
        &&& match self.budget {
            Some(b) => if elapsed.total() >= b.total() {
                &&& r matches Some(read)
                &&& match self.collected {
                    Some(c) => read == c,
                    None => is_nothing_new(
                        read,
                        200,
                        offset_or_start(text_opt(self.request.offset)),
                    ),
                }
                &&& next.collected is None
                &&& next.request.timeout == self.request.timeout
            } else {
                &&& r is None
                &&& next.collected == self.collected
                &&& next.request.timeout matches Some(t)
                &&& t.is_valid() && t.total() == b.total() - elapsed.total()
            },
            None => r is None && next == self,
        }
    }

    /// Whether a response was taken: the read goes on from it, or has ended with it.
    pub open spec fn is_taken(
        self,
        response: ReadResponse,
        next: LongPoll,
        r: Option<ReadResponse>,
    ) -> bool {
        &&& next.same_terms(self)
        &&& same_rest(next.request, self.request)
        &&& next.request.live == self.request.live
        &&& next.request.timeout == self.request.timeout
        &&& match r {
            Some(read) => {
                &&& is_collected(read, self.collected, response)
                &&& read.chunks@ == chunks_of(self.collected) + response.chunks@
                &&& self.enough(read)
                &&& next.collected is None
                &&& next.request.offset == self.request.offset
            },
            None => {
                &&& next.collected matches Some(read)
                &&& is_collected(read, self.collected, response)
                &&& read.chunks@ == chunks_of(self.collected) + response.chunks@
                &&& !self.enough(read)
                &&& text_opt(next.request.offset) == Some(response.next_offset@)
            },
        }
    }

    /// A long poll for a request.
    pub fn new(request: &ReadRequest) -> (r: Self)
        ensures
            r.request.live == LiveMode::LongPoll,
            text_opt(r.request.offset) == text_opt(request.offset),
            r.request.timeout == request.timeout,
            same_rest(r.request, *request),
            r.budget == request.timeout,
            r.max_chunks == match request.max_chunks {
                Some(n) => n,
                None => usize::MAX,
            },
            r.wait_for_up_to_date == request.wait_for_up_to_date,
            r.collected is None,
    {
        let mut current = copy_request(request);
        current.live = LiveMode::LongPoll;
        LongPoll {
            request: current,
            budget: request.timeout,
            max_chunks: match request.max_chunks {
                Some(n) => n,
                None => usize::MAX,
            },
            wait_for_up_to_date: request.wait_for_up_to_date,
            collected: None,
        }
    }

    /// Before a request: where the time is up, the read ends with what there is; else the
    /// request has the time that is left.
    pub fn before_request(&mut self, elapsed: Span) -> (r: Option<ReadResponse>)
        requires
            elapsed.is_valid(),
            old(self).budget matches Some(b) ==> b.is_valid(),
        ensures
            old(self).is_begun(elapsed, *final(self), r),
    {
        if let Some(budget) = self.budget {
            if !elapsed.less_than(&budget) {
                let collected = self.collected.take();
                return Some(
                    match collected {
                        Some(c) => c,
                        None => nothing_new(200, &self.request.offset),
                    },
                );
            }
            self.request.timeout = Some(budget.minus(&elapsed));
        }
        None
    }

    /// Takes a response: adds it to what has been collected and ends where there is enough,
    /// else goes on from its offset.
    pub fn on_response(&mut self, response: ReadResponse) -> (r: Option<ReadResponse>)
        ensures
            old(self).is_taken(response, *final(self), r),
    {
        let next_offset = response.next_offset.clone();
        let before = self.collected.take();
        let read = add_response(before, response);
        if read.stream_closed || read.chunks.len() >= self.max_chunks || (self.wait_for_up_to_date
            && read.up_to_date) {
            return Some(read);
        }
        self.collected = Some(read);
        self.request.offset = Some(next_offset);
        None
    }
}

/// The first request of an automatic read: a catch-up.
pub fn auto_first(request: &ReadRequest) -> (r: ReadRequest)
    ensures
        r.live == LiveMode::CatchUp,
        text_opt(r.offset) == text_opt(request.offset),
        r.timeout == request.timeout,
        same_rest(r, *request),
{
    let mut first = copy_request(request);
    first.live = LiveMode::CatchUp;
    first
}

/// Whether a request is the second of an automatic read.
pub open spec fn is_second(r: Option<ReadRequest>, request: ReadRequest, initial: ReadResponse) -> bool {
    match r {
        Some(second) => {
            &&& !initial.stream_closed && initial.chunks@.len() == 0
            &&& second.live == LiveMode::LongPoll
            &&& text_opt(second.offset) == Some(initial.next_offset@)
            &&& second.timeout == request.timeout
            &&& same_rest(second, request)
        },
        None => initial.stream_closed || initial.chunks@.len() > 0,
    }
}

/// The second request of an automatic read, where the first found nothing in an open
/// stream: a long poll from where it ended.
pub fn auto_second(request: &ReadRequest, initial: &ReadResponse) -> (r: Option<ReadRequest>)
    ensures
        is_second(r, *request, *initial),
{
    if initial.stream_closed || initial.chunks.len() > 0 {
        return None;
    }
    let mut second = copy_request(request);
    second.live = LiveMode::LongPoll;
    second.offset = Some(initial.next_offset.clone());
    Some(second)
}

/// What an automatic read of two requests comes to: the second response where it has data,
/// else the first.
pub fn auto_result(initial: ReadResponse, follow: ReadResponse) -> (r: ReadResponse)
    ensures
        r == if follow.chunks@.len() == 0 {
            initial
        } else {
            follow
        },
{
    if follow.chunks.len() == 0 {
        initial
    } else {
        follow
    }
}

/// What a subscription does with a response.
#[derive(Debug)]
pub struct SubscriptionStep {
    /// The event that the consumer gets.
    pub event: SubscriptionEvent,
    /// The request that follows; none after the end of the stream.
    pub next: Option<ReadRequest>,
}

/// Whether a step is what a subscription does with the response to a request.
pub open spec fn is_followed(r: SubscriptionStep, request: ReadRequest, response: ReadResponse) -> bool {
    &&& match r.event.chunk {
        Some(c) => last_chunk(chunk_views(response.chunks@)) == Some(c@),
        None => response.chunks@.len() == 0,
    }
    &&& r.event.next_offset == response.next_offset
    &&& r.event.up_to_date == response.up_to_date
    &&& r.event.stream_closed == response.stream_closed
    &&& text_opt(r.event.cursor) == text_opt(response.cursor)
    &&& match r.next {
        Some(next) => {
            &&& !response.stream_closed
            &&& text_opt(next.offset) == Some(response.next_offset@)
            &&& next.live == if request.live == LiveMode::CatchUp {
                LiveMode::LongPoll
            } else {
                request.live
            }
            &&& next.timeout == request.timeout
            &&& same_rest(next, request)
        },
        None => response.stream_closed,
    }
}

/// Takes a response to a request of a subscription. A stream that is open is followed from
/// the new offset, live from the second request on.
pub fn subscription_step(request: ReadRequest, response: &ReadResponse) -> (r: SubscriptionStep)
    ensures
        is_followed(r, request, *response),
{
    let event = response_to_event(response);
    if response.stream_closed {
        return SubscriptionStep { event, next: None };
    }
    let mut next = request;
    next.offset = Some(response.next_offset.clone());
    next.live = match next.live {
        LiveMode::CatchUp => LiveMode::LongPoll,
        other => other,
    };
    SubscriptionStep { event, next: Some(next) }
}

} // verus!
