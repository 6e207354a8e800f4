//! Reads of several requests as a whole: what a long poll, an automatic read and a subscription
//! come to.

use vstd::prelude::*;
use crate::client::model::{LiveMode, ReadChunk, ReadRequest, ReadResponse, chunk_views};
use crate::client::read::{LongPoll, SubscriptionStep, is_followed, is_second};
use crate::text::text_opt;
use crate::time::Span;

verus! {

/// Whether two requests ask the same of the server and the reader but for the place, the way and
/// the time.
pub open spec fn asks_alike(a: ReadRequest, b: ReadRequest) -> bool {
    &&& a.max_chunks == b.max_chunks
    &&& a.wait_for_up_to_date == b.wait_for_up_to_date
    &&& text_opt(a.cursor) == text_opt(b.cursor)
    &&& text_opt(a.if_none_match) == text_opt(b.if_none_match)
    &&& a.options.headers@ == b.options.headers@
    &&& a.options.query@ == b.options.query@
}

/// Whether a long poll took responses one after another without an end; `polls` are its states.
pub open spec fn went_through(polls: Seq<LongPoll>, responses: Seq<ReadResponse>) -> bool {
    &&& polls.len() == responses.len() + 1
    &&& forall|i: int|
        0 <= i < responses.len() ==> (#[trigger] polls[i]).is_taken(responses[i], polls[i + 1], None)
}

/// The chunks of responses, one after another.
pub open spec fn chunks_in(responses: Seq<ReadResponse>) -> Seq<ReadChunk>
    decreases responses.len(),
{
    if responses.len() == 0 {
        Seq::empty()
    } else {
        chunks_in(responses.drop_last()) + responses.last().chunks@
    }
}

proof fn lemma_long_poll_keeps_chunks(polls: Seq<LongPoll>, responses: Seq<ReadResponse>)
    requires
        went_through(polls, responses),
        polls[0].collected is None,
    ensures
        match polls.last().collected {
            Some(read) => responses.len() > 0 && read.chunks@ == chunks_in(responses)
                && read.next_offset@ == responses.last().next_offset@,
            None => responses.len() == 0,
        },
        asks_alike(polls.last().request, polls[0].request),
        polls.last().request.live == polls[0].request.live,
        polls.last().max_chunks == polls[0].max_chunks,
        polls.last().wait_for_up_to_date == polls[0].wait_for_up_to_date,
    decreases responses.len(),
{
    if responses.len() > 0 {
        let n = responses.len() - 1;
        let p = polls.drop_last();
        let q = responses.drop_last();
        assert forall|i: int| 0 <= i < q.len() implies (#[trigger] p[i]).is_taken(
            q[i],
            p[i + 1],
            None,
        ) by {
            assert(p[i] == polls[i] && p[i + 1] == polls[i + 1] && q[i] == responses[i]);
        }
        lemma_long_poll_keeps_chunks(p, q);
        assert(polls[n].is_taken(responses[n], polls[n + 1], None));
        assert(p.last() == polls[n]);
        if q.len() == 0 {
            assert(chunks_in(q) =~= Seq::<ReadChunk>::empty());
        }
    }
}

/// A long poll loses nothing and repeats nothing: whatever it took, it ends with the chunks of all
/// responses in order, at the end of the last; each request begins where the response before it
/// ended. It ends with a response exactly where the stream is closed, there are as many chunks as
/// were asked for, or the reader has caught up and wanted no more.
pub proof fn law_long_poll_loses_nothing(
    polls: Seq<LongPoll>,
    responses: Seq<ReadResponse>,
    last: ReadResponse,
    end: LongPoll,
    r: Option<ReadResponse>,
)
    requires
        went_through(polls, responses),
        polls[0].collected is None,
        polls.last().is_taken(last, end, r),
    ensures
        responses.len() > 0 ==> text_opt(polls.last().request.offset) == Some(
            responses.last().next_offset@,
        ),
        asks_alike(end.request, polls[0].request),
        end.request.live == polls[0].request.live,
        ({
            let chunks = chunks_in(responses) + last.chunks@;
            let is_enough = last.stream_closed || chunks.len() >= polls[0].max_chunks || (
            polls[0].wait_for_up_to_date && last.up_to_date);
            match r {
                Some(read) => is_enough && read.chunks@ == chunks && read.next_offset@
                    == last.next_offset@ && read.up_to_date == last.up_to_date && read.stream_closed
                    == last.stream_closed && text_opt(read.cursor) == text_opt(last.cursor)
                    && read.status == last.status,
                None => !is_enough && (end.collected matches Some(kept) && kept.chunks@ == chunks)
                    && text_opt(end.request.offset) == Some(last.next_offset@),
            }
        }),
{
    lemma_long_poll_keeps_chunks(polls, responses);
    let p = polls.last();
    if responses.len() > 0 {
        let n = responses.len() - 1;
        assert(polls[n].is_taken(responses[n], polls[n + 1], None));
    } else {
        assert(chunks_in(responses) =~= Seq::<ReadChunk>::empty());
        assert(chunks_in(responses) + last.chunks@ =~= last.chunks@);
    }
}

/// A long poll that collects several responses keeps what only some of them say: the first payload,
/// and the last type and tag that there is.
pub proof fn law_long_poll_keeps_what_is_said_once(
    poll: LongPoll,
    before: ReadResponse,
    response: ReadResponse,
    next: LongPoll,
    r: Option<ReadResponse>,
)
    requires
        poll.is_taken(response, next, r),
        poll.collected == Some(before),
    ensures
        ({
            let read = match r {
                Some(read) => read,
                None => next.collected->0,
            };
            &&& response.content_type is Some ==> text_opt(read.content_type) == text_opt(
                response.content_type,
            )
            &&& response.content_type is None ==> text_opt(read.content_type) == text_opt(
                before.content_type,
            )
            &&& response.etag is Some ==> text_opt(read.etag) == text_opt(response.etag)
            &&& response.etag is None ==> text_opt(read.etag) == text_opt(before.etag)
            &&& before.payload is Some ==> read.payload == before.payload
            &&& before.payload is None ==> read.payload == response.payload
        }),
{
}

/// A long poll takes no longer than its time: it ends with what there is as soon as the time is
/// up, be it nothing, and each request has no more than the time that is left.
pub proof fn law_long_poll_keeps_its_time(
    poll: LongPoll,
    elapsed: Span,
    next: LongPoll,
    r: Option<ReadResponse>,
)
    requires
        poll.is_begun(elapsed, next, r),
    ensures
        r is Some <==> (poll.budget matches Some(b) && elapsed.total() >= b.total()),
        poll.budget matches Some(b) ==> r is None ==> (next.request.timeout matches Some(t)
            && elapsed.total() + t.total() == b.total()),
        r matches Some(read) ==> poll.collected is None ==> {
            &&& read.chunks@.len() == 0
            &&& read.next_offset@ == match poll.request.offset {
                Some(o) => o@,
                None => "-1"@,
            }
            &&& !read.stream_closed && read.up_to_date && read.status == 200
            &&& read.payload is None && read.cursor is None
        },
        r matches Some(read) ==> poll.collected is Some ==> read == poll.collected->0,
        r is None ==> next.collected == poll.collected,
        asks_alike(next.request, poll.request),
        text_opt(next.request.offset) == text_opt(poll.request.offset),
        next.request.live == poll.request.live,
        next.budget == poll.budget,
{
}

/// An automatic read goes on live exactly where the first request found nothing in an open stream,
/// from where that request ended, in the time that was given.
pub proof fn law_automatic_read_waits_only_for_news(
    r: Option<ReadRequest>,
    request: ReadRequest,
    initial: ReadResponse,
)
    requires
        is_second(r, request, initial),
    ensures
        r is Some <==> !initial.stream_closed && initial.chunks@.len() == 0,
        r matches Some(second) ==> {
            &&& second.live == LiveMode::LongPoll
            &&& text_opt(second.offset) == Some(initial.next_offset@)
            &&& second.timeout == request.timeout
            &&& asks_alike(second, request)
        },
{
}

/// A subscription hands out the last chunk of each response with the state of the stream, and goes
/// on from where the response ended until the stream is closed. After a catch-up it is live.
pub proof fn law_subscription_follows_the_stream(
    r: SubscriptionStep,
    request: ReadRequest,
    response: ReadResponse,
)
    requires
        is_followed(r, request, response),
    ensures
        r.event.chunk is Some <==> response.chunks@.len() > 0,
        r.event.chunk matches Some(c) ==> c@ == response.chunks@.last()@,
        r.event.next_offset@ == response.next_offset@,
        r.event.up_to_date == response.up_to_date,
        r.event.stream_closed == response.stream_closed,
        text_opt(r.event.cursor) == text_opt(response.cursor),
        r.next is None <==> response.stream_closed,
        r.next matches Some(next) ==> {
            &&& text_opt(next.offset) == Some(response.next_offset@)
            &&& next.live != LiveMode::CatchUp
            &&& request.live != LiveMode::CatchUp ==> next.live == request.live
            &&& request.live == LiveMode::CatchUp ==> next.live == LiveMode::LongPoll
            &&& next.timeout == request.timeout
            &&& asks_alike(next, request)
        },
{
    let views = chunk_views(response.chunks@);
    assert(views.len() == response.chunks@.len());
    if response.chunks@.len() > 0 {
        assert(views.last() == response.chunks@.last()@);
    }
}

} // verus!
