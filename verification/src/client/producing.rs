//! An idempotent producer as a whole: how its appends are numbered, what it makes of being fenced
//! off, and what its batches hold.

use vstd::prelude::*;
use vstd::utf8::encode_utf8;
use crate::client::error::{Error, ErrorKind};
use crate::client::exchange::is_received;
use crate::client::idempotent::{
    Attempt, IdempotentProducer, IdempotentProducerConfig, claims, concatenated, config_rejection,
    is_after_append, is_after_close, is_append, is_batch_append, is_close, json_bodies,
};
use crate::client::model::{AppendRequest, AppendResponse, CloseStreamRequest, CloseStreamResponse};
use crate::client::refusals::law_client_learns_why_its_append_was_refused;
use crate::client::requests::is_reply_error;
use crate::fields::fields;
use crate::handlers::post::{Fields, append_problem};
use crate::json::{document_text, json_document};
use crate::protocol::error::Error as ServerError;
use crate::protocol::problem::{WireProblem, is_wire};
use crate::protocol::producer::ProducerHeaders;
use crate::text::{join_spec, text_opt, trim_spec};

verus! {

/// Whether a producer took the replies to appends one after another, all of them successes; the
/// producers are those before each and after the last.
pub open spec fn all_went_well(
    producers: Seq<IdempotentProducer>,
    replies: Seq<AppendResponse>,
    attempts: Seq<Attempt<AppendResponse>>,
) -> bool {
    &&& producers.len() == replies.len() + 1
    &&& attempts.len() == replies.len()
    &&& forall|i: int|
        0 <= i < replies.len() ==> is_after_append(
            #[trigger] producers[i],
            false,
            Ok(replies[i]),
            producers[i + 1],
            attempts[i],
        )
}

/// The appends of a producer are numbered one after another without a gap in one epoch, under one
/// name, whatever was appended; and each number is sent with its body.
pub proof fn law_appends_are_numbered_without_gaps(
    producers: Seq<IdempotentProducer>,
    replies: Seq<AppendResponse>,
    attempts: Seq<Attempt<AppendResponse>>,
    body: Seq<u8>,
    request: AppendRequest,
)
    requires
        all_went_well(producers, replies, attempts),
        is_append(producers.last(), body, request),
    ensures
        request.body@ == body,
        request.stream_seq is None,
        text_opt(request.content_type) == Some(producers[0].content_type@),
        request.producer matches Some(p) && p.producer_id@ == producers[0].config.producer_id@
            && p.producer_epoch == producers[0].state.epoch && p.producer_seq
            == producers[0].state.next_seq + replies.len(),
        request.options.headers@ == producers[0].options.headers@,
        request.options.query@ == producers[0].options.query@,
        replies.len() > 0 ==> text_opt(producers.last().state.acked_server_offset) == text_opt(
            replies.last().next_offset,
        ),
    decreases replies.len(),
{
    if replies.len() > 0 {
        let n = replies.len() - 1;
        assert(is_after_append(producers[n], false, Ok(replies[n]), producers[n + 1], attempts[n]));
        lemma_numbering(producers, replies, attempts);
    }
}

proof fn lemma_numbering(
    producers: Seq<IdempotentProducer>,
    replies: Seq<AppendResponse>,
    attempts: Seq<Attempt<AppendResponse>>,
)
    requires
        all_went_well(producers, replies, attempts),
    ensures
        producers.last().config == producers[0].config,
        producers.last().content_type == producers[0].content_type,
        producers.last().options == producers[0].options,
        producers.last().state.epoch == producers[0].state.epoch,
        producers.last().state.next_seq == producers[0].state.next_seq + replies.len(),
    decreases replies.len(),
{
    if replies.len() > 0 {
        let n = replies.len() - 1;
        let p = producers.drop_last();
        let q = replies.drop_last();
        let a = attempts.drop_last();
        assert forall|i: int| 0 <= i < q.len() implies is_after_append(
            #[trigger] p[i],
            false,
            Ok(q[i]),
            p[i + 1],
            a[i],
        ) by {
            assert(p[i] == producers[i] && p[i + 1] == producers[i + 1]);
            assert(q[i] == replies[i] && a[i] == attempts[i]);
        }
        lemma_numbering(p, q, a);
        assert(is_after_append(producers[n], false, Ok(replies[n]), producers[n + 1], attempts[n]));
        assert(p.last() == producers[n]);
    }
}

/// A producer that was fenced off by the server goes on in the epoch after the one that fenced it,
/// from the first number, if it may claim epochs and has not done so for this append; else it
/// stays as it was and the caller learns why.
pub proof fn law_fenced_producer_claims_the_next_epoch(
    p: IdempotentProducer,
    retried: bool,
    current: u64,
    received: u64,
    sender: ProducerHeaders,
    tail: Option<Seq<char>>,
    wire: WireProblem,
    all: Fields,
    body: Seq<char>,
    told: Error,
    next: IdempotentProducer,
    r: Attempt<AppendResponse>,
)
    requires
        current < i64::MAX,
        is_wire(
            wire,
            append_problem(ServerError::EpochFenced { current, received }, Some(sender), tail),
        ),
        is_received(all, fields(wire.headers@)),
        is_reply_error(told, wire.status, all, body),
        is_after_append(p, retried, Err(told), next, r),
    ensures
        next.config == p.config,
        if p.config.auto_claim && !retried {
            r is Retry && next.state.epoch == current + 1 && next.state.next_seq == 0
        } else {
            r == Attempt::<AppendResponse>::Finish(Err(told)) && next.state == p.state
        },
{
    law_client_learns_why_its_append_was_refused(
        ServerError::EpochFenced { current, received },
        Some(sender),
        tail,
        wire,
        all,
        body,
        told,
    );
}

/// No other failure changes the numbering: the same number would be sent again.
pub proof fn law_other_failures_keep_the_number(
    p: IdempotentProducer,
    retried: bool,
    told: Error,
    next: IdempotentProducer,
    r: Attempt<AppendResponse>,
)
    requires
        is_after_append(p, retried, Err(told), next, r),
        !(told matches Error::Http(h) && h.kind == ErrorKind::Forbidden),
    ensures
        r == Attempt::<AppendResponse>::Finish(Err(told)),
        next.state == p.state,
        !claims(p.config.auto_claim, retried, told),
{
}

/// A close is sent in the name of the producer with its next number, and with the last body where
/// there is one. Once the stream is closed, closing it again succeeds wherever the server says that
/// it is closed, and changes nothing.
pub proof fn law_closing_again_succeeds(
    p: IdempotentProducer,
    body: Option<Vec<u8>>,
    request: CloseStreamRequest,
    retried: bool,
    first: CloseStreamResponse,
    closed: IdempotentProducer,
    r: Attempt<CloseStreamResponse>,
    again: Result<CloseStreamResponse, Error>,
    after: IdempotentProducer,
    s: Attempt<CloseStreamResponse>,
)
    requires
        is_close(p, body, request),
        !p.state.closed,
        is_after_close(p, retried, Ok(first), closed, r),
        is_after_close(closed, retried, again, after, s),
        again matches Err(told) ==> (told matches Error::Http(h) && (h.kind == ErrorKind::StreamClosed
            || h.kind == ErrorKind::Conflict)),
    ensures
        request.body == body,
        request.producer matches Some(sent) && sent.producer_id@ == p.config.producer_id@
            && sent.producer_epoch == p.state.epoch && sent.producer_seq == p.state.next_seq,
        text_opt(request.content_type) == Some(p.content_type@),
        request.options.headers@ == p.options.headers@,
        request.options.query@ == p.options.query@,
        r == Attempt::Finish(Ok::<CloseStreamResponse, Error>(first)),
        closed.state.closed,
        text_opt(closed.state.acked_server_offset) == Some(first.final_offset@),
        closed.state.next_seq == p.state.next_seq && closed.state.epoch == p.state.epoch,
        s matches Attempt::Finish(Ok(_)),
        again matches Err(told) ==> (s matches Attempt::Finish(Ok(last)) && last.stream_closed
            && last.status == 200 && (told->Http_0.next_offset matches Some(o) ==> last.final_offset@
            == o@)),
        again matches Ok(last) ==> s == Attempt::Finish(Ok::<CloseStreamResponse, Error>(last)),
        after == closed,
{
}

/// A configuration is accepted exactly where the producer has a name, an epoch and room in its
/// batches.
pub proof fn law_accepted_producers_can_send(config: IdempotentProducerConfig)
    ensures
        config_rejection(config) is None <==> trim_spec(config.producer_id@).len() > 0 && config.epoch
            >= 0 && config.max_batch_bytes > 0 && (config.max_batch_items matches Some(n) ==> n > 0),
{
}

proof fn lemma_concatenated(bodies: Seq<Seq<u8>>)
    ensures
        concatenated(bodies) == bodies.flatten(),
    decreases bodies.len(),
{
    bodies.lemma_flatten_and_flatten_alt_are_equivalent();
    if bodies.len() > 0 {
        let most = bodies.drop_last();
        lemma_concatenated(most);
        most.lemma_flatten_and_flatten_alt_are_equivalent();
        assert(bodies.flatten_alt() =~= most.flatten_alt() + bodies.last());
    } else {
        assert(bodies.flatten_alt() =~= Seq::<u8>::empty());
    }
}

/// Whether texts are those of JSON bodies, one for each.
pub open spec fn are_texts_of(items: Seq<Seq<char>>, bodies: Seq<Seq<u8>>) -> bool {
    &&& items.len() == bodies.len()
    &&& forall|i: int|
        0 <= i < bodies.len() ==> (json_document(#[trigger] bodies[i]) matches Ok(d) && items[i]
            == document_text(d.0, d.1))
}

proof fn lemma_json_bodies(bodies: Seq<Seq<u8>>)
    ensures
        match json_bodies(bodies) {
            Ok(items) => are_texts_of(items, bodies),
            Err(m) => exists|i: int|
                0 <= i < bodies.len() && json_document(#[trigger] bodies[i]) == Err::<
                    (bool, Seq<Seq<char>>),
                    Seq<char>,
                >(m),
        },
    decreases bodies.len(),
{
    if bodies.len() > 0 {
        let most = bodies.drop_last();
        lemma_json_bodies(most);
        let n = bodies.len() - 1;
        match json_bodies(most) {
            Ok(done) => {
                match json_document(bodies[n]) {
                    Ok(d) => {
                        let items = done.push(document_text(d.0, d.1));
                        assert forall|i: int| 0 <= i < bodies.len() implies (json_document(
                            #[trigger] bodies[i],
                        ) matches Ok(d) && items[i] == document_text(d.0, d.1)) by {
                            if i < n {
                                assert(most[i] == bodies[i]);
                            }
                        }
                    },
                    Err(_) => {},
                }
            },
            Err(m) => {
                let i = choose|i: int|
                    0 <= i < most.len() && json_document(#[trigger] most[i]) == Err::<
                        (bool, Seq<Seq<char>>),
                        Seq<char>,
                    >(m);
                assert(most[i] == bodies[i]);
            },
        }
    }
}

/// A batch of a stream that is not JSON is the bodies as they are, one after another; of a JSON
/// stream it is one array with each body as an element, in order. It is not sent exactly where it
/// is too long or has too many bodies, or where one of them is no JSON.
pub proof fn law_batches_hold_every_body(
    r: Result<AppendRequest, Error>,
    p: IdempotentProducer,
    bodies: Seq<Seq<u8>>,
)
    requires
        is_batch_append(r, p, bodies),
    ensures
        r matches Ok(q) ==> {
            &&& q.body@.len() <= p.config.max_batch_bytes
            &&& p.config.max_batch_items matches Some(n) ==> bodies.len() <= n
            &&& if "application/json"@.is_prefix_of(p.content_type@) {
                exists|items: Seq<Seq<char>>| #[trigger]
                    are_texts_of(items, bodies) && q.body@ == encode_utf8(
                        "["@ + join_spec(items, ","@) + "]"@,
                    )
            } else {
                q.body@ == bodies.flatten()
            }
        },
        !("application/json"@.is_prefix_of(p.content_type@)) ==> (r is Err <==> bodies.flatten().len()
            > p.config.max_batch_bytes || (p.config.max_batch_items matches Some(n) && bodies.len() > n)),
{
    lemma_concatenated(bodies);
    lemma_json_bodies(bodies);
    if let Ok(items) = json_bodies(bodies) {
        assert(are_texts_of(items, bodies));
    }
}

} // verus!
