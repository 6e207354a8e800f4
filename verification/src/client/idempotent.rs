//! Idempotent producer: sequence-aware appends.
//!
//! The producer decides what to send and what each reply means; sending is left to the
//! caller. Local sequence numbers advance on success, and a producer that was fenced may
//! claim the next epoch once.

use vstd::prelude::*;
use vstd::utf8::encode_utf8;
use crate::bytes::{append_slice, byte_lists};
use crate::client::error::{Error, ErrorKind, HttpError};
use crate::client::journal::ProducerJournalProgress;
use crate::client::model::{
    AppendRequest, AppendResponse, CloseStreamRequest, CloseStreamResponse, ProducerRequest,
    RequestOptions,
};
use crate::fields::copy_fields;
use crate::json::{Document, document_text, json_document, parse_document};
use crate::text::{join, join_spec, joined3, starts_with, text_opt, texts, trim, trim_spec};

verus! {

/// Idempotent producer configuration.
#[derive(Debug, Clone, PartialEq, Eq)]
pub struct IdempotentProducerConfig {
    /// Producer identifier sent in `Producer-Id`.
    pub producer_id: String,
    /// Starting epoch used for the first append.
    pub epoch: i64,
    /// Whether 403 fencing responses should trigger one local epoch claim retry.
    pub auto_claim: bool,
    /// Maximum bytes allowed in a batched append payload.
    pub max_batch_bytes: usize,
    /// Optional maximum number of logical items per batch.
    pub max_batch_items: Option<usize>,
}

impl Default for IdempotentProducerConfig {
    fn default() -> (r: Self)
        ensures
            r.producer_id@ == ""@,
            r.epoch == 0,
            !r.auto_claim,
            r.max_batch_bytes == 1024 * 1024,
            r.max_batch_items is None,
    {
        proof {
            reveal_strlit("");
        }
        let producer_id = String::new();
        assert(producer_id@ =~= ""@);
        IdempotentProducerConfig {
            producer_id,
            epoch: 0,
            auto_claim: false,
            max_batch_bytes: 1024 * 1024,
            max_batch_items: None,
        }
    }
}

/// Why a producer configuration is rejected, if it is.
pub open spec fn config_rejection(config: IdempotentProducerConfig) -> Option<Seq<char>> {
    if trim_spec(config.producer_id@).len() == 0 {
        Some("producerId must not be empty"@)
    } else if config.epoch < 0 {
        Some("epoch must not be negative"@)
    } else if config.max_batch_bytes == 0 {
        Some("maxBatchBytes must be greater than zero"@)
    } else if config.max_batch_items == Some(0usize) {
        Some("maxBatchItems must be greater than zero"@)
    } else {
        None
    }
}

impl IdempotentProducerConfig {
    /// Validate producer configuration before construction.
    pub fn validate(&self) -> (r: Result<(), Error>)
        ensures
            match r {
                Ok(_) => config_rejection(*self) is None,
                Err(Error::InvalidArgument(m)) => config_rejection(*self) == Some(m@),
                Err(_) => false,
            },
    {
        if trim(self.producer_id.as_str()).is_empty() {
            return Err(Error::invalid_argument("producerId must not be empty"));
        }
        if self.epoch < 0 {
            return Err(Error::invalid_argument("epoch must not be negative"));
        }
        if self.max_batch_bytes == 0 {
            return Err(Error::invalid_argument("maxBatchBytes must be greater than zero"));
        }
        if let Some(max_batch_items) = self.max_batch_items {
            if max_batch_items == 0 {
                return Err(Error::invalid_argument("maxBatchItems must be greater than zero"));
            }
        }
        Ok(())
    }
}

/// What a producer knows of its progress.
#[derive(Debug)]
pub struct ProducerState {
    pub epoch: i64,
    pub next_seq: i64,
    pub closed: bool,
    pub acked_server_offset: Option<String>,
    pub acked_local_seq: Option<u64>,
}

/// What follows from a reply: another attempt, or the result of the operation.
#[derive(Debug)]
pub enum Attempt<T> {
    Retry,
    Finish(Result<T, Error>),
}

/// The epoch that a fenced producer claims: the one above the epoch that the server
/// reports, or above its own.
pub open spec fn claimed_epoch(epoch: i64, http: HttpError) -> int {
    match http.producer_epoch {
        Some(server) => server + 1,
        None => epoch + 1,
    }
}

/// Whether a failed attempt leads to a claim: the producer was fenced, may claim epochs and
/// has not done so for this operation.
pub open spec fn claims(auto_claim: bool, retried: bool, error: Error) -> bool {
    error matches Error::Http(http) && auto_claim && http.kind == ErrorKind::Forbidden && !retried
}

impl ProducerState {
    /// A producer that has sent nothing.
    pub fn new(epoch: i64) -> (r: Self)
        ensures
            r == (ProducerState {
                epoch,
                next_seq: 0,
                closed: false,
                acked_server_offset: None,
                acked_local_seq: None,
            }),
    {
        ProducerState {
            epoch,
            next_seq: 0,
            closed: false,
            acked_server_offset: None,
            acked_local_seq: None,
        }
    }

    /// Whether the state after a failed attempt is what it has to be: a claim where there is
    /// one, else no change.
    pub open spec fn after_failure(self, auto_claim: bool, retried: bool, error: Error) -> Self {
        if claims(auto_claim, retried, error) {
            ProducerState {
                epoch: claimed_epoch(self.epoch, *error->Http_0) as i64,
                next_seq: 0,
                ..self
            }
        } else {
            self
        }
    }

    /// Takes a failed attempt: claims the next epoch where the producer was fenced and may,
    /// and asks for another attempt then.
    fn on_failure<T>(&mut self, auto_claim: bool, retried: bool, error: Error) -> (r: Attempt<T>)
        requires
            claims(auto_claim, retried, error) ==> claimed_epoch(old(self).epoch, *error->Http_0)
                <= i64::MAX,
        ensures
            *final(self) == old(self).after_failure(auto_claim, retried, error),
            r == if claims(auto_claim, retried, error) {
                Attempt::<T>::Retry
            } else {
                Attempt::<T>::Finish(Err(error))
            },
    {
        let claimed: Option<i64> = match &error {
            Error::Http(http) => {
                if auto_claim && http.kind == ErrorKind::Forbidden && !retried {
                    let base: i64 = match http.producer_epoch {
                        Some(server) => server,
                        None => self.epoch,
                    };
                    Some(base + 1)
                } else {
                    None
                }
            },
            _ => None,
        };
        match claimed {
            Some(epoch) => {
                self.epoch = epoch;
                self.next_seq = 0;
                Attempt::Retry
            },
            None => Attempt::Finish(Err(error)),
        }
    }

    /// Takes the reply to an append. A success advances the sequence.
    pub fn on_append_reply(
        &mut self,
        auto_claim: bool,
        retried: bool,
        reply: Result<AppendResponse, Error>,
    ) -> (r: Attempt<AppendResponse>)
        requires
            reply is Ok ==> old(self).next_seq < i64::MAX,
            reply matches Err(e) ==> (claims(auto_claim, retried, e) ==> claimed_epoch(
                old(self).epoch,
                *e->Http_0,
            ) <= i64::MAX),
        ensures
            match reply {
                Ok(response) => {
                    &&& r == Attempt::Finish(Ok::<AppendResponse, Error>(response))
                    &&& final(self).epoch == old(self).epoch
                    &&& final(self).next_seq == old(self).next_seq + 1
                    &&& final(self).closed == old(self).closed
                    &&& text_opt(final(self).acked_server_offset) == text_opt(response.next_offset)
                    &&& final(self).acked_local_seq == old(self).acked_local_seq
                },
                Err(e) => {
                    &&& *final(self) == old(self).after_failure(auto_claim, retried, e)
                    &&& r == if claims(auto_claim, retried, e) {
                        Attempt::<AppendResponse>::Retry
                    } else {
                        Attempt::Finish(Err(e))
                    }
                },
            },
    {
        match reply {
            Ok(response) => {
                self.acked_server_offset = response.next_offset.clone();
                self.next_seq = self.next_seq + 1;
                Attempt::Finish(Ok(response))
            },
            Err(e) => self.on_failure(auto_claim, retried, e),
        }
    }

    /// Takes the reply to a close of an open stream. A success closes the producer.
    pub fn on_close_reply(
        &mut self,
        auto_claim: bool,
        retried: bool,
        reply: Result<CloseStreamResponse, Error>,
    ) -> (r: Attempt<CloseStreamResponse>)
        requires
            reply matches Err(e) ==> (claims(auto_claim, retried, e) ==> claimed_epoch(
                old(self).epoch,
                *e->Http_0,
            ) <= i64::MAX),
        ensures
            match reply {
                Ok(response) => {
                    &&& r == Attempt::Finish(Ok::<CloseStreamResponse, Error>(response))
                    &&& *final(self) == (ProducerState {
                        closed: true,
                        acked_server_offset: Some(response.final_offset),
                        ..*old(self)
                    })
                },
                Err(e) => {
                    &&& *final(self) == old(self).after_failure(auto_claim, retried, e)
                    &&& r == if claims(auto_claim, retried, e) {
                        Attempt::<CloseStreamResponse>::Retry
                    } else {
                        Attempt::Finish(Err(e))
                    }
                },
            },
    {
        match reply {
            Ok(response) => {
                self.acked_server_offset = Some(response.final_offset.clone());
                self.closed = true;
                Attempt::Finish(Ok(response))
            },
            Err(e) => self.on_failure(auto_claim, retried, e),
        }
    }

    /// The producer headers of the next request.
    pub fn headers(&self, producer_id: &String) -> (r: ProducerRequest)
        ensures
            r == (ProducerRequest {
                producer_id: *producer_id,
                producer_epoch: self.epoch,
                producer_seq: self.next_seq,
            }),
    {
        ProducerRequest {
            producer_id: producer_id.clone(),
            producer_epoch: self.epoch,
            producer_seq: self.next_seq,
        }
    }

    /// Snapshot the current in-memory producer progress for later persistence.
    pub fn progress(&self, producer_id: &String) -> (r: ProducerJournalProgress)
        ensures
            r.producer_id == *producer_id,
            r.epoch == self.epoch,
            r.next_seq == self.next_seq,
            text_opt(r.acked_server_offset) == text_opt(self.acked_server_offset),
            r.acked_local_seq == self.acked_local_seq,
    {
        ProducerJournalProgress {
            producer_id: producer_id.clone(),
            epoch: self.epoch,
            next_seq: self.next_seq,
            acked_server_offset: self.acked_server_offset.clone(),
            acked_local_seq: self.acked_local_seq,
        }
    }
}

/// Whether an error says that the stream was closed before.
pub open spec fn says_already_closed(error: Error) -> bool {
    error matches Error::Http(http) && (http.kind == ErrorKind::Conflict || http.kind
        == ErrorKind::StreamClosed)
}

/// What the reply to another close of a closed stream comes to: a conflict is a success.
pub fn repeated_close(reply: Result<CloseStreamResponse, Error>) -> (r: Result<
    CloseStreamResponse,
    Error,
>)
    ensures
        match reply {
            Err(e) => if says_already_closed(e) {
                r matches Ok(response) && response.status == 200 && response.stream_closed
                    && response.final_offset@ == match e->Http_0.next_offset {
                    Some(o) => o@,
                    None => ""@,
                }
            } else {
                r == reply
            },
            Ok(_) => r == reply,
        },
{
    match reply {
        Ok(response) => Ok(response),
        Err(Error::Http(http)) => {
            if http.kind == ErrorKind::Conflict || http.kind == ErrorKind::StreamClosed {
                let final_offset = match &http.next_offset {
                    Some(o) => o.clone(),
                    None => "".to_owned(),
                };
                Ok(CloseStreamResponse { status: 200, final_offset, stream_closed: true })
            } else {
                Err(Error::Http(http))
            }
        },
        Err(e) => Err(e),
    }
}

/// The compact text of a document.
pub fn text_of_document(document: &Document) -> (r: String)
    requires
        document.is_array || document.items@.len() == 1,
    ensures
        r@ == document_text(document.is_array, texts(document.items@)),
{
    if document.is_array {
        let content = join(&document.items, ",");
        joined3("[", content.as_str(), "]")
    } else {
        assert(texts(document.items@)[0] == document.items@[0]@);
        document.items[0].clone()
    }
}

/// The compact texts of the bodies as JSON, or the message of the first that is none.
pub open spec fn json_bodies(bodies: Seq<Seq<u8>>) -> Result<Seq<Seq<char>>, Seq<char>>
    decreases bodies.len(),
{
    if bodies.len() == 0 {
        Ok(Seq::empty())
    } else {
        match json_bodies(bodies.drop_last()) {
            Ok(done) => match json_document(bodies.last()) {
                Ok(d) => Ok(done.push(document_text(d.0, d.1))),
                Err(m) => Err(m),
            },
            Err(m) => Err(m),
        }
    }
}

/// The bodies one after another.
pub open spec fn concatenated(bodies: Seq<Seq<u8>>) -> Seq<u8>
    decreases bodies.len(),
{
    if bodies.len() == 0 {
        Seq::empty()
    } else {
        concatenated(bodies.drop_last()) + bodies.last()
    }
}

/// A JSON array of values given as compact texts.
pub fn json_array(values: &Vec<String>) -> (r: Vec<u8>)
    ensures
        r@ == encode_utf8("["@ + join_spec(texts(values@), ","@) + "]"@),
{
    let content = join(values, ",");
    joined3("[", content.as_str(), "]").as_str().as_bytes_vec()
}

proof fn lemma_json_bodies_fail(bodies: Seq<Seq<u8>>, i: int)
    requires
        0 <= i <= bodies.len(),
        json_bodies(bodies.take(i)) is Err,
    ensures
        json_bodies(bodies) == json_bodies(bodies.take(i)),
    decreases bodies.len() - i,
{
    if i < bodies.len() {
        assert(bodies.take(i + 1).drop_last() =~= bodies.take(i));
        lemma_json_bodies_fail(bodies, i + 1);
    } else {
        assert(bodies.take(i) =~= bodies);
    }
}

/// The payload of a batch: JSON payloads become the elements of one array, others are put one
/// after another; else the message of the first that is no JSON.
pub open spec fn batch_payload(content_type: Seq<char>, bodies: Seq<Seq<u8>>) -> Result<
    Seq<u8>,
    Seq<char>,
> {
    if "application/json"@.is_prefix_of(content_type) {
        match json_bodies(bodies) {
            Ok(items) => Ok(encode_utf8("["@ + join_spec(items, ","@) + "]"@)),
            Err(m) => Err(m),
        }
    } else {
        Ok(concatenated(bodies))
    }
}

/// Puts several payloads together to one request body: JSON payloads become the elements of
/// one array, others are put one after another.
pub fn combine_bodies(content_type: &str, bodies: &Vec<Vec<u8>>) -> (r: Result<Vec<u8>, Error>)
    ensures
        match (batch_payload(content_type@, byte_lists(bodies@)), r) {
            (Ok(payload), Ok(body)) => body@ == payload,
            (Err(m), Err(Error::Json(t))) => t@ == m,
            _ => false,
        },
{
    let ghost all = byte_lists(bodies@);
    if starts_with(content_type, "application/json") {
        let mut items: Vec<String> = Vec::new();
        let mut i: usize = 0;
        assert(texts(items@) =~= Seq::empty());
        assert(all.take(0) =~= Seq::empty());
        while i < bodies.len()
            invariant
                i <= bodies@.len(),
                all == byte_lists(bodies@),
                json_bodies(all.take(i as int)) == Ok::<Seq<Seq<char>>, Seq<char>>(texts(items@)),
                "application/json"@.is_prefix_of(content_type@),
            decreases bodies.len() - i,
        {
            proof {
                let next = all.take(i + 1);
                assert(next.drop_last() =~= all.take(i as int));
                assert(next.last() == bodies@[i as int]@);
            }
            match parse_document(bodies[i].as_slice()) {
                Ok(document) => {
                    let text = text_of_document(&document);
                    let ghost before = items@;
                    let ghost t = text@;
                    items.push(text);
                    assert(texts(items@) =~= texts(before).push(t));
                },
                Err(m) => {
                    proof {
                        lemma_json_bodies_fail(all, i + 1);
                    }
                    return Err(Error::Json(m));
                },
            }
            i += 1;
        }
        assert(all.take(all.len() as int) =~= all);
        Ok(json_array(&items))
    } else {
        let mut out: Vec<u8> = Vec::new();
        let mut i: usize = 0;
        assert(all.take(0) =~= Seq::empty());
        while i < bodies.len()
            invariant
                i <= bodies@.len(),
                all == byte_lists(bodies@),
                out@ == concatenated(all.take(i as int)),
            decreases bodies.len() - i,
        {
            append_slice(&mut out, bodies[i].as_slice());
            proof {
                let next = all.take(i + 1);
                assert(next.drop_last() =~= all.take(i as int));
                assert(next.last() == bodies@[i as int]@);
            }
            i += 1;
        }
        assert(all.take(all.len() as int) =~= all);
        Ok(out)
    }
}

/// The request body of an append of JSON values, for a stream of JSON.
pub fn json_values_body(content_type: &str, values: &Vec<String>) -> (r: Result<Vec<u8>, Error>)
    ensures
        if "application/json"@.is_prefix_of(content_type@) {
            r matches Ok(body) && body@ == encode_utf8(
                "["@ + join_spec(texts(values@), ","@) + "]"@,
            )
        } else {
            r matches Err(Error::InvalidArgument(m)) && m@
                == "append_json_values requires an application/json content type"@
        },
{
    if !starts_with(content_type, "application/json") {
        return Err(
            Error::invalid_argument("append_json_values requires an application/json content type"),
        );
    }
    Ok(json_array(values))
}

/// Producer helper that manages producer headers and sequence advancement.
///
/// It says what is sent and takes the replies; every request of an operation is made anew
/// from the state that the replies before it left.
#[derive(Debug)]
pub struct IdempotentProducer {
    pub path: String,
    pub content_type: String,
    pub options: RequestOptions,
    pub config: IdempotentProducerConfig,
    pub state: ProducerState,
}

/// Whether a producer request carries the numbers that come next.
pub open spec fn is_next(request: Option<ProducerRequest>, p: IdempotentProducer) -> bool {
    request == Some(
        ProducerRequest {
            producer_id: p.config.producer_id,
            producer_epoch: p.state.epoch,
            producer_seq: p.state.next_seq,
        },
    )
}

/// Whether a request is the append of a body.
pub open spec fn is_append(p: IdempotentProducer, body: Seq<u8>, r: AppendRequest) -> bool {
    &&& r.body@ == body
    &&& text_opt(r.content_type) == Some(p.content_type@)
    &&& r.stream_seq is None
    &&& is_next(r.producer, p)
    &&& r.options.headers@ == p.options.headers@
    &&& r.options.query@ == p.options.query@
}

/// Whether a batch has more items than it may have.
pub open spec fn too_many_items(config: IdempotentProducerConfig, items: nat) -> bool {
    config.max_batch_items matches Some(limit) && items > limit
}

/// Whether a result reports a batch with too many items.
pub open spec fn is_too_many_items<T>(r: Result<T, Error>) -> bool {
    r matches Err(Error::InvalidArgument(m)) && m@ == "batch exceeds maxBatchItems"@
}

/// Whether a result reports a batch with too many bytes.
pub open spec fn is_too_many_bytes<T>(r: Result<T, Error>) -> bool {
    r matches Err(Error::InvalidArgument(m)) && m@ == "batch exceeds maxBatchBytes"@
}

/// Whether a state is that of a producer that has sent nothing.
pub open spec fn is_unused(state: ProducerState, epoch: i64) -> bool {
    state == (ProducerState {
        epoch,
        next_seq: 0,
        closed: false,
        acked_server_offset: None,
        acked_local_seq: None,
    })
}

/// Whether a request is the close of a stream, with a last body or without.
pub open spec fn is_close(p: IdempotentProducer, body: Option<Vec<u8>>, r: CloseStreamRequest) -> bool {
    &&& r.body == body
    &&& text_opt(r.content_type) == Some(p.content_type@)
    &&& is_next(r.producer, p)
    &&& r.options.headers@ == p.options.headers@
    &&& r.options.query@ == p.options.query@
}

/// Whether a result is the append of a batch, or why it cannot be sent.
pub open spec fn is_batch_append(
    r: Result<AppendRequest, Error>,
    p: IdempotentProducer,
    bodies: Seq<Seq<u8>>,
) -> bool {
    if too_many_items(p.config, bodies.len()) {
        is_too_many_items(r)
    } else {
        match batch_payload(p.content_type@, bodies) {
            Err(m) => r matches Err(Error::Json(t)) && t@ == m,
            Ok(body) => if body.len() > p.config.max_batch_bytes {
                is_too_many_bytes(r)
            } else {
                r matches Ok(q) && is_append(p, body, q)
            },
        }
    }
}

/// Whether a producer has taken the reply to an append.
pub open spec fn is_after_append(
    p: IdempotentProducer,
    retried: bool,
    reply: Result<AppendResponse, Error>,
    next: IdempotentProducer,
    r: Attempt<AppendResponse>,
) -> bool {
    &&& next == (IdempotentProducer { state: next.state, ..p })
    &&& match reply {
        Ok(response) => {
            &&& r == Attempt::Finish(Ok::<AppendResponse, Error>(response))
            &&& next.state.epoch == p.state.epoch
            &&& next.state.next_seq == p.state.next_seq + 1
            &&& next.state.closed == p.state.closed
            &&& text_opt(next.state.acked_server_offset) == text_opt(response.next_offset)
            &&& next.state.acked_local_seq == p.state.acked_local_seq
        },
        Err(e) => {
            &&& next.state == p.state.after_failure(p.config.auto_claim, retried, e)
            &&& r == if claims(p.config.auto_claim, retried, e) {
                Attempt::<AppendResponse>::Retry
            } else {
                Attempt::Finish(Err(e))
            }
        },
    }
}

/// Whether a producer has taken the reply to a close.
pub open spec fn is_after_close(
    p: IdempotentProducer,
    retried: bool,
    reply: Result<CloseStreamResponse, Error>,
    next: IdempotentProducer,
    r: Attempt<CloseStreamResponse>,
) -> bool {
    &&& next == (IdempotentProducer { state: next.state, ..p })
    &&& if p.state.closed {
        &&& next.state == p.state
        &&& match reply {
            Err(e) => if says_already_closed(e) {
                r matches Attempt::Finish(Ok(response)) && response.status == 200
                    && response.stream_closed && response.final_offset@ == match e->Http_0.next_offset {
                    Some(o) => o@,
                    None => ""@,
                }
            } else {
                r == Attempt::Finish(reply)
            },
            Ok(_) => r == Attempt::Finish(reply),
        }
    } else {
        match reply {
            Ok(response) => {
                &&& r == Attempt::Finish(Ok::<CloseStreamResponse, Error>(response))
                &&& next.state == (ProducerState {
                    closed: true,
                    acked_server_offset: Some(response.final_offset),
                    ..p.state
                })
            },
            Err(e) => {
                &&& next.state == p.state.after_failure(p.config.auto_claim, retried, e)
                &&& r == if claims(p.config.auto_claim, retried, e) {
                    Attempt::<CloseStreamResponse>::Retry
                } else {
                    Attempt::Finish(Err(e))
                }
            },
        }
    }
}

impl IdempotentProducer {
    /// Create a producer bound to one stream path and content type.
    ///
    /// # Errors
    ///
    /// Returns why the configuration is rejected.
    pub fn new(
        path: String,
        content_type: String,
        options: RequestOptions,
        config: IdempotentProducerConfig,
    ) -> (r: Result<Self, Error>)
        ensures
            match r {
                Ok(p) => {
                    &&& config_rejection(config) is None
                    &&& p.path == path && p.content_type == content_type && p.options == options
                    &&& p.config == config && is_unused(p.state, config.epoch)
                },
                Err(e) => e matches Error::InvalidArgument(m) && config_rejection(config) == Some(
                    m@,
                ),
            },
    {
        match config.validate() {
            Ok(_) => {},
            Err(e) => return Err(e),
        }
        let state = ProducerState::new(config.epoch);
        Ok(IdempotentProducer { path, content_type, options, config, state })
    }

    fn copy_options(&self) -> (r: RequestOptions)
        ensures
            r.headers@ == self.options.headers@,
            r.query@ == self.options.query@,
    {
        RequestOptions {
            headers: copy_fields(&self.options.headers),
            query: copy_fields(&self.options.query),
        }
    }

    /// The request that appends one payload.
    pub fn append(&self, body: Vec<u8>) -> (r: AppendRequest)
        ensures
            is_append(*self, body@, r),
    {
        AppendRequest {
            body,
            content_type: Some(self.content_type.clone()),
            stream_seq: None,
            producer: Some(self.state.headers(&self.config.producer_id)),
            options: self.copy_options(),
        }
    }

    /// Whether a batch of this many items is within the limit, if there is one.
    ///
    /// # Errors
    ///
    /// Returns an error where there are more items than a batch may have.
    pub fn check_items(&self, items: usize) -> (r: Result<(), Error>)
        ensures
            if too_many_items(self.config, items as nat) {
                is_too_many_items(r)
            } else {
                r is Ok
            },
    {
        if let Some(limit) = self.config.max_batch_items {
            if items > limit {
                return Err(Error::invalid_argument("batch exceeds maxBatchItems"));
            }
        }
        Ok(())
    }

    /// The request that appends the payload of a batch.
    ///
    /// # Errors
    ///
    /// Returns an error where the payload has more bytes than a batch may have.
    pub fn append_payload(&self, body: Vec<u8>) -> (r: Result<AppendRequest, Error>)
        ensures
            if body@.len() > self.config.max_batch_bytes {
                is_too_many_bytes(r)
            } else {
                r matches Ok(q) && is_append(*self, body@, q)
            },
    {
        if body.len() > self.config.max_batch_bytes {
            return Err(Error::invalid_argument("batch exceeds maxBatchBytes"));
        }
        Ok(self.append(body))
    }

    /// The request that appends multiple logical payloads as one request body.
    ///
    /// JSON content types are wrapped into one JSON array. Other content types
    /// are concatenated as raw bytes.
    ///
    /// # Errors
    ///
    /// Returns an error where there are more items, or more bytes, than a batch may have, or where
    /// a payload of a JSON stream is no JSON.
    pub fn append_batch(&self, bodies: &Vec<Vec<u8>>) -> (r: Result<AppendRequest, Error>)
        ensures
            is_batch_append(r, *self, byte_lists(bodies@)),
            r matches Ok(q) ==> q.body@.len() <= self.config.max_batch_bytes && (
            self.config.max_batch_items matches Some(limit) ==> bodies@.len() <= limit),
    {
        match self.check_items(bodies.len()) {
            Ok(_) => {},
            Err(e) => return Err(e),
        }
        match combine_bodies(self.content_type.as_str(), bodies) {
            Ok(body) => self.append_payload(body),
            Err(e) => Err(e),
        }
    }

    /// The request that appends multiple JSON values as one `application/json` batch.
    ///
    /// # Errors
    ///
    /// Returns an error where the stream is no JSON stream, or where there are more values, or
    /// more bytes, than a batch may have.
    pub fn append_json_values(&self, values: &Vec<String>) -> (r: Result<AppendRequest, Error>)
        ensures
            if !"application/json"@.is_prefix_of(self.content_type@) {
                r matches Err(Error::InvalidArgument(m)) && m@
                    == "append_json_values requires an application/json content type"@
            } else if too_many_items(self.config, values@.len()) {
                is_too_many_items(r)
            } else {
                let body = encode_utf8("["@ + join_spec(texts(values@), ","@) + "]"@);
                if body.len() > self.config.max_batch_bytes {
                    is_too_many_bytes(r)
                } else {
                    r matches Ok(q) && is_append(*self, body, q)
                }
            },
            r matches Ok(q) ==> q.body@.len() <= self.config.max_batch_bytes && (
            self.config.max_batch_items matches Some(limit) ==> values@.len() <= limit),
    {
        match json_values_body(self.content_type.as_str(), values) {
            Ok(body) => {
                match self.check_items(values.len()) {
                    Ok(_) => {},
                    Err(e) => return Err(e),
                }
                self.append_payload(body)
            },
            Err(e) => Err(e),
        }
    }

    /// The request that closes the stream using the current producer state.
    pub fn close(&self, body: Option<Vec<u8>>) -> (r: CloseStreamRequest)
        ensures
            is_close(*self, body, r),
    {
        CloseStreamRequest {
            body,
            content_type: Some(self.content_type.clone()),
            producer: Some(self.state.headers(&self.config.producer_id)),
            options: self.copy_options(),
        }
    }

    /// Takes the reply to an append; the operation may ask for another attempt once.
    pub fn on_append_reply(&mut self, retried: bool, reply: Result<AppendResponse, Error>) -> (r: Attempt<
        AppendResponse,
    >)
        requires
            reply is Ok ==> old(self).state.next_seq < i64::MAX,
            reply matches Err(e) ==> (claims(old(self).config.auto_claim, retried, e) ==> claimed_epoch(
                old(self).state.epoch,
                *e->Http_0,
            ) <= i64::MAX),
        ensures
            is_after_append(*old(self), retried, reply, *final(self), r),
    {
        self.state.on_append_reply(self.config.auto_claim, retried, reply)
    }

    /// Takes the reply to a close. Once the stream is closed, closing it again succeeds where
    /// the server says that it is closed, and changes nothing.
    pub fn on_close_reply(&mut self, retried: bool, reply: Result<CloseStreamResponse, Error>) -> (r: Attempt<
        CloseStreamResponse,
    >)
        requires
            reply matches Err(e) ==> (claims(old(self).config.auto_claim, retried, e) ==> claimed_epoch(
                old(self).state.epoch,
                *e->Http_0,
            ) <= i64::MAX),
        ensures
            is_after_close(*old(self), retried, reply, *final(self), r),
    {
        if self.state.closed {
            Attempt::Finish(repeated_close(reply))
        } else {
            self.state.on_close_reply(self.config.auto_claim, retried, reply)
        }
    }

    /// Snapshot the current in-memory producer progress for later persistence.
    pub fn progress(&self) -> (r: ProducerJournalProgress)
        ensures
            r.producer_id == self.config.producer_id,
            r.epoch == self.state.epoch,
            r.next_seq == self.state.next_seq,
            text_opt(r.acked_server_offset) == text_opt(self.state.acked_server_offset),
            r.acked_local_seq == self.state.acked_local_seq,
    {
        self.state.progress(&self.config.producer_id)
    }
}

/// A claim happens at most once in an operation: after one retry, no error leads to another.
pub proof fn law_at_most_one_claim(auto_claim: bool, error: Error)
    ensures
        !claims(auto_claim, true, error),
{
}

/// A claim goes above the epoch that fenced the producer and starts its numbering anew; any
/// other failure leaves the producer as it was, so the same numbers are sent again.
pub proof fn law_failure_keeps_or_restarts_numbering(
    state: ProducerState,
    auto_claim: bool,
    retried: bool,
    error: Error,
)
    requires
        claims(auto_claim, retried, error) ==> claimed_epoch(state.epoch, *error->Http_0) <= i64::MAX,
    ensures
        ({
            let after = state.after_failure(auto_claim, retried, error);
            if claims(auto_claim, retried, error) {
                &&& after.next_seq == 0
                &&& match error->Http_0.producer_epoch {
                    Some(server) => after.epoch == server + 1,
                    None => after.epoch == state.epoch + 1,
                }
            } else {
                after == state
            }
        }),
{
}

} // verus!
