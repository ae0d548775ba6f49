//! The streaming response path once the connection is open.
//!
//! Each event that the server-sent-event decoder delivers (the data of one
//! event, or a failure of the byte stream) is handed to [`ChunkStream::next_item`],
//! which says what the caller receives for it. The literal `[DONE]` ends the
//! sequence without yielding anything; a failure of the byte stream is
//! yielded once and ends it; a payload that is not a chunk is yielded as an
//! error and, by the [`ChunkErrorPolicy`], either ends the sequence or not.
use crate::chat::streaming::{
    json_fragment, lemma_fragment_of_document, spelled_message, ChatCompletionChunk,
};
use crate::errors::OapiError;
use crate::json::{json_parse_of, same_text};
use crate::rest::post::{check_status, status_accepted};
use vstd::prelude::*;

verus! {

/// What follows a payload that is not a chunk.
#[derive(Debug, Clone, Copy, PartialEq, Eq, Structural)]
pub enum ChunkErrorPolicy {
    /// Yield the error and go on with the next event.
    Continue,
    /// Yield the error and end the sequence.
    Stop,
}

/// Where a streamed response stands.
#[derive(Debug, Clone, Copy, PartialEq, Eq, Structural)]
pub enum StreamState {
    Streaming,
    Done,
    Failed,
}

/// The data of the event that ends a stream.
pub open spec fn is_done_marker(data: Seq<char>) -> bool {
    data == "[DONE]"@
}

/// Whether an event yields an item in state `state`.
pub open spec fn emits(state: StreamState, event: Result<String, OapiError>) -> bool {
    state == StreamState::Streaming && match event {
        Ok(d) => !is_done_marker(d@),
        Err(_) => true,
    }
}

/// The state after an event; `None` is the end of the byte stream.
pub open spec fn next_state(
    state: StreamState,
    policy: ChunkErrorPolicy,
    event: Option<Result<String, OapiError>>,
) -> StreamState {
    if state != StreamState::Streaming {
        state
    } else {
        match event {
            None => StreamState::Done,
            Some(Err(_)) => StreamState::Failed,
            Some(Ok(d)) => if is_done_marker(d@) {
                StreamState::Done
            } else if ChatCompletionChunk::text_decodable(d@) || policy == ChunkErrorPolicy::Continue {
                StreamState::Streaming
            } else {
                StreamState::Failed
            },
        }
    }
}

/// Whether `item` is what the caller receives for an event that yields one:
/// the chunk that the data holds, a deserialization error for data that is no
/// chunk (with serde_json's message when it is not even JSON), or the stream's
/// own failure as it came.
pub open spec fn item_fits(
    event: Result<String, OapiError>,
    item: Result<ChatCompletionChunk, OapiError>,
) -> bool {
    match event {
        Ok(d) => if ChatCompletionChunk::text_decodable(d@) {
            item is Ok && ChatCompletionChunk::text_decodes_to(d@, item->Ok_0)
        } else {
            &&& item matches Err(OapiError::DeserializationError(m))
            &&& json_parse_of(d@) is Err ==> (item matches Err(OapiError::DeserializationError(m))
                && m@ == json_parse_of(d@)->Err_0)
        },
        Err(e) => item == Err::<ChatCompletionChunk, OapiError>(e),
    }
}

/// The events of a finite stream that yield an item, in order, from state
/// `state` on.
pub open spec fn emitted(
    state: StreamState,
    policy: ChunkErrorPolicy,
    events: Seq<Result<String, OapiError>>,
) -> Seq<Result<String, OapiError>>
    decreases events.len(),
{
    if events.len() == 0 || state != StreamState::Streaming {
        Seq::empty()
    } else {
        let rest = emitted(next_state(state, policy, Some(events[0])), policy, events.drop_first());
        if emits(state, events[0]) {
            seq![events[0]] + rest
        } else {
            rest
        }
    }
}

/// Whether an event holds a chunk (and is not the end marker).
pub open spec fn is_chunk_event(event: Result<String, OapiError>) -> bool {
    event is Ok && !is_done_marker(event->Ok_0@) && ChatCompletionChunk::text_decodable(event->Ok_0@)
}

/// A stream of `n` chunk events followed by `[DONE]` yields exactly those `n`
/// events, in order, and nothing for whatever comes after the marker.
pub proof fn lemma_sentinel_termination(
    policy: ChunkErrorPolicy,
    events: Seq<Result<String, OapiError>>,
    n: int,
)
    requires
        0 <= n < events.len(),
        forall|i: int| 0 <= i < n ==> is_chunk_event(#[trigger] events[i]),
        events[n] is Ok,
        is_done_marker(events[n]->Ok_0@),
    ensures
        emitted(StreamState::Streaming, policy, events) == events.subrange(0, n),
    decreases n,
{
    if n == 0 {
        assert(emitted(StreamState::Done, policy, events.drop_first()) =~= Seq::empty());
        assert(events.subrange(0, 0) =~= Seq::<Result<String, OapiError>>::empty());
    } else {
        let rest = events.drop_first();
        assert(is_chunk_event(events[0]));
        assert forall|i: int| 0 <= i < n - 1 implies is_chunk_event(#[trigger] rest[i]) by {
            assert(rest[i] == events[i + 1]);
        }
        assert(rest[n - 1] == events[n]);
        lemma_sentinel_termination(policy, rest, n - 1);
        assert(seq![events[0]] + rest.subrange(0, n - 1) =~= events.subrange(0, n));
    }
}

/// A stream whose events all hold chunks yields every one of them, in the
/// order in which they arrived.
pub proof fn lemma_wire_order(policy: ChunkErrorPolicy, events: Seq<Result<String, OapiError>>)
    requires
        forall|i: int| 0 <= i < events.len() ==> is_chunk_event(#[trigger] events[i]),
    ensures
        emitted(StreamState::Streaming, policy, events) == events,
    decreases events.len(),
{
    if events.len() == 0 {
        assert(emitted(StreamState::Streaming, policy, events) =~= events);
    } else {
        let rest = events.drop_first();
        assert(is_chunk_event(events[0]));
        assert forall|i: int| 0 <= i < rest.len() implies is_chunk_event(#[trigger] rest[i]) by {
            assert(rest[i] == events[i + 1]);
        }
        lemma_wire_order(policy, rest);
        assert(seq![events[0]] + rest =~= events);
    }
}

/// One malformed payload between two chunks: the first chunk, then the error;
/// under [`ChunkErrorPolicy::Continue`] the second chunk follows, under
/// [`ChunkErrorPolicy::Stop`] the sequence ends there.
pub proof fn lemma_malformed_event_isolated(
    policy: ChunkErrorPolicy,
    first: Result<String, OapiError>,
    bad: Result<String, OapiError>,
    last: Result<String, OapiError>,
)
    requires
        is_chunk_event(first),
        is_chunk_event(last),
        bad is Ok,
        !is_done_marker(bad->Ok_0@),
        !ChatCompletionChunk::text_decodable(bad->Ok_0@),
    ensures
        policy == ChunkErrorPolicy::Continue ==> emitted(
            StreamState::Streaming,
            policy,
            seq![first, bad, last],
        ) == seq![first, bad, last],
        policy == ChunkErrorPolicy::Stop ==> emitted(
            StreamState::Streaming,
            policy,
            seq![first, bad, last],
        ) == seq![first, bad],
{
    let all = seq![first, bad, last];
    let tail1 = all.drop_first();
    let tail2 = tail1.drop_first();
    let tail3 = tail2.drop_first();
    assert(tail1 =~= seq![bad, last]);
    assert(tail2 =~= seq![last]);
    assert(tail3 =~= Seq::<Result<String, OapiError>>::empty());
    let after_bad = next_state(StreamState::Streaming, policy, Some(bad));
    assert(emitted(after_bad, policy, tail3) =~= Seq::empty());
    assert(emitted(next_state(after_bad, policy, Some(last)), policy, tail3) =~= Seq::empty());
    if policy == ChunkErrorPolicy::Continue {
        assert(emitted(StreamState::Streaming, policy, tail2) =~= seq![last]);
        assert(emitted(StreamState::Streaming, policy, tail1) =~= seq![bad, last]);
        assert(emitted(StreamState::Streaming, policy, all) =~= seq![first, bad, last]);
    } else {
        assert(emitted(StreamState::Failed, policy, tail2) =~= Seq::empty());
        assert(emitted(StreamState::Streaming, policy, tail1) =~= seq![bad]);
        assert(emitted(StreamState::Streaming, policy, all) =~= seq![first, bad]);
    }
}

/// The ordinary content that the data of an event carries.
pub open spec fn event_fragment(event: Result<String, OapiError>) -> Seq<char> {
    match event {
        Ok(d) => match json_parse_of(d@) {
            Ok(v) => json_fragment(v),
            Err(_) => Seq::empty(),
        },
        Err(_) => Seq::empty(),
    }
}

/// The reply that a run of events carries: their fragments, in order.
pub open spec fn reply_of(events: Seq<Result<String, OapiError>>) -> Seq<char>
    decreases events.len(),
{
    if events.len() == 0 {
        Seq::empty()
    } else {
        reply_of(events.drop_last()) + event_fragment(events.last())
    }
}

/// Whether each chunk is the one its event's data holds.
pub open spec fn decoded_from(events: Seq<Result<String, OapiError>>, chunks: Seq<ChatCompletionChunk>) -> bool {
    &&& chunks.len() <= events.len()
    &&& forall|i: int|
        0 <= i < chunks.len() ==> events[i] is Ok && ChatCompletionChunk::text_decodes_to(
            events[i]->Ok_0@,
            #[trigger] chunks[i],
        )
}

proof fn lemma_reply_prefix(
    events: Seq<Result<String, OapiError>>,
    chunks: Seq<ChatCompletionChunk>,
    k: int,
)
    requires
        0 <= k <= chunks.len(),
        decoded_from(events, chunks),
    ensures
        spelled_message(chunks.subrange(0, k)) == reply_of(events.subrange(0, k)),
    decreases k,
{
    if k == 0 {
        assert(chunks.subrange(0, 0) =~= Seq::<ChatCompletionChunk>::empty());
        assert(events.subrange(0, 0) =~= Seq::<Result<String, OapiError>>::empty());
    } else {
        lemma_reply_prefix(events, chunks, k - 1);
        assert(chunks.subrange(0, k).drop_last() =~= chunks.subrange(0, k - 1));
        assert(events.subrange(0, k).drop_last() =~= events.subrange(0, k - 1));
        let c = chunks[k - 1];
        assert(ChatCompletionChunk::text_decodes_to(events[k - 1]->Ok_0@, c));
        lemma_fragment_of_document(json_parse_of(events[k - 1]->Ok_0@)->Ok_0, c);
    }
}

/// A reply streamed as `n` chunk events and then `[DONE]`: the consumer gets
/// exactly `n` chunks, each decoded from its event in order, and the content
/// they spell out is the reply that the events carry.
pub proof fn lemma_streamed_reply(
    policy: ChunkErrorPolicy,
    events: Seq<Result<String, OapiError>>,
    n: int,
    items: Seq<Result<ChatCompletionChunk, OapiError>>,
)
    requires
        0 <= n < events.len(),
        forall|i: int| 0 <= i < n ==> is_chunk_event(#[trigger] events[i]),
        events[n] is Ok,
        is_done_marker(events[n]->Ok_0@),
        items.len() == emitted(StreamState::Streaming, policy, events).len(),
        forall|i: int|
            0 <= i < items.len() ==> item_fits(
                emitted(StreamState::Streaming, policy, events)[i],
                #[trigger] items[i],
            ),
    ensures
        items.len() == n,
        forall|i: int| 0 <= i < n ==> (#[trigger] items[i]) is Ok,
        spelled_message(items.map_values(|x: Result<ChatCompletionChunk, OapiError>| x->Ok_0))
            == reply_of(events.subrange(0, n)),
{
    lemma_sentinel_termination(policy, events, n);
    let chunks = items.map_values(|x: Result<ChatCompletionChunk, OapiError>| x->Ok_0);
    assert forall|i: int| 0 <= i < n implies (#[trigger] items[i]) is Ok by {
        assert(is_chunk_event(events[i]));
        assert(item_fits(events[i], items[i]));
    }
    assert forall|i: int|
        0 <= i < chunks.len() implies events[i] is Ok && ChatCompletionChunk::text_decodes_to(
        events[i]->Ok_0@,
        #[trigger] chunks[i],
    ) by {
        assert(is_chunk_event(events[i]));
        assert(item_fits(events[i], items[i]));
    }
    assert(decoded_from(events, chunks));
    lemma_reply_prefix(events, chunks, n);
    assert(chunks.subrange(0, n) =~= chunks);
}

/// The consumer's side of one streamed response.
#[derive(Debug)]
pub struct ChunkStream {
    state: StreamState,
    policy: ChunkErrorPolicy,
}

impl ChunkStream {
    pub closed spec fn spec_state(&self) -> StreamState {
        self.state
    }

    pub closed spec fn spec_policy(&self) -> ChunkErrorPolicy {
        self.policy
    }

    /// A stream that has received nothing yet.
    pub fn new(policy: ChunkErrorPolicy) -> (r: ChunkStream)
        ensures
            r.spec_state() == StreamState::Streaming,
            r.spec_policy() == policy,
    {
        ChunkStream { state: StreamState::Streaming, policy }
    }

    pub fn state(&self) -> (r: StreamState)
        ensures
            r == self.spec_state(),
    {
        self.state
    }

    pub fn policy(&self) -> (r: ChunkErrorPolicy)
        ensures
            r == self.spec_policy(),
    {
        self.policy
    }

    /// Whether no further item can come, so the connection may be released.
    pub fn is_finished(&self) -> (r: bool)
        ensures
            r == (self.spec_state() != StreamState::Streaming),
    {
        self.state != StreamState::Streaming
    }

    /// Takes the next event of the byte stream (`None` once it has ended) and
    /// returns the item it yields, if any.
    pub fn next_item(&mut self, event: Option<Result<String, OapiError>>) -> (r: Option<
        Result<ChatCompletionChunk, OapiError>,
    >)
        ensures
            final(self).spec_policy() == old(self).spec_policy(),
            final(self).spec_state() == next_state(old(self).spec_state(), old(self).spec_policy(), event),
            r is Some <==> (event is Some && emits(old(self).spec_state(), event->0)),
            r is Some ==> item_fits(event->0, r->0),
    {
        if self.state != StreamState::Streaming {
            return None;
        }
        match event {
            None => {
                self.state = StreamState::Done;
                None
            },
            Some(Err(e)) => {
                self.state = StreamState::Failed;
                Some(Err(e))
            },
            Some(Ok(data)) => {
                if same_text(data.as_str(), "[DONE]") {
                    self.state = StreamState::Done;
                    None
                } else {
                    let item = ChatCompletionChunk::parse_string(data.as_str());
                    if item.is_err() && self.policy == ChunkErrorPolicy::Stop {
                        self.state = StreamState::Failed;
                    }
                    Some(item)
                }
            },
        }
    }
}

/// What the streaming path makes of the status of the response: a stream
/// that has received nothing yet for a 2xx status, else an error that
/// carries the status.
pub fn open_stream(status: u16, policy: ChunkErrorPolicy) -> (r: Result<ChunkStream, OapiError>)
    ensures
        r is Ok <==> status_accepted(status, true),
        r is Ok ==> r->Ok_0.spec_state() == StreamState::Streaming && r->Ok_0.spec_policy() == policy,
        r is Err ==> r->Err_0 == OapiError::ResponseStatus(status),
{
    match check_status(status, true) {
        Ok(()) => Ok(ChunkStream::new(policy)),
        Err(e) => Err(e),
    }
}

/// Runs a finite stream of events through a fresh [`ChunkStream`] and returns
/// every item it yields, in order.
pub fn collect_chunks(events: Vec<Result<String, OapiError>>, policy: ChunkErrorPolicy) -> (r: Vec<
    Result<ChatCompletionChunk, OapiError>,
>)
    ensures
        r@.len() == emitted(StreamState::Streaming, policy, events@).len(),
        forall|i: int|
            0 <= i < r@.len() ==> item_fits(
                emitted(StreamState::Streaming, policy, events@)[i],
                #[trigger] r@[i],
            ),
{
    let ghost all = events@;
    let mut events = events;
    let mut stream = ChunkStream::new(policy);
    let mut out: Vec<Result<ChatCompletionChunk, OapiError>> = Vec::new();
    let ghost mut taken: Seq<Result<String, OapiError>> = Seq::empty();
    while events.len() > 0 && !stream.is_finished()
        invariant
            stream.spec_policy() == policy,
            emitted(StreamState::Streaming, policy, all) == taken + emitted(
                stream.spec_state(),
                policy,
                events@,
            ),
            out@.len() == taken.len(),
            forall|i: int| 0 <= i < out@.len() ==> item_fits(taken[i], #[trigger] out@[i]),
        decreases events@.len(),
    {
        let ghost before = events@;
        let ghost s = stream.spec_state();
        let event = events.remove(0);
        proof {
            assert(before.drop_first() =~= events@);
        }
        let item = stream.next_item(Some(event));
        match item {
            Some(x) => {
                proof {
                    assert(taken + emitted(s, policy, before) =~= (taken + seq![event]) + emitted(
                        stream.spec_state(),
                        policy,
                        events@,
                    ));
                    taken = taken + seq![event];
                }
                out.push(x);
            },
            None => {},
        }
    }
    proof {
        assert(emitted(stream.spec_state(), policy, events@) =~= Seq::empty());
        assert(taken + Seq::<Result<String, OapiError>>::empty() =~= taken);
    }
    out
}

} // verus!
