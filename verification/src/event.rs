//! The data model of what a parser reports: the tagged events surfaced to
//! callbacks, the callback slot names, and the terminal error kinds.

use vstd::prelude::*;

verus! {

/// The callback slots that carry no payload.
#[derive(Clone, Copy, PartialEq, Eq, Structural, Debug)]
pub enum NotifyCallbacks {
    OnMessageBegin,
    OnHeadersComplete,
    OnMessageComplete,
}

/// The callback slots that carry a span of message bytes.
#[derive(Clone, Copy, PartialEq, Eq, Structural, Debug)]
pub enum DataCallbacks {
    OnUrl,
    OnStatus,
    OnHeaderField,
    OnHeaderValue,
    OnBody,
}

/// Why a parser stopped for good.  Every kind is terminal: once a parser
/// reports one, every later `process` call reports the same kind again.
#[derive(Clone, Copy, PartialEq, Eq, Structural, Debug)]
pub enum ParseError {
    /// A byte that cannot legally appear at the current grammar position.
    SyntaxError,
    /// A registered callback reported failure.
    CallbackError,
    /// The stream ended in the middle of a message.
    PrematureEof,
}

/// One parse event, in the order the message presents it.  Data events own
/// the complete span they describe: a value folded over several lines, or a
/// body collected across several `process` calls, arrives as one event.
#[derive(PartialEq, Eq, Debug)]
pub enum Event {
    MessageBegin,
    Url(Vec<u8>),
    Status(Vec<u8>),
    HeaderField(Vec<u8>),
    HeaderValue(Vec<u8>),
    HeadersComplete,
    Body(Vec<u8>),
    MessageComplete,
}

/// The mathematical shadow of an [`Event`]: the same tag over a byte
/// sequence instead of a byte vector.
#[verifier::ext_equal]
pub enum EventV {
    MessageBegin,
    Url(Seq<u8>),
    Status(Seq<u8>),
    HeaderField(Seq<u8>),
    HeaderValue(Seq<u8>),
    HeadersComplete,
    Body(Seq<u8>),
    MessageComplete,
}

impl View for Event {
    type V = EventV;

    open spec fn view(&self) -> EventV {
        match self {
            Event::MessageBegin => EventV::MessageBegin,
            Event::Url(v) => EventV::Url(v@),
            Event::Status(v) => EventV::Status(v@),
            Event::HeaderField(v) => EventV::HeaderField(v@),
            Event::HeaderValue(v) => EventV::HeaderValue(v@),
            Event::HeadersComplete => EventV::HeadersComplete,
            Event::Body(v) => EventV::Body(v@),
            Event::MessageComplete => EventV::MessageComplete,
        }
    }
}

/// The views of a sequence of events, element by element.
pub open spec fn views(s: Seq<Event>) -> Seq<EventV> {
    s.map(|i: int, e: Event| e@)
}

pub broadcast proof fn lemma_views_push(s: Seq<Event>, e: Event)
    ensures
        #[trigger] views(s.push(e)) == views(s).push(e@),
{
    assert(views(s.push(e)) =~= views(s).push(e@));
}

pub broadcast proof fn lemma_views_empty()
    ensures
        #[trigger] views(Seq::<Event>::empty()) == Seq::<EventV>::empty(),
{
    assert(views(Seq::<Event>::empty()) =~= Seq::<EventV>::empty());
}

pub broadcast proof fn lemma_seq_add_empty<A>(s: Seq<A>)
    ensures
        #[trigger] (s + Seq::<A>::empty()) == s,
{
    assert(s + Seq::<A>::empty() =~= s);
}

pub broadcast proof fn lemma_seq_empty_add<A>(s: Seq<A>)
    ensures
        #[trigger] (Seq::<A>::empty() + s) == s,
{
    assert(Seq::<A>::empty() + s =~= s);
}

pub broadcast proof fn lemma_seq_add_push<A>(s: Seq<A>, t: Seq<A>, e: A)
    ensures
        #[trigger] (s + t.push(e)) == (s + t).push(e),
{
    assert(s + t.push(e) =~= (s + t).push(e));
}

} // verus!
