//! The outward-facing parser: the callback registry, the driver that feeds
//! bytes to the machine, and the delivery of events to registered slots.
//!
//! A registered callback either accepts every event of its slot or rejects
//! every one; rejecting models a consumer that reports failure, which stops
//! parsing at that exact point with [`ParseError::CallbackError`].  Events
//! whose slot holds no callback are discarded, as an absent callback has
//! nothing to observe.

use vstd::prelude::*;
use crate::event::DataCallbacks;
use crate::event::Event;
use crate::event::EventV;
use crate::event::NotifyCallbacks;
use crate::event::ParseError;
use crate::event::views;
use crate::machine::Machine;
use crate::machine::MachineV;
use crate::machine::ParseState;
use crate::machine::init_machine;
use crate::machine::spec_advance;

verus! {

broadcast use crate::event::lemma_views_push, crate::event::lemma_views_empty,
    crate::event::lemma_seq_add_empty, crate::event::lemma_seq_empty_add,
    crate::event::lemma_seq_add_push;

/// The eight callback slots.  `Some(true)` is a registered callback that
/// reports success, `Some(false)` one that reports failure, `None` an empty
/// slot.
#[derive(Clone, Copy)]
pub struct HttpParserCallbacks {
    pub on_message_begin: Option<bool>,
    pub on_url: Option<bool>,
    pub on_status: Option<bool>,
    pub on_header_field: Option<bool>,
    pub on_header_value: Option<bool>,
    pub on_headers_complete: Option<bool>,
    pub on_body: Option<bool>,
    pub on_message_complete: Option<bool>,
}

/// A registry with every slot empty.
pub open spec fn empty_callbacks() -> HttpParserCallbacks {
    HttpParserCallbacks {
        on_message_begin: Option::None,
        on_url: Option::None,
        on_status: Option::None,
        on_header_field: Option::None,
        on_header_value: Option::None,
        on_headers_complete: Option::None,
        on_body: Option::None,
        on_message_complete: Option::None,
    }
}

pub open spec fn notify_slot(cbs: HttpParserCallbacks, cb: NotifyCallbacks) -> Option<bool> {
    match cb {
        NotifyCallbacks::OnMessageBegin => cbs.on_message_begin,
        NotifyCallbacks::OnHeadersComplete => cbs.on_headers_complete,
        NotifyCallbacks::OnMessageComplete => cbs.on_message_complete,
    }
}

pub open spec fn data_slot(cbs: HttpParserCallbacks, cb: DataCallbacks) -> Option<bool> {
    match cb {
        DataCallbacks::OnUrl => cbs.on_url,
        DataCallbacks::OnStatus => cbs.on_status,
        DataCallbacks::OnHeaderField => cbs.on_header_field,
        DataCallbacks::OnHeaderValue => cbs.on_header_value,
        DataCallbacks::OnBody => cbs.on_body,
    }
}

pub open spec fn set_notify(
    cbs: HttpParserCallbacks,
    cb: NotifyCallbacks,
    ok: bool,
) -> HttpParserCallbacks {
    match cb {
        NotifyCallbacks::OnMessageBegin => HttpParserCallbacks {
            on_message_begin: Option::Some(ok),
            ..cbs
        },
        NotifyCallbacks::OnHeadersComplete => HttpParserCallbacks {
            on_headers_complete: Option::Some(ok),
            ..cbs
        },
        NotifyCallbacks::OnMessageComplete => HttpParserCallbacks {
            on_message_complete: Option::Some(ok),
            ..cbs
        },
    }
}

pub open spec fn set_data(
    cbs: HttpParserCallbacks,
    cb: DataCallbacks,
    ok: bool,
) -> HttpParserCallbacks {
    match cb {
        DataCallbacks::OnUrl => HttpParserCallbacks { on_url: Option::Some(ok), ..cbs },
        DataCallbacks::OnStatus => HttpParserCallbacks { on_status: Option::Some(ok), ..cbs },
        DataCallbacks::OnHeaderField => HttpParserCallbacks {
            on_header_field: Option::Some(ok),
            ..cbs
        },
        DataCallbacks::OnHeaderValue => HttpParserCallbacks {
            on_header_value: Option::Some(ok),
            ..cbs
        },
        DataCallbacks::OnBody => HttpParserCallbacks { on_body: Option::Some(ok), ..cbs },
    }
}

/// The slot an event is dispatched to.
pub open spec fn slot_of(cbs: HttpParserCallbacks, ev: EventV) -> Option<bool> {
    match ev {
        EventV::MessageBegin => cbs.on_message_begin,
        EventV::Url(_) => cbs.on_url,
        EventV::Status(_) => cbs.on_status,
        EventV::HeaderField(_) => cbs.on_header_field,
        EventV::HeaderValue(_) => cbs.on_header_value,
        EventV::HeadersComplete => cbs.on_headers_complete,
        EventV::Body(_) => cbs.on_body,
        EventV::MessageComplete => cbs.on_message_complete,
    }
}

impl HttpParserCallbacks {
    /// An empty registry.
    pub fn new() -> (r: HttpParserCallbacks)
        ensures
            r == empty_callbacks(),
    {
        HttpParserCallbacks {
            on_message_begin: Option::None,
            on_url: Option::None,
            on_status: Option::None,
            on_header_field: Option::None,
            on_header_value: Option::None,
            on_headers_complete: Option::None,
            on_body: Option::None,
            on_message_complete: Option::None,
        }
    }

    /// Install a notify callback whose fixed answer is `ok`.
    pub fn set_notify_cb(&mut self, cb: NotifyCallbacks, ok: bool)
        ensures
            *final(self) == set_notify(*old(self), cb, ok),
    {
        match cb {
            NotifyCallbacks::OnMessageBegin => {
                self.on_message_begin = Option::Some(ok);
            },
            NotifyCallbacks::OnHeadersComplete => {
                self.on_headers_complete = Option::Some(ok);
            },
            NotifyCallbacks::OnMessageComplete => {
                self.on_message_complete = Option::Some(ok);
            },
        }
    }

    /// Consult a notify slot: `None` when no callback is installed, else the
    /// installed callback's answer.
    pub fn call_notify_cb(&self, cb: NotifyCallbacks) -> (r: Option<bool>)
        ensures
            r == notify_slot(*self, cb),
    {
        match cb {
            NotifyCallbacks::OnMessageBegin => self.on_message_begin,
            NotifyCallbacks::OnHeadersComplete => self.on_headers_complete,
            NotifyCallbacks::OnMessageComplete => self.on_message_complete,
        }
    }

    /// Install a data callback whose fixed answer is `ok`.
    pub fn set_data_cb(&mut self, cb: DataCallbacks, ok: bool)
        ensures
            *final(self) == set_data(*old(self), cb, ok),
    {
        match cb {
            DataCallbacks::OnUrl => {
                self.on_url = Option::Some(ok);
            },
            DataCallbacks::OnStatus => {
                self.on_status = Option::Some(ok);
            },
            DataCallbacks::OnHeaderField => {
                self.on_header_field = Option::Some(ok);
            },
            DataCallbacks::OnHeaderValue => {
                self.on_header_value = Option::Some(ok);
            },
            DataCallbacks::OnBody => {
                self.on_body = Option::Some(ok);
            },
        }
    }

    /// Consult a data slot, as [`Self::call_notify_cb`] does.
    pub fn call_data_cb(&self, cb: DataCallbacks) -> (r: Option<bool>)
        ensures
            r == data_slot(*self, cb),
    {
        match cb {
            DataCallbacks::OnUrl => self.on_url,
            DataCallbacks::OnStatus => self.on_status,
            DataCallbacks::OnHeaderField => self.on_header_field,
            DataCallbacks::OnHeaderValue => self.on_header_value,
            DataCallbacks::OnBody => self.on_body,
        }
    }
}

/// The mathematical state of a whole parser: the machine, the registry, the
/// events delivered so far, and the terminal error if one occurred.
#[verifier::ext_equal]
pub struct ParserV {
    pub m: MachineV,
    pub cbs: HttpParserCallbacks,
    pub events: Seq<EventV>,
    pub error: Option<ParseError>,
}

/// Dispatch one event: an empty slot discards it, an accepting callback
/// records it, a rejecting callback stops the parser with `CallbackError`.
pub open spec fn deliver_one(p: ParserV, ev: EventV) -> ParserV {
    if p.error is Some {
        p
    } else {
        match slot_of(p.cbs, ev) {
            Option::None => p,
            Option::Some(ok) => if ok {
                ParserV { events: p.events.push(ev), ..p }
            } else {
                ParserV { error: Option::Some(ParseError::CallbackError), ..p }
            },
        }
    }
}

/// Dispatch a sequence of events in order.
pub open spec fn deliver_all(p: ParserV, evs: Seq<EventV>) -> ParserV
    decreases evs.len(),
{
    if evs.len() == 0 {
        p
    } else {
        deliver_all(deliver_one(p, evs[0]), evs.drop_first())
    }
}

/// Delivery never touches the machine or the registry: only the recorded
/// events and the error can change.
pub proof fn lemma_deliver_all_frame(p: ParserV, evs: Seq<EventV>)
    ensures
        deliver_all(p, evs).m == p.m,
        deliver_all(p, evs).cbs == p.cbs,
    decreases evs.len(),
{
    if evs.len() > 0 {
        lemma_deliver_all_frame(deliver_one(p, evs[0]), evs.drop_first());
    }
}

/// One byte of input: a no-op on a failed parser, else one machine
/// transition, delivery of its events, and the syntax-error check.
pub open spec fn feed_byte(p: ParserV, b: u8) -> ParserV {
    if p.error is Some {
        p
    } else {
        let r = spec_advance(p.m, b);
        let p1 = deliver_all(ParserV { m: r.0, ..p }, r.1);
        if p1.error is None && r.0.state == ParseState::Error {
            ParserV { error: Option::Some(ParseError::SyntaxError), ..p1 }
        } else {
            p1
        }
    }
}

/// A whole input slice, byte by byte.
pub open spec fn feed(p: ParserV, input: Seq<u8>) -> ParserV
    decreases input.len(),
{
    if input.len() == 0 {
        p
    } else {
        feed(feed_byte(p, input[0]), input.drop_first())
    }
}

/// End of stream: completes a read-until-close body, is harmless before a
/// message began or after one completed, and is `PrematureEof` anywhere
/// else.
pub open spec fn feed_eof(p: ParserV) -> ParserV {
    if p.error is Some {
        p
    } else if !p.m.started {
        p
    } else if p.m.state == ParseState::Done {
        p
    } else if p.m.state == ParseState::BodyIdentityEof {
        let evs: Seq<EventV> = if p.m.acc_body.len() > 0 {
            seq![EventV::Body(p.m.acc_body), EventV::MessageComplete]
        } else {
            seq![EventV::MessageComplete]
        };
        deliver_all(
            ParserV { m: MachineV { state: ParseState::Done, acc_body: seq![], ..p.m }, ..p },
            evs,
        )
    } else {
        ParserV { error: Option::Some(ParseError::PrematureEof), ..p }
    }
}

/// What one `process` call does.
pub open spec fn spec_process(p: ParserV, input: Seq<u8>, is_eof: bool) -> ParserV {
    if is_eof {
        feed_eof(feed(p, input))
    } else {
        feed(p, input)
    }
}

/// A fresh parser.
pub open spec fn init_parser(is_request: bool) -> ParserV {
    ParserV {
        m: init_machine(is_request),
        cbs: empty_callbacks(),
        events: seq![],
        error: Option::None,
    }
}

/// Feeding one more byte is one more application of [`feed_byte`].
pub proof fn lemma_feed_snoc(p: ParserV, s: Seq<u8>, b: u8)
    ensures
        feed(p, s.push(b)) == feed_byte(feed(p, s), b),
    decreases s.len(),
{
    if s.len() == 0 {
        assert(s.push(b).drop_first() =~= Seq::<u8>::empty());
        assert(s.push(b)[0] == b);
        assert(feed(p, s.push(b)) == feed(feed_byte(p, b), s.push(b).drop_first()));
        assert(feed(feed_byte(p, b), s.push(b).drop_first()) == feed_byte(p, b));
        assert(feed(p, s) == p);
    } else {
        assert(s.push(b)[0] == s[0]);
        assert(s.push(b).drop_first() =~= s.drop_first().push(b));
        assert(feed(p, s.push(b)) == feed(feed_byte(p, s[0]), s.drop_first().push(b)));
        assert(feed(p, s) == feed(feed_byte(p, s[0]), s.drop_first()));
        lemma_feed_snoc(feed_byte(p, s[0]), s.drop_first(), b);
    }
}

/// The incremental HTTP/1.x parser.  Construct one per message direction,
/// register callbacks, then feed bytes with [`HttpParser::process`]; the
/// events accepted by registered callbacks accumulate in order and can be
/// read back with [`HttpParser::events`].
pub struct HttpParser {
    machine: Machine,
    cbs: HttpParserCallbacks,
    events: Vec<Event>,
    error: Option<ParseError>,
}

impl View for HttpParser {
    type V = ParserV;

    closed spec fn view(&self) -> ParserV {
        ParserV {
            m: self.machine@,
            cbs: self.cbs,
            events: views(self.events@),
            error: self.error,
        }
    }
}

impl HttpParser {
    /// A fresh parser for a request (`true`) or a response (`false`).
    pub fn new(is_request: bool) -> (r: HttpParser)
        ensures
            r@ == init_parser(is_request),
    {
        let r = HttpParser {
            machine: Machine::new(is_request),
            cbs: HttpParserCallbacks::new(),
            events: Vec::new(),
            error: Option::None,
        };
        proof {
            assert(r@ =~= init_parser(is_request));
        }
        r
    }

    /// Register a notification callback with fixed answer `ok`.
    pub fn on(&mut self, cb: NotifyCallbacks, ok: bool)
        ensures
            final(self)@ == (ParserV { cbs: set_notify(old(self)@.cbs, cb, ok), ..old(self)@ }),
    {
        self.cbs.set_notify_cb(cb, ok);
    }

    /// Register a data callback with fixed answer `ok`.
    pub fn on_data(&mut self, cb: DataCallbacks, ok: bool)
        ensures
            final(self)@ == (ParserV { cbs: set_data(old(self)@.cbs, cb, ok), ..old(self)@ }),
    {
        self.cbs.set_data_cb(cb, ok);
    }

    /// The events delivered so far, in order.
    pub fn events(&self) -> (r: &Vec<Event>)
        ensures
            views(r@) == self@.events,
    {
        &self.events
    }

    /// The terminal error, if parsing has failed.
    pub fn error(&self) -> (r: Option<ParseError>)
        ensures
            r == self@.error,
    {
        self.error
    }

    /// Dispatch a batch of machine events to the registered callbacks.
    fn dispatch_events(&mut self, evs: Vec<Event>)
        ensures
            final(self)@ == deliver_all(old(self)@, views(evs@)),
    {
        let mut rest = evs;
        while rest.len() > 0
            invariant
                deliver_all(old(self)@, views(evs@)) == deliver_all(self@, views(rest@)),
            decreases rest@.len(),
        {
            let ghost prevp = self@;
            let ghost prev = rest@;
            let e = rest.remove(0);
            proof {
                assert(views(rest@) =~= views(prev).drop_first());
                assert(views(prev)[0] == e@);
            }
            if self.error.is_none() {
                let s: Option<bool> = match &e {
                    Event::MessageBegin => self.cbs.call_notify_cb(
                        NotifyCallbacks::OnMessageBegin,
                    ),
                    Event::Url(_) => self.cbs.call_data_cb(DataCallbacks::OnUrl),
                    Event::Status(_) => self.cbs.call_data_cb(DataCallbacks::OnStatus),
                    Event::HeaderField(_) => self.cbs.call_data_cb(DataCallbacks::OnHeaderField),
                    Event::HeaderValue(_) => self.cbs.call_data_cb(DataCallbacks::OnHeaderValue),
                    Event::HeadersComplete => self.cbs.call_notify_cb(
                        NotifyCallbacks::OnHeadersComplete,
                    ),
                    Event::Body(_) => self.cbs.call_data_cb(DataCallbacks::OnBody),
                    Event::MessageComplete => self.cbs.call_notify_cb(
                        NotifyCallbacks::OnMessageComplete,
                    ),
                };
                match s {
                    Option::None => {},
                    Option::Some(ok) => {
                        if ok {
                            self.events.push(e);
                        } else {
                            self.error = Option::Some(ParseError::CallbackError);
                        }
                    },
                }
            }
            proof {
                assert(self@ =~= deliver_one(prevp, views(prev)[0]));
            }
        }
    }

    /// Feed one byte: the executable [`feed_byte`].
    fn feed_one(&mut self, b: u8)
        ensures
            final(self)@ == feed_byte(old(self)@, b),
    {
        if self.error.is_some() {
            return;
        }
        let ghost r = spec_advance(old(self)@.m, b);
        let mut evs: Vec<Event> = Vec::new();
        self.machine.advance(b, &mut evs);
        let ghost pmid = self@;
        proof {
            assert(views(evs@) =~= r.1);
            assert(pmid =~= (ParserV { m: r.0, ..old(self)@ }));
        }
        self.dispatch_events(evs);
        let ghost pdel = self@;
        proof {
            lemma_deliver_all_frame(pmid, r.1);
        }
        let in_error_state = match self.machine.state {
            ParseState::Error => true,
            _ => false,
        };
        if self.error.is_none() && in_error_state {
            self.error = Option::Some(ParseError::SyntaxError);
            proof {
                assert(self@ =~= (ParserV {
                    error: Option::Some(ParseError::SyntaxError),
                    ..pdel
                }));
            }
        }
    }

    /// Signal the end of the byte stream: the executable [`feed_eof`].
    fn finish(&mut self)
        ensures
            final(self)@ == feed_eof(old(self)@),
    {
        if self.error.is_some() {
            return;
        }
        if !self.machine.started {
            return;
        }
        match self.machine.state {
            ParseState::Done => {},
            ParseState::BodyIdentityEof => {
                let ghost pv = old(self)@;
                let mut evs: Vec<Event> = Vec::new();
                let had = self.machine.acc_body.len() > 0;
                if had {
                    let mut tmp: Vec<u8> = Vec::new();
                    core::mem::swap(&mut tmp, &mut self.machine.acc_body);
                    evs.push(Event::Body(tmp));
                }
                evs.push(Event::MessageComplete);
                self.machine.state = ParseState::Done;
                proof {
                    if had {
                        assert(views(evs@) =~= seq![
                            EventV::Body(pv.m.acc_body),
                            EventV::MessageComplete,
                        ]);
                    } else {
                        assert(views(evs@) =~= seq![EventV::MessageComplete]);
                    }
                    assert(self@ =~= (ParserV {
                        m: MachineV { state: ParseState::Done, acc_body: seq![], ..pv.m },
                        ..pv
                    }));
                }
                self.dispatch_events(evs);
            },
            _ => {
                self.error = Option::Some(ParseError::PrematureEof);
            },
        }
    }

    /// Feed `data` to the parser and, when `is_eof` is set, signal that no
    /// more bytes will follow.  Returns `Ok` while the message is healthy;
    /// once any call returns an error, every later call returns that same
    /// error and delivers nothing further.
    #[verifier::rlimit(100)]
    #[verifier::spinoff_prover]
    pub fn process(&mut self, data: &[u8], is_eof: bool) -> (r: Result<(), ParseError>)
        ensures
            final(self)@ == spec_process(old(self)@, data@, is_eof),
            r == (match spec_process(old(self)@, data@, is_eof).error {
                Option::None => Result::<(), ParseError>::Ok(()),
                Option::Some(e) => Result::<(), ParseError>::Err(e),
            }),
    {
        let n = data.len();
        let mut i: usize = 0;
        while i < n
            invariant
                i <= n,
                n == data@.len(),
                self@ == feed(old(self)@, data@.take(i as int)),
            decreases n - i,
        {
            let b = data[i];
            proof {
                assert(data@.take(i as int).push(data@[i as int]) =~= data@.take(i + 1));
                lemma_feed_snoc(old(self)@, data@.take(i as int), data@[i as int]);
            }
            self.feed_one(b);
            i += 1;
        }
        proof {
            assert(data@.take(n as int) =~= data@);
        }
        if is_eof {
            self.finish();
        }
        match self.error {
            Option::None => Result::Ok(()),
            Option::Some(e) => Result::Err(e),
        }
    }
}

} // verus!
