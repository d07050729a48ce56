//! General properties of the parser, stated over the mathematical model
//! that every public method's contract is written in, and proved once for
//! all inputs.

use vstd::prelude::*;
use crate::event::EventV;
use crate::event::ParseError;
use crate::parser::ParserV;
use crate::parser::deliver_one;
use crate::parser::feed;
use crate::parser::feed_byte;
use crate::parser::feed_eof;
use crate::parser::slot_of;
use crate::parser::spec_process;

verus! {

/// Feeding a concatenation equals feeding the parts in order: the parser's
/// outcome depends only on the byte stream, never on how it was chunked.
#[verifier::rlimit(100)]
#[verifier::spinoff_prover]
pub proof fn lemma_feed_concat(p: ParserV, a: Seq<u8>, b: Seq<u8>)
    ensures
        feed(p, a + b) == feed(feed(p, a), b),
    decreases a.len(),
{
    if a.len() == 0 {
        assert(a + b =~= b);
        assert(feed(p, a) == p);
    } else {
        assert((a + b)[0] == a[0]);
        assert((a + b).drop_first() =~= a.drop_first() + b);
        assert((a + b).len() > 0);
        assert(feed(p, a + b) == feed(feed_byte(p, a[0]), a.drop_first() + b));
        assert(feed(p, a) == feed(feed_byte(p, a[0]), a.drop_first()));
        lemma_feed_concat(feed_byte(p, a[0]), a.drop_first(), b);
    }
}

/// Chunk-boundary invariance: one `process` call on the whole message and
/// two calls split at any byte boundary (the end-of-stream flag on the last
/// call) leave the parser in the same state, with the same delivered events
/// in the same order and the same error, if any.
pub proof fn lemma_process_split(p: ParserV, a: Seq<u8>, b: Seq<u8>, is_eof: bool)
    ensures
        spec_process(spec_process(p, a, false), b, is_eof) == spec_process(p, a + b, is_eof),
{
    lemma_feed_concat(p, a, b);
}

/// Every error is terminal: a failed parser ignores all further input and
/// the end-of-stream signal, delivering nothing more.
pub proof fn lemma_error_stable(p: ParserV, input: Seq<u8>)
    requires
        p.error is Some,
    ensures
        feed(p, input) == p,
        feed_eof(p) == p,
    decreases input.len(),
{
    if input.len() > 0 {
        assert(feed_byte(p, input[0]) == p);
        lemma_error_stable(p, input.drop_first());
    }
}

/// A rejecting callback aborts at its event: the error becomes
/// `CallbackError` and nothing further is delivered, not even the rejected
/// event itself.
pub proof fn lemma_reject_aborts(p: ParserV, ev: EventV)
    requires
        p.error is None,
        slot_of(p.cbs, ev) == Option::<bool>::Some(false),
    ensures
        deliver_one(p, ev).error == Option::<ParseError>::Some(ParseError::CallbackError),
        deliver_one(p, ev).events == p.events,
{
}

} // verus!
