//! The per-byte state machine: an explicit grammar position for every state
//! of an HTTP/1.x message, a mathematical transition function over it, and
//! the executable machine proved to follow that function byte for byte.
//!
//! The transition function is total: every state has a defined successor for
//! every byte value, with `ParseState::Error` as the explicit terminal state
//! for bytes that cannot legally appear.  A transition may request that the
//! driver re-feed the same byte under the new state (`recon`), which is how
//! the byte after a header value's line break is re-examined once folding
//! has been ruled out.

use vstd::prelude::*;
use crate::event::Event;
use crate::event::EventV;
use crate::event::views;
use crate::header::HeaderKind;
use crate::header::classify_field;
use crate::header::field_kind_of;
use crate::header::header_value_has_chunked;
use crate::header::parse_dec;
use crate::header::spec_parse_dec;
use crate::header::te_has_chunked;
use crate::util::CR;
use crate::util::HT;
use crate::util::LF;
use crate::util::SP;
use crate::util::hex_value;
use crate::util::is_alpha;
use crate::util::is_digit;
use crate::util::is_hex;
use crate::util::is_token_char;
use crate::util::spec_hex_value;

verus! {

broadcast use crate::event::lemma_views_push, crate::event::lemma_views_empty,
    crate::event::lemma_seq_add_empty, crate::event::lemma_seq_empty_add,
    crate::event::lemma_seq_add_push;

/// The largest chunk-size accumulator that can take one more hexadecimal
/// digit without overflowing a `u64`.
pub const MAX_CHUNK_PREFIX: u64 = 0x0FFF_FFFF_FFFF_FFFF;

/// One tag per grammar position.  `Resp*` tags parse the status line,
/// `Req*` tags the request line, `Header*` tags the field/value section
/// (also reused for chunked trailers), `Chunk*` and `Body*` tags the body.
#[derive(Clone, Copy, PartialEq, Eq, Structural, Debug)]
pub enum ParseState {
    RespStart,
    RespH,
    RespHT,
    RespHTT,
    RespHTTP,
    RespFirstHttpMajor,
    RespHttpMajor,
    RespFirstHttpMinor,
    RespHttpMinor,
    RespFirstStatusCode,
    RespStatusCode,
    RespStatus,
    RespLineAlmostDone,
    ReqStart,
    ReqMethod,
    ReqSpacesBeforeUrl,
    ReqSchema,
    ReqSchemaSlash,
    ReqSchemaSlashSlash,
    ReqServer,
    ReqServerWithAt,
    ReqPath,
    ReqQueryString,
    ReqFragment,
    ReqHttpStart,
    ReqH,
    ReqHT,
    ReqHTT,
    ReqHTTP,
    ReqFirstHttpMajor,
    ReqHttpMajor,
    ReqFirstHttpMinor,
    ReqHttpMinor,
    ReqLineAlmostDone,
    HeaderFieldStart,
    HeaderField,
    HeaderValueDiscardWs,
    HeaderValueDiscardWsAlmostDone,
    HeaderValueDiscardLws,
    HeaderValue,
    HeaderAlmostDone,
    HeaderValueLws,
    HeadersAlmostDone,
    ChunkSizeStart,
    ChunkSize,
    ChunkExtension,
    ChunkSizeAlmostDone,
    ChunkData,
    ChunkDataAlmostDone,
    ChunkDataDone,
    BodyIdentity,
    BodyIdentityEof,
    Done,
    Error,
}

/// The mathematical state of a machine: the grammar position, the numeric
/// accumulators, the framing facts gathered from the headers, and the open
/// spans collected so far.
#[verifier::ext_equal]
pub struct MachineV {
    pub state: ParseState,
    pub is_request: bool,
    pub started: bool,
    pub trailing: bool,
    pub hdr_kind: HeaderKind,
    pub has_content_length: bool,
    pub content_length: u64,
    pub chunked: bool,
    pub http_major: u16,
    pub http_minor: u16,
    pub status_code: u16,
    pub status_digits: u8,
    pub chunk_size: u64,
    pub body_remaining: u64,
    pub acc_url: Seq<u8>,
    pub acc_status: Seq<u8>,
    pub acc_field: Seq<u8>,
    pub acc_value: Seq<u8>,
    pub acc_body: Seq<u8>,
}

/// The outcome of one transition: the next machine, the events it emitted,
/// and whether the same byte must be re-fed.
#[verifier::ext_equal]
pub struct StepV {
    pub m: MachineV,
    pub evs: Seq<EventV>,
    pub recon: bool,
}

pub open spec fn step_to(m: MachineV, s: ParseState) -> StepV {
    StepV { m: MachineV { state: s, ..m }, evs: seq![], recon: false }
}

pub open spec fn step_stay(m: MachineV) -> StepV {
    StepV { m, evs: seq![], recon: false }
}

pub open spec fn step_err(m: MachineV) -> StepV {
    StepV { m: MachineV { state: ParseState::Error, ..m }, evs: seq![], recon: false }
}

pub open spec fn step_emit(m: MachineV, s: ParseState, evs: Seq<EventV>) -> StepV {
    StepV { m: MachineV { state: s, ..m }, evs, recon: false }
}

/// The machine a fresh parser starts in.
pub open spec fn init_machine(is_request: bool) -> MachineV {
    MachineV {
        state: if is_request {
            ParseState::ReqStart
        } else {
            ParseState::RespStart
        },
        is_request,
        started: false,
        trailing: false,
        hdr_kind: HeaderKind::Other,
        has_content_length: false,
        content_length: 0,
        chunked: false,
        http_major: 0,
        http_minor: 0,
        status_code: 0,
        status_digits: 0,
        chunk_size: 0,
        body_remaining: 0,
        acc_url: seq![],
        acc_status: seq![],
        acc_field: seq![],
        acc_value: seq![],
        acc_body: seq![],
    }
}

/// Status-line states.
pub open spec fn step_resp(m: MachineV, b: u8) -> StepV {
    match m.state {
        ParseState::RespStart => if b == CR || b == LF {
            step_stay(m)
        } else if b == 72 {
            step_to(m, ParseState::RespH)
        } else {
            step_err(m)
        },
        ParseState::RespH => if b == 84 {
            step_to(m, ParseState::RespHT)
        } else {
            step_err(m)
        },
        ParseState::RespHT => if b == 84 {
            step_to(m, ParseState::RespHTT)
        } else {
            step_err(m)
        },
        ParseState::RespHTT => if b == 80 {
            step_to(m, ParseState::RespHTTP)
        } else {
            step_err(m)
        },
        ParseState::RespHTTP => if b == 47 {
            step_to(m, ParseState::RespFirstHttpMajor)
        } else {
            step_err(m)
        },
        ParseState::RespFirstHttpMajor => if is_digit(b) {
            StepV {
                m: MachineV {
                    state: ParseState::RespHttpMajor,
                    http_major: (b - 48) as u16,
                    ..m
                },
                evs: seq![],
                recon: false,
            }
        } else {
            step_err(m)
        },
        ParseState::RespHttpMajor => if b == 46 {
            step_to(m, ParseState::RespFirstHttpMinor)
        } else if is_digit(b) {
            if m.http_major > 99 {
                step_err(m)
            } else {
                StepV {
                    m: MachineV {
                        http_major: (m.http_major as int * 10 + (b - 48) as int) as u16,
                        ..m
                    },
                    evs: seq![],
                    recon: false,
                }
            }
        } else {
            step_err(m)
        },
        ParseState::RespFirstHttpMinor => if is_digit(b) {
            StepV {
                m: MachineV {
                    state: ParseState::RespHttpMinor,
                    http_minor: (b - 48) as u16,
                    ..m
                },
                evs: seq![],
                recon: false,
            }
        } else {
            step_err(m)
        },
        ParseState::RespHttpMinor => if b == SP {
            step_to(m, ParseState::RespFirstStatusCode)
        } else if is_digit(b) {
            if m.http_minor > 99 {
                step_err(m)
            } else {
                StepV {
                    m: MachineV {
                        http_minor: (m.http_minor as int * 10 + (b - 48) as int) as u16,
                        ..m
                    },
                    evs: seq![],
                    recon: false,
                }
            }
        } else {
            step_err(m)
        },
        ParseState::RespFirstStatusCode => if is_digit(b) {
            StepV {
                m: MachineV {
                    state: ParseState::RespStatusCode,
                    status_code: (b - 48) as u16,
                    status_digits: 1,
                    ..m
                },
                evs: seq![],
                recon: false,
            }
        } else {
            step_err(m)
        },
        ParseState::RespStatusCode => if is_digit(b) {
            if m.status_digits >= 3 {
                step_err(m)
            } else {
                StepV {
                    m: MachineV {
                        status_code: (m.status_code as int * 10 + (b - 48) as int) as u16,
                        status_digits: (m.status_digits + 1) as u8,
                        ..m
                    },
                    evs: seq![],
                    recon: false,
                }
            }
        } else if m.status_digits != 3 {
            step_err(m)
        } else if b == SP {
            step_to(m, ParseState::RespStatus)
        } else if b == CR {
            step_to(m, ParseState::RespLineAlmostDone)
        } else if b == LF {
            step_to(m, ParseState::HeaderFieldStart)
        } else {
            step_err(m)
        },
        ParseState::RespStatus => if b == CR || b == LF {
            let nxt = if b == CR {
                ParseState::RespLineAlmostDone
            } else {
                ParseState::HeaderFieldStart
            };
            if m.acc_status.len() > 0 {
                step_emit(
                    MachineV { acc_status: seq![], ..m },
                    nxt,
                    seq![EventV::Status(m.acc_status)],
                )
            } else {
                step_to(m, nxt)
            }
        } else {
            StepV {
                m: MachineV { acc_status: m.acc_status.push(b), ..m },
                evs: seq![],
                recon: false,
            }
        },
        ParseState::RespLineAlmostDone => if b == LF {
            step_to(m, ParseState::HeaderFieldStart)
        } else {
            step_err(m)
        },
        _ => step_stay(m),
    }
}

/// Request-line states outside the request target.
pub open spec fn step_req(m: MachineV, b: u8) -> StepV {
    match m.state {
        ParseState::ReqStart => if b == CR || b == LF {
            step_stay(m)
        } else if is_token_char(b) {
            step_to(m, ParseState::ReqMethod)
        } else {
            step_err(m)
        },
        ParseState::ReqMethod => if is_token_char(b) {
            step_stay(m)
        } else if b == SP {
            step_to(m, ParseState::ReqSpacesBeforeUrl)
        } else {
            step_err(m)
        },
        ParseState::ReqHttpStart => if b == 72 {
            step_to(m, ParseState::ReqH)
        } else if b == SP {
            step_stay(m)
        } else {
            step_err(m)
        },
        ParseState::ReqH => if b == 84 {
            step_to(m, ParseState::ReqHT)
        } else {
            step_err(m)
        },
        ParseState::ReqHT => if b == 84 {
            step_to(m, ParseState::ReqHTT)
        } else {
            step_err(m)
        },
        ParseState::ReqHTT => if b == 80 {
            step_to(m, ParseState::ReqHTTP)
        } else {
            step_err(m)
        },
        ParseState::ReqHTTP => if b == 47 {
            step_to(m, ParseState::ReqFirstHttpMajor)
        } else {
            step_err(m)
        },
        ParseState::ReqFirstHttpMajor => if is_digit(b) {
            StepV {
                m: MachineV { state: ParseState::ReqHttpMajor, http_major: (b - 48) as u16, ..m },
                evs: seq![],
                recon: false,
            }
        } else {
            step_err(m)
        },
        ParseState::ReqHttpMajor => if b == 46 {
            step_to(m, ParseState::ReqFirstHttpMinor)
        } else if is_digit(b) {
            if m.http_major > 99 {
                step_err(m)
            } else {
                StepV {
                    m: MachineV {
                        http_major: (m.http_major as int * 10 + (b - 48) as int) as u16,
                        ..m
                    },
                    evs: seq![],
                    recon: false,
                }
            }
        } else {
            step_err(m)
        },
        ParseState::ReqFirstHttpMinor => if is_digit(b) {
            StepV {
                m: MachineV { state: ParseState::ReqHttpMinor, http_minor: (b - 48) as u16, ..m },
                evs: seq![],
                recon: false,
            }
        } else {
            step_err(m)
        },
        ParseState::ReqHttpMinor => if b == CR {
            step_to(m, ParseState::ReqLineAlmostDone)
        } else if b == LF {
            step_to(m, ParseState::HeaderFieldStart)
        } else if is_digit(b) {
            if m.http_minor > 99 {
                step_err(m)
            } else {
                StepV {
                    m: MachineV {
                        http_minor: (m.http_minor as int * 10 + (b - 48) as int) as u16,
                        ..m
                    },
                    evs: seq![],
                    recon: false,
                }
            }
        } else {
            step_err(m)
        },
        ParseState::ReqLineAlmostDone => if b == LF {
            step_to(m, ParseState::HeaderFieldStart)
        } else {
            step_err(m)
        },
        _ => step_stay(m),
    }
}

/// Push one more byte of the request target and move to `s`.
pub open spec fn url_char(m: MachineV, b: u8, s: ParseState) -> StepV {
    StepV {
        m: MachineV { state: s, acc_url: m.acc_url.push(b), ..m },
        evs: seq![],
        recon: false,
    }
}

/// The space after the request target closes the URL span.
pub open spec fn url_end(m: MachineV) -> StepV {
    step_emit(
        MachineV { acc_url: seq![], ..m },
        ParseState::ReqHttpStart,
        seq![EventV::Url(m.acc_url)],
    )
}

/// Request-target states.  The target is parsed permissively: any byte other
/// than space, CR and LF is captured; the sub-states only special-case the
/// `scheme://` shape, the `@` of userinfo, and the `?`/`#` separators.
pub open spec fn step_url(m: MachineV, b: u8) -> StepV {
    match m.state {
        ParseState::ReqSpacesBeforeUrl => if b == SP {
            step_stay(m)
        } else if b == CR || b == LF {
            step_err(m)
        } else if b == 47 || b == 42 {
            url_char(m, b, ParseState::ReqPath)
        } else if is_alpha(b) {
            url_char(m, b, ParseState::ReqSchema)
        } else {
            step_err(m)
        },
        ParseState::ReqSchema => if b == SP {
            url_end(m)
        } else if b == CR || b == LF {
            step_err(m)
        } else if b == 58 {
            url_char(m, b, ParseState::ReqSchemaSlash)
        } else {
            url_char(m, b, ParseState::ReqSchema)
        },
        ParseState::ReqSchemaSlash => if b == SP {
            url_end(m)
        } else if b == CR || b == LF {
            step_err(m)
        } else if b == 47 {
            url_char(m, b, ParseState::ReqSchemaSlashSlash)
        } else {
            url_char(m, b, ParseState::ReqPath)
        },
        ParseState::ReqSchemaSlashSlash => if b == SP {
            url_end(m)
        } else if b == CR || b == LF {
            step_err(m)
        } else if b == 47 {
            url_char(m, b, ParseState::ReqPath)
        } else if b == 64 {
            url_char(m, b, ParseState::ReqServerWithAt)
        } else {
            url_char(m, b, ParseState::ReqServer)
        },
        ParseState::ReqServer => if b == SP {
            url_end(m)
        } else if b == CR || b == LF {
            step_err(m)
        } else if b == 47 {
            url_char(m, b, ParseState::ReqPath)
        } else if b == 63 {
            url_char(m, b, ParseState::ReqQueryString)
        } else if b == 64 {
            url_char(m, b, ParseState::ReqServerWithAt)
        } else {
            url_char(m, b, ParseState::ReqServer)
        },
        ParseState::ReqServerWithAt => if b == SP {
            url_end(m)
        } else if b == CR || b == LF {
            step_err(m)
        } else if b == 64 {
            step_err(m)
        } else if b == 47 {
            url_char(m, b, ParseState::ReqPath)
        } else if b == 63 {
            url_char(m, b, ParseState::ReqQueryString)
        } else {
            url_char(m, b, ParseState::ReqServerWithAt)
        },
        ParseState::ReqPath => if b == SP {
            url_end(m)
        } else if b == CR || b == LF {
            step_err(m)
        } else if b == 63 {
            url_char(m, b, ParseState::ReqQueryString)
        } else if b == 35 {
            url_char(m, b, ParseState::ReqFragment)
        } else {
            url_char(m, b, ParseState::ReqPath)
        },
        ParseState::ReqQueryString => if b == SP {
            url_end(m)
        } else if b == CR || b == LF {
            step_err(m)
        } else if b == 35 {
            url_char(m, b, ParseState::ReqFragment)
        } else {
            url_char(m, b, ParseState::ReqQueryString)
        },
        ParseState::ReqFragment => if b == SP {
            url_end(m)
        } else if b == CR || b == LF {
            step_err(m)
        } else {
            url_char(m, b, ParseState::ReqFragment)
        },
        _ => step_stay(m),
    }
}

/// The empty line after the headers (or after the chunked trailers): fire
/// the completion events and pick the body framing.  Chunked framing wins
/// over a `Content-Length`; a request without either has no body, while a
/// response without either reads until the connection closes.
pub open spec fn headers_done(m: MachineV) -> StepV {
    if m.trailing {
        step_emit(m, ParseState::Done, seq![EventV::MessageComplete])
    } else if m.chunked {
        step_emit(m, ParseState::ChunkSizeStart, seq![EventV::HeadersComplete])
    } else if m.has_content_length {
        if m.content_length == 0 {
            step_emit(
                m,
                ParseState::Done,
                seq![EventV::HeadersComplete, EventV::MessageComplete],
            )
        } else {
            StepV {
                m: MachineV {
                    state: ParseState::BodyIdentity,
                    body_remaining: m.content_length,
                    ..m
                },
                evs: seq![EventV::HeadersComplete],
                recon: false,
            }
        }
    } else if m.is_request {
        step_emit(m, ParseState::Done, seq![EventV::HeadersComplete, EventV::MessageComplete])
    } else {
        step_emit(m, ParseState::BodyIdentityEof, seq![EventV::HeadersComplete])
    }
}

/// A header value is complete: interpret it if the field was
/// `Content-Length` (which must be a valid number, consistent with any
/// earlier one) or `Transfer-Encoding` (which may name `chunked`), emit it,
/// and re-feed the byte that ended it at the start of the next field.
pub open spec fn finish_value(m: MachineV) -> StepV {
    if !m.trailing && m.hdr_kind == HeaderKind::ContentLength {
        match spec_parse_dec(m.acc_value) {
            Option::None => step_err(m),
            Option::Some(n) => if m.has_content_length && m.content_length != n {
                step_err(m)
            } else {
                value_emitted(
                    MachineV { has_content_length: true, content_length: n, ..m },
                )
            },
        }
    } else if !m.trailing && m.hdr_kind == HeaderKind::TransferEncoding {
        value_emitted(MachineV { chunked: m.chunked || te_has_chunked(m.acc_value), ..m })
    } else {
        value_emitted(m)
    }
}

pub open spec fn value_emitted(m: MachineV) -> StepV {
    StepV {
        m: MachineV {
            state: ParseState::HeaderFieldStart,
            acc_value: seq![],
            hdr_kind: HeaderKind::Other,
            ..m
        },
        evs: seq![EventV::HeaderValue(m.acc_value)],
        recon: true,
    }
}

/// Header-section states, also reused for chunked trailers.
pub open spec fn step_headers(m: MachineV, b: u8) -> StepV {
    match m.state {
        ParseState::HeaderFieldStart => if b == CR {
            step_to(m, ParseState::HeadersAlmostDone)
        } else if b == LF {
            headers_done(m)
        } else if is_token_char(b) {
            StepV {
                m: MachineV {
                    state: ParseState::HeaderField,
                    acc_field: m.acc_field.push(b),
                    ..m
                },
                evs: seq![],
                recon: false,
            }
        } else {
            step_err(m)
        },
        ParseState::HeaderField => if is_token_char(b) {
            StepV {
                m: MachineV { acc_field: m.acc_field.push(b), ..m },
                evs: seq![],
                recon: false,
            }
        } else if b == 58 {
            StepV {
                m: MachineV {
                    state: ParseState::HeaderValueDiscardWs,
                    acc_field: seq![],
                    hdr_kind: field_kind_of(m.acc_field),
                    ..m
                },
                evs: seq![EventV::HeaderField(m.acc_field)],
                recon: false,
            }
        } else {
            step_err(m)
        },
        ParseState::HeaderValueDiscardWs => if b == SP || b == HT {
            step_stay(m)
        } else if b == CR {
            step_to(m, ParseState::HeaderValueDiscardWsAlmostDone)
        } else if b == LF {
            step_to(m, ParseState::HeaderValueDiscardLws)
        } else {
            StepV {
                m: MachineV {
                    state: ParseState::HeaderValue,
                    acc_value: m.acc_value.push(b),
                    ..m
                },
                evs: seq![],
                recon: false,
            }
        },
        ParseState::HeaderValueDiscardWsAlmostDone => if b == LF {
            step_to(m, ParseState::HeaderValueDiscardLws)
        } else {
            step_err(m)
        },
        ParseState::HeaderValueDiscardLws => if b == SP || b == HT {
            StepV {
                m: MachineV {
                    state: ParseState::HeaderValue,
                    acc_value: m.acc_value.push(b),
                    ..m
                },
                evs: seq![],
                recon: false,
            }
        } else {
            finish_value(m)
        },
        ParseState::HeaderValue => if b == CR {
            step_to(m, ParseState::HeaderAlmostDone)
        } else if b == LF {
            step_to(m, ParseState::HeaderValueLws)
        } else {
            StepV {
                m: MachineV { acc_value: m.acc_value.push(b), ..m },
                evs: seq![],
                recon: false,
            }
        },
        ParseState::HeaderAlmostDone => if b == LF {
            step_to(m, ParseState::HeaderValueLws)
        } else {
            step_err(m)
        },
        ParseState::HeaderValueLws => if b == SP || b == HT {
            StepV {
                m: MachineV {
                    state: ParseState::HeaderValue,
                    acc_value: m.acc_value.push(b),
                    ..m
                },
                evs: seq![],
                recon: false,
            }
        } else {
            finish_value(m)
        },
        ParseState::HeadersAlmostDone => if b == LF {
            headers_done(m)
        } else {
            step_err(m)
        },
        _ => step_stay(m),
    }
}

/// A complete chunk-size line: a zero size opens the trailer section, any
/// other size opens the chunk's data.
pub open spec fn chunk_size_done(m: MachineV) -> StepV {
    if m.chunk_size == 0 {
        StepV {
            m: MachineV { state: ParseState::HeaderFieldStart, trailing: true, ..m },
            evs: seq![],
            recon: false,
        }
    } else {
        StepV {
            m: MachineV { state: ParseState::ChunkData, body_remaining: m.chunk_size, ..m },
            evs: seq![],
            recon: false,
        }
    }
}

/// Chunked-framing states.
pub open spec fn step_chunk(m: MachineV, b: u8) -> StepV {
    match m.state {
        ParseState::ChunkSizeStart => if is_hex(b) {
            StepV {
                m: MachineV {
                    state: ParseState::ChunkSize,
                    chunk_size: spec_hex_value(b) as u64,
                    ..m
                },
                evs: seq![],
                recon: false,
            }
        } else {
            step_err(m)
        },
        ParseState::ChunkSize => if is_hex(b) {
            if m.chunk_size > MAX_CHUNK_PREFIX {
                step_err(m)
            } else {
                StepV {
                    m: MachineV {
                        chunk_size: (m.chunk_size as int * 16 + spec_hex_value(b) as int) as u64,
                        ..m
                    },
                    evs: seq![],
                    recon: false,
                }
            }
        } else if b == 59 {
            step_to(m, ParseState::ChunkExtension)
        } else if b == CR {
            step_to(m, ParseState::ChunkSizeAlmostDone)
        } else if b == LF {
            chunk_size_done(m)
        } else {
            step_err(m)
        },
        ParseState::ChunkExtension => if b == CR {
            step_to(m, ParseState::ChunkSizeAlmostDone)
        } else if b == LF {
            chunk_size_done(m)
        } else {
            step_stay(m)
        },
        ParseState::ChunkSizeAlmostDone => if b == LF {
            chunk_size_done(m)
        } else {
            step_err(m)
        },
        ParseState::ChunkData => if m.body_remaining <= 1 {
            step_emit(
                MachineV { acc_body: seq![], body_remaining: 0, ..m },
                ParseState::ChunkDataAlmostDone,
                seq![EventV::Body(m.acc_body.push(b))],
            )
        } else {
            StepV {
                m: MachineV {
                    acc_body: m.acc_body.push(b),
                    body_remaining: (m.body_remaining - 1) as u64,
                    ..m
                },
                evs: seq![],
                recon: false,
            }
        },
        ParseState::ChunkDataAlmostDone => if b == CR {
            step_to(m, ParseState::ChunkDataDone)
        } else if b == LF {
            step_to(m, ParseState::ChunkSizeStart)
        } else {
            step_err(m)
        },
        ParseState::ChunkDataDone => if b == LF {
            step_to(m, ParseState::ChunkSizeStart)
        } else {
            step_err(m)
        },
        _ => step_stay(m),
    }
}

/// Fixed-length and read-until-close body states, plus the terminal states.
pub open spec fn step_body(m: MachineV, b: u8) -> StepV {
    match m.state {
        ParseState::BodyIdentity => if m.body_remaining <= 1 {
            step_emit(
                MachineV { acc_body: seq![], body_remaining: 0, ..m },
                ParseState::Done,
                seq![EventV::Body(m.acc_body.push(b)), EventV::MessageComplete],
            )
        } else {
            StepV {
                m: MachineV {
                    acc_body: m.acc_body.push(b),
                    body_remaining: (m.body_remaining - 1) as u64,
                    ..m
                },
                evs: seq![],
                recon: false,
            }
        },
        ParseState::BodyIdentityEof => StepV {
            m: MachineV { acc_body: m.acc_body.push(b), ..m },
            evs: seq![],
            recon: false,
        },
        ParseState::Done => step_err(m),
        ParseState::Error => step_stay(m),
        _ => step_stay(m),
    }
}

/// One transition of the machine on one byte.
pub open spec fn spec_step(m: MachineV, b: u8) -> StepV {
    match m.state {
        ParseState::RespStart | ParseState::RespH | ParseState::RespHT | ParseState::RespHTT
            | ParseState::RespHTTP | ParseState::RespFirstHttpMajor | ParseState::RespHttpMajor
            | ParseState::RespFirstHttpMinor | ParseState::RespHttpMinor
            | ParseState::RespFirstStatusCode | ParseState::RespStatusCode
            | ParseState::RespStatus | ParseState::RespLineAlmostDone => step_resp(m, b),
        ParseState::ReqStart | ParseState::ReqMethod | ParseState::ReqHttpStart
            | ParseState::ReqH | ParseState::ReqHT | ParseState::ReqHTT | ParseState::ReqHTTP
            | ParseState::ReqFirstHttpMajor | ParseState::ReqHttpMajor
            | ParseState::ReqFirstHttpMinor | ParseState::ReqHttpMinor
            | ParseState::ReqLineAlmostDone => step_req(m, b),
        ParseState::ReqSpacesBeforeUrl | ParseState::ReqSchema | ParseState::ReqSchemaSlash
            | ParseState::ReqSchemaSlashSlash | ParseState::ReqServer
            | ParseState::ReqServerWithAt | ParseState::ReqPath | ParseState::ReqQueryString
            | ParseState::ReqFragment => step_url(m, b),
        ParseState::HeaderFieldStart | ParseState::HeaderField
            | ParseState::HeaderValueDiscardWs | ParseState::HeaderValueDiscardWsAlmostDone
            | ParseState::HeaderValueDiscardLws | ParseState::HeaderValue
            | ParseState::HeaderAlmostDone | ParseState::HeaderValueLws
            | ParseState::HeadersAlmostDone => step_headers(m, b),
        ParseState::ChunkSizeStart | ParseState::ChunkSize | ParseState::ChunkExtension
            | ParseState::ChunkSizeAlmostDone | ParseState::ChunkData
            | ParseState::ChunkDataAlmostDone | ParseState::ChunkDataDone => step_chunk(m, b),
        ParseState::BodyIdentity | ParseState::BodyIdentityEof | ParseState::Done
            | ParseState::Error => step_body(m, b),
    }
}

/// The executable machine.  Its view is the [`MachineV`] with the same
/// fields, and every method is proved to follow the transition function.
pub struct Machine {
    pub state: ParseState,
    pub is_request: bool,
    pub started: bool,
    pub trailing: bool,
    pub hdr_kind: HeaderKind,
    pub has_content_length: bool,
    pub content_length: u64,
    pub chunked: bool,
    pub http_major: u16,
    pub http_minor: u16,
    pub status_code: u16,
    pub status_digits: u8,
    pub chunk_size: u64,
    pub body_remaining: u64,
    pub acc_url: Vec<u8>,
    pub acc_status: Vec<u8>,
    pub acc_field: Vec<u8>,
    pub acc_value: Vec<u8>,
    pub acc_body: Vec<u8>,
}

impl View for Machine {
    type V = MachineV;

    open spec fn view(&self) -> MachineV {
        MachineV {
            state: self.state,
            is_request: self.is_request,
            started: self.started,
            trailing: self.trailing,
            hdr_kind: self.hdr_kind,
            has_content_length: self.has_content_length,
            content_length: self.content_length,
            chunked: self.chunked,
            http_major: self.http_major,
            http_minor: self.http_minor,
            status_code: self.status_code,
            status_digits: self.status_digits,
            chunk_size: self.chunk_size,
            body_remaining: self.body_remaining,
            acc_url: self.acc_url@,
            acc_status: self.acc_status@,
            acc_field: self.acc_field@,
            acc_value: self.acc_value@,
            acc_body: self.acc_body@,
        }
    }
}

impl Machine {
    /// A fresh machine at the start of a request or response.
    pub fn new(is_request: bool) -> (r: Machine)
        ensures
            r@ == init_machine(is_request),
    {
        let r = Machine {
            state: if is_request {
                ParseState::ReqStart
            } else {
                ParseState::RespStart
            },
            is_request,
            started: false,
            trailing: false,
            hdr_kind: HeaderKind::Other,
            has_content_length: false,
            content_length: 0,
            chunked: false,
            http_major: 0,
            http_minor: 0,
            status_code: 0,
            status_digits: 0,
            chunk_size: 0,
            body_remaining: 0,
            acc_url: Vec::new(),
            acc_status: Vec::new(),
            acc_field: Vec::new(),
            acc_value: Vec::new(),
            acc_body: Vec::new(),
        };
        proof {
            assert(r@ =~= init_machine(is_request));
        }
        r
    }

    /// Close the current header value as [`finish_value`] describes.
    fn do_finish_value(&mut self, evs: &mut Vec<Event>) -> (recon: bool)
        ensures
            ({
                let s = finish_value(old(self)@);
                final(self)@ == s.m && views(final(evs)@) == views(old(evs)@) + s.evs && recon
                    == s.recon
            }),
    {
        if !self.trailing && self.hdr_kind == HeaderKind::ContentLength {
            match parse_dec(&self.acc_value) {
                Option::None => {
                    self.state = ParseState::Error;
                    return false;
                },
                Option::Some(n) => {
                    if self.has_content_length && self.content_length != n {
                        self.state = ParseState::Error;
                        return false;
                    }
                    self.has_content_length = true;
                    self.content_length = n;
                },
            }
        } else if !self.trailing && self.hdr_kind == HeaderKind::TransferEncoding {
            if header_value_has_chunked(&self.acc_value) {
                self.chunked = true;
            }
        }
        self.state = ParseState::HeaderFieldStart;
        self.hdr_kind = HeaderKind::Other;
        let mut tmp: Vec<u8> = Vec::new();
        core::mem::swap(&mut tmp, &mut self.acc_value);
        evs.push(Event::HeaderValue(tmp));
        true
    }

    /// Handle the empty line that ends the header section, as
    /// [`headers_done`] describes.
    fn do_headers_done(&mut self, evs: &mut Vec<Event>)
        ensures
            ({
                let s = headers_done(old(self)@);
                final(self)@ == s.m && views(final(evs)@) == views(old(evs)@) + s.evs && !s.recon
            }),
    {
        if self.trailing {
            self.state = ParseState::Done;
            evs.push(Event::MessageComplete);
        } else if self.chunked {
            self.state = ParseState::ChunkSizeStart;
            evs.push(Event::HeadersComplete);
        } else if self.has_content_length {
            if self.content_length == 0 {
                self.state = ParseState::Done;
                evs.push(Event::HeadersComplete);
                evs.push(Event::MessageComplete);
            } else {
                self.state = ParseState::BodyIdentity;
                self.body_remaining = self.content_length;
                evs.push(Event::HeadersComplete);
            }
        } else if self.is_request {
            self.state = ParseState::Done;
            evs.push(Event::HeadersComplete);
            evs.push(Event::MessageComplete);
        } else {
            self.state = ParseState::BodyIdentityEof;
            evs.push(Event::HeadersComplete);
        }
    }

    /// Act on a complete chunk-size line, as [`chunk_size_done`] describes.
    fn do_chunk_size_done(&mut self)
        ensures
            ({
                let s = chunk_size_done(old(self)@);
                final(self)@ == s.m && s.evs.len() == 0 && !s.recon
            }),
    {
        if self.chunk_size == 0 {
            self.state = ParseState::HeaderFieldStart;
            self.trailing = true;
        } else {
            self.state = ParseState::ChunkData;
            self.body_remaining = self.chunk_size;
        }
    }

    /// One transition on one byte: the executable [`spec_step`].
    fn step(&mut self, b: u8, evs: &mut Vec<Event>) -> (recon: bool)
        ensures
            ({
                let s = spec_step(old(self)@, b);
                final(self)@ == s.m && views(final(evs)@) == views(old(evs)@) + s.evs && recon
                    == s.recon
            }),
    {
        match self.state {
            ParseState::RespStart | ParseState::RespH | ParseState::RespHT | ParseState::RespHTT
                | ParseState::RespHTTP | ParseState::RespFirstHttpMajor
                | ParseState::RespHttpMajor | ParseState::RespFirstHttpMinor
                | ParseState::RespHttpMinor | ParseState::RespFirstStatusCode
                | ParseState::RespStatusCode | ParseState::RespStatus
                | ParseState::RespLineAlmostDone => self.step_resp_states(b, evs),
            ParseState::ReqStart | ParseState::ReqMethod | ParseState::ReqHttpStart
                | ParseState::ReqH | ParseState::ReqHT | ParseState::ReqHTT | ParseState::ReqHTTP
                | ParseState::ReqFirstHttpMajor | ParseState::ReqHttpMajor
                | ParseState::ReqFirstHttpMinor | ParseState::ReqHttpMinor
                | ParseState::ReqLineAlmostDone => self.step_req_states(b, evs),
            ParseState::ReqSpacesBeforeUrl | ParseState::ReqSchema | ParseState::ReqSchemaSlash
                | ParseState::ReqSchemaSlashSlash | ParseState::ReqServer
                | ParseState::ReqServerWithAt | ParseState::ReqPath | ParseState::ReqQueryString
                | ParseState::ReqFragment => self.step_url_states(b, evs),
            ParseState::HeaderFieldStart | ParseState::HeaderField
                | ParseState::HeaderValueDiscardWs | ParseState::HeaderValueDiscardWsAlmostDone
                | ParseState::HeaderValueDiscardLws | ParseState::HeaderValue
                | ParseState::HeaderAlmostDone | ParseState::HeaderValueLws
                | ParseState::HeadersAlmostDone => self.step_header_states(b, evs),
            ParseState::ChunkSizeStart | ParseState::ChunkSize | ParseState::ChunkExtension
                | ParseState::ChunkSizeAlmostDone | ParseState::ChunkData
                | ParseState::ChunkDataAlmostDone | ParseState::ChunkDataDone => self
                .step_chunk_states(b, evs),
            ParseState::BodyIdentity | ParseState::BodyIdentityEof | ParseState::Done
                | ParseState::Error => self.step_body_states(b, evs),
        }
    }

    /// The executable [`step_resp`]: status-line states.
    #[verifier::rlimit(100)]
    #[verifier::spinoff_prover]
    fn step_resp_states(&mut self, b: u8, evs: &mut Vec<Event>) -> (recon: bool)
        ensures
            ({
                let s = step_resp(old(self)@, b);
                final(self)@ == s.m && views(final(evs)@) == views(old(evs)@) + s.evs && recon
                    == s.recon
            }),
    {
        match self.state {
            ParseState::RespStart => {
                if b == CR || b == LF {
                } else if b == 72 {
                    self.state = ParseState::RespH;
                } else {
                    self.state = ParseState::Error;
                }
                false
            },
            ParseState::RespH => {
                if b == 84 {
                    self.state = ParseState::RespHT;
                } else {
                    self.state = ParseState::Error;
                }
                false
            },
            ParseState::RespHT => {
                if b == 84 {
                    self.state = ParseState::RespHTT;
                } else {
                    self.state = ParseState::Error;
                }
                false
            },
            ParseState::RespHTT => {
                if b == 80 {
                    self.state = ParseState::RespHTTP;
                } else {
                    self.state = ParseState::Error;
                }
                false
            },
            ParseState::RespHTTP => {
                if b == 47 {
                    self.state = ParseState::RespFirstHttpMajor;
                } else {
                    self.state = ParseState::Error;
                }
                false
            },
            ParseState::RespFirstHttpMajor => {
                if is_digit(b) {
                    self.state = ParseState::RespHttpMajor;
                    self.http_major = (b - 48) as u16;
                } else {
                    self.state = ParseState::Error;
                }
                false
            },
            ParseState::RespHttpMajor => {
                if b == 46 {
                    self.state = ParseState::RespFirstHttpMinor;
                } else if is_digit(b) {
                    if self.http_major > 99 {
                        self.state = ParseState::Error;
                    } else {
                        self.http_major = self.http_major * 10 + ((b - 48) as u16);
                    }
                } else {
                    self.state = ParseState::Error;
                }
                false
            },
            ParseState::RespFirstHttpMinor => {
                if is_digit(b) {
                    self.state = ParseState::RespHttpMinor;
                    self.http_minor = (b - 48) as u16;
                } else {
                    self.state = ParseState::Error;
                }
                false
            },
            ParseState::RespHttpMinor => {
                if b == SP {
                    self.state = ParseState::RespFirstStatusCode;
                } else if is_digit(b) {
                    if self.http_minor > 99 {
                        self.state = ParseState::Error;
                    } else {
                        self.http_minor = self.http_minor * 10 + ((b - 48) as u16);
                    }
                } else {
                    self.state = ParseState::Error;
                }
                false
            },
            ParseState::RespFirstStatusCode => {
                if is_digit(b) {
                    self.state = ParseState::RespStatusCode;
                    self.status_code = (b - 48) as u16;
                    self.status_digits = 1;
                } else {
                    self.state = ParseState::Error;
                }
                false
            },
            ParseState::RespStatusCode => {
                if is_digit(b) {
                    if self.status_digits >= 3 {
                        self.state = ParseState::Error;
                    } else {
                        self.status_code = ((self.status_code as u32) * 10 + ((b - 48) as u32))
                            as u16;
                        self.status_digits = self.status_digits + 1;
                    }
                } else if self.status_digits != 3 {
                    self.state = ParseState::Error;
                } else if b == SP {
                    self.state = ParseState::RespStatus;
                } else if b == CR {
                    self.state = ParseState::RespLineAlmostDone;
                } else if b == LF {
                    self.state = ParseState::HeaderFieldStart;
                } else {
                    self.state = ParseState::Error;
                }
                false
            },
            ParseState::RespStatus => {
                if b == CR || b == LF {
                    let nxt = if b == CR {
                        ParseState::RespLineAlmostDone
                    } else {
                        ParseState::HeaderFieldStart
                    };
                    if self.acc_status.len() > 0 {
                        let mut tmp: Vec<u8> = Vec::new();
                        core::mem::swap(&mut tmp, &mut self.acc_status);
                        evs.push(Event::Status(tmp));
                    }
                    self.state = nxt;
                } else {
                    self.acc_status.push(b);
                }
                false
            },
            ParseState::RespLineAlmostDone => {
                if b == LF {
                    self.state = ParseState::HeaderFieldStart;
                } else {
                    self.state = ParseState::Error;
                }
                false
            },
            _ => {
                false
            },
        }
    }

    /// The executable [`step_req`]: request-line states outside the target.
    #[verifier::rlimit(100)]
    #[verifier::spinoff_prover]
    fn step_req_states(&mut self, b: u8, evs: &mut Vec<Event>) -> (recon: bool)
        ensures
            ({
                let s = step_req(old(self)@, b);
                final(self)@ == s.m && views(final(evs)@) == views(old(evs)@) + s.evs && recon
                    == s.recon
            }),
    {
        match self.state {
            ParseState::ReqStart => {
                if b == CR || b == LF {
                } else if is_token_char(b) {
                    self.state = ParseState::ReqMethod;
                } else {
                    self.state = ParseState::Error;
                }
                false
            },
            ParseState::ReqMethod => {
                if is_token_char(b) {
                } else if b == SP {
                    self.state = ParseState::ReqSpacesBeforeUrl;
                } else {
                    self.state = ParseState::Error;
                }
                false
            },
            ParseState::ReqHttpStart => {
                if b == 72 {
                    self.state = ParseState::ReqH;
                } else if b == SP {
                } else {
                    self.state = ParseState::Error;
                }
                false
            },
            ParseState::ReqH => {
                if b == 84 {
                    self.state = ParseState::ReqHT;
                } else {
                    self.state = ParseState::Error;
                }
                false
            },
            ParseState::ReqHT => {
                if b == 84 {
                    self.state = ParseState::ReqHTT;
                } else {
                    self.state = ParseState::Error;
                }
                false
            },
            ParseState::ReqHTT => {
                if b == 80 {
                    self.state = ParseState::ReqHTTP;
                } else {
                    self.state = ParseState::Error;
                }
                false
            },
            ParseState::ReqHTTP => {
                if b == 47 {
                    self.state = ParseState::ReqFirstHttpMajor;
                } else {
                    self.state = ParseState::Error;
                }
                false
            },
            ParseState::ReqFirstHttpMajor => {
                if is_digit(b) {
                    self.state = ParseState::ReqHttpMajor;
                    self.http_major = (b - 48) as u16;
                } else {
                    self.state = ParseState::Error;
                }
                false
            },
            ParseState::ReqHttpMajor => {
                if b == 46 {
                    self.state = ParseState::ReqFirstHttpMinor;
                } else if is_digit(b) {
                    if self.http_major > 99 {
                        self.state = ParseState::Error;
                    } else {
                        self.http_major = self.http_major * 10 + ((b - 48) as u16);
                    }
                } else {
                    self.state = ParseState::Error;
                }
                false
            },
            ParseState::ReqFirstHttpMinor => {
                if is_digit(b) {
                    self.state = ParseState::ReqHttpMinor;
                    self.http_minor = (b - 48) as u16;
                } else {
                    self.state = ParseState::Error;
                }
                false
            },
            ParseState::ReqHttpMinor => {
                if b == CR {
                    self.state = ParseState::ReqLineAlmostDone;
                } else if b == LF {
                    self.state = ParseState::HeaderFieldStart;
                } else if is_digit(b) {
                    if self.http_minor > 99 {
                        self.state = ParseState::Error;
                    } else {
                        self.http_minor = self.http_minor * 10 + ((b - 48) as u16);
                    }
                } else {
                    self.state = ParseState::Error;
                }
                false
            },
            ParseState::ReqLineAlmostDone => {
                if b == LF {
                    self.state = ParseState::HeaderFieldStart;
                } else {
                    self.state = ParseState::Error;
                }
                false
            },
            _ => {
                false
            },
        }
    }

    /// The executable [`step_url`]: request-target states.
    #[verifier::rlimit(100)]
    #[verifier::spinoff_prover]
    fn step_url_states(&mut self, b: u8, evs: &mut Vec<Event>) -> (recon: bool)
        ensures
            ({
                let s = step_url(old(self)@, b);
                final(self)@ == s.m && views(final(evs)@) == views(old(evs)@) + s.evs && recon
                    == s.recon
            }),
    {
        match self.state {
            ParseState::ReqSpacesBeforeUrl => {
                if b == SP {
                } else if b == CR || b == LF {
                    self.state = ParseState::Error;
                } else if b == 47 || b == 42 {
                    self.acc_url.push(b);
                    self.state = ParseState::ReqPath;
                } else if is_alpha(b) {
                    self.acc_url.push(b);
                    self.state = ParseState::ReqSchema;
                } else {
                    self.state = ParseState::Error;
                }
                false
            },
            ParseState::ReqSchema => {
                if b == SP {
                    self.do_url_end(evs);
                } else if b == CR || b == LF {
                    self.state = ParseState::Error;
                } else if b == 58 {
                    self.acc_url.push(b);
                    self.state = ParseState::ReqSchemaSlash;
                } else {
                    self.acc_url.push(b);
                }
                false
            },
            ParseState::ReqSchemaSlash => {
                if b == SP {
                    self.do_url_end(evs);
                } else if b == CR || b == LF {
                    self.state = ParseState::Error;
                } else if b == 47 {
                    self.acc_url.push(b);
                    self.state = ParseState::ReqSchemaSlashSlash;
                } else {
                    self.acc_url.push(b);
                    self.state = ParseState::ReqPath;
                }
                false
            },
            ParseState::ReqSchemaSlashSlash => {
                if b == SP {
                    self.do_url_end(evs);
                } else if b == CR || b == LF {
                    self.state = ParseState::Error;
                } else if b == 47 {
                    self.acc_url.push(b);
                    self.state = ParseState::ReqPath;
                } else if b == 64 {
                    self.acc_url.push(b);
                    self.state = ParseState::ReqServerWithAt;
                } else {
                    self.acc_url.push(b);
                    self.state = ParseState::ReqServer;
                }
                false
            },
            ParseState::ReqServer => {
                if b == SP {
                    self.do_url_end(evs);
                } else if b == CR || b == LF {
                    self.state = ParseState::Error;
                } else if b == 47 {
                    self.acc_url.push(b);
                    self.state = ParseState::ReqPath;
                } else if b == 63 {
                    self.acc_url.push(b);
                    self.state = ParseState::ReqQueryString;
                } else if b == 64 {
                    self.acc_url.push(b);
                    self.state = ParseState::ReqServerWithAt;
                } else {
                    self.acc_url.push(b);
                }
                false
            },
            ParseState::ReqServerWithAt => {
                if b == SP {
                    self.do_url_end(evs);
                } else if b == CR || b == LF {
                    self.state = ParseState::Error;
                } else if b == 64 {
                    self.state = ParseState::Error;
                } else if b == 47 {
                    self.acc_url.push(b);
                    self.state = ParseState::ReqPath;
                } else if b == 63 {
                    self.acc_url.push(b);
                    self.state = ParseState::ReqQueryString;
                } else {
                    self.acc_url.push(b);
                }
                false
            },
            ParseState::ReqPath => {
                if b == SP {
                    self.do_url_end(evs);
                } else if b == CR || b == LF {
                    self.state = ParseState::Error;
                } else if b == 63 {
                    self.acc_url.push(b);
                    self.state = ParseState::ReqQueryString;
                } else if b == 35 {
                    self.acc_url.push(b);
                    self.state = ParseState::ReqFragment;
                } else {
                    self.acc_url.push(b);
                }
                false
            },
            ParseState::ReqQueryString => {
                if b == SP {
                    self.do_url_end(evs);
                } else if b == CR || b == LF {
                    self.state = ParseState::Error;
                } else if b == 35 {
                    self.acc_url.push(b);
                    self.state = ParseState::ReqFragment;
                } else {
                    self.acc_url.push(b);
                }
                false
            },
            ParseState::ReqFragment => {
                if b == SP {
                    self.do_url_end(evs);
                } else if b == CR || b == LF {
                    self.state = ParseState::Error;
                } else {
                    self.acc_url.push(b);
                }
                false
            },
            _ => {
                false
            },
        }
    }

    /// The executable [`step_headers`]: the field/value section.
    #[verifier::rlimit(100)]
    #[verifier::spinoff_prover]
    fn step_header_states(&mut self, b: u8, evs: &mut Vec<Event>) -> (recon: bool)
        ensures
            ({
                let s = step_headers(old(self)@, b);
                final(self)@ == s.m && views(final(evs)@) == views(old(evs)@) + s.evs && recon
                    == s.recon
            }),
    {
        match self.state {
            ParseState::HeaderFieldStart => {
                if b == CR {
                    self.state = ParseState::HeadersAlmostDone;
                    false
                } else if b == LF {
                    self.do_headers_done(evs);
                    false
                } else if is_token_char(b) {
                    self.state = ParseState::HeaderField;
                    self.acc_field.push(b);
                    false
                } else {
                    self.state = ParseState::Error;
                    false
                }
            },
            ParseState::HeaderField => {
                if is_token_char(b) {
                    self.acc_field.push(b);
                } else if b == 58 {
                    self.state = ParseState::HeaderValueDiscardWs;
                    self.hdr_kind = classify_field(&self.acc_field);
                    let mut tmp: Vec<u8> = Vec::new();
                    core::mem::swap(&mut tmp, &mut self.acc_field);
                    evs.push(Event::HeaderField(tmp));
                } else {
                    self.state = ParseState::Error;
                }
                false
            },
            ParseState::HeaderValueDiscardWs => {
                if b == SP || b == HT {
                } else if b == CR {
                    self.state = ParseState::HeaderValueDiscardWsAlmostDone;
                } else if b == LF {
                    self.state = ParseState::HeaderValueDiscardLws;
                } else {
                    self.state = ParseState::HeaderValue;
                    self.acc_value.push(b);
                }
                false
            },
            ParseState::HeaderValueDiscardWsAlmostDone => {
                if b == LF {
                    self.state = ParseState::HeaderValueDiscardLws;
                } else {
                    self.state = ParseState::Error;
                }
                false
            },
            ParseState::HeaderValueDiscardLws => {
                if b == SP || b == HT {
                    self.state = ParseState::HeaderValue;
                    self.acc_value.push(b);
                    false
                } else {
                    self.do_finish_value(evs)
                }
            },
            ParseState::HeaderValue => {
                if b == CR {
                    self.state = ParseState::HeaderAlmostDone;
                } else if b == LF {
                    self.state = ParseState::HeaderValueLws;
                } else {
                    self.acc_value.push(b);
                }
                false
            },
            ParseState::HeaderAlmostDone => {
                if b == LF {
                    self.state = ParseState::HeaderValueLws;
                } else {
                    self.state = ParseState::Error;
                }
                false
            },
            ParseState::HeaderValueLws => {
                if b == SP || b == HT {
                    self.state = ParseState::HeaderValue;
                    self.acc_value.push(b);
                    false
                } else {
                    self.do_finish_value(evs)
                }
            },
            ParseState::HeadersAlmostDone => {
                if b == LF {
                    self.do_headers_done(evs);
                } else {
                    self.state = ParseState::Error;
                }
                false
            },
            _ => {
                false
            },
        }
    }

    /// The executable [`step_chunk`]: chunked-framing states.
    #[verifier::rlimit(100)]
    #[verifier::spinoff_prover]
    fn step_chunk_states(&mut self, b: u8, evs: &mut Vec<Event>) -> (recon: bool)
        ensures
            ({
                let s = step_chunk(old(self)@, b);
                final(self)@ == s.m && views(final(evs)@) == views(old(evs)@) + s.evs && recon
                    == s.recon
            }),
    {
        match self.state {
            ParseState::ChunkSizeStart => {
                if is_hex(b) {
                    self.state = ParseState::ChunkSize;
                    self.chunk_size = hex_value(b) as u64;
                } else {
                    self.state = ParseState::Error;
                }
                false
            },
            ParseState::ChunkSize => {
                if is_hex(b) {
                    if self.chunk_size > MAX_CHUNK_PREFIX {
                        self.state = ParseState::Error;
                    } else {
                        self.chunk_size = self.chunk_size * 16 + (hex_value(b) as u64);
                    }
                } else if b == 59 {
                    self.state = ParseState::ChunkExtension;
                } else if b == CR {
                    self.state = ParseState::ChunkSizeAlmostDone;
                } else if b == LF {
                    self.do_chunk_size_done();
                } else {
                    self.state = ParseState::Error;
                }
                false
            },
            ParseState::ChunkExtension => {
                if b == CR {
                    self.state = ParseState::ChunkSizeAlmostDone;
                } else if b == LF {
                    self.do_chunk_size_done();
                }
                false
            },
            ParseState::ChunkSizeAlmostDone => {
                if b == LF {
                    self.do_chunk_size_done();
                } else {
                    self.state = ParseState::Error;
                }
                false
            },
            ParseState::ChunkData => {
                self.acc_body.push(b);
                if self.body_remaining <= 1 {
                    self.body_remaining = 0;
                    self.state = ParseState::ChunkDataAlmostDone;
                    let mut tmp: Vec<u8> = Vec::new();
                    core::mem::swap(&mut tmp, &mut self.acc_body);
                    evs.push(Event::Body(tmp));
                } else {
                    self.body_remaining = self.body_remaining - 1;
                }
                false
            },
            ParseState::ChunkDataAlmostDone => {
                if b == CR {
                    self.state = ParseState::ChunkDataDone;
                } else if b == LF {
                    self.state = ParseState::ChunkSizeStart;
                } else {
                    self.state = ParseState::Error;
                }
                false
            },
            ParseState::ChunkDataDone => {
                if b == LF {
                    self.state = ParseState::ChunkSizeStart;
                } else {
                    self.state = ParseState::Error;
                }
                false
            },
            _ => {
                false
            },
        }
    }

    /// The executable [`step_body`]: body and terminal states.
    #[verifier::rlimit(100)]
    #[verifier::spinoff_prover]
    fn step_body_states(&mut self, b: u8, evs: &mut Vec<Event>) -> (recon: bool)
        ensures
            ({
                let s = step_body(old(self)@, b);
                final(self)@ == s.m && views(final(evs)@) == views(old(evs)@) + s.evs && recon
                    == s.recon
            }),
    {
        match self.state {
            ParseState::BodyIdentity => {
                self.acc_body.push(b);
                if self.body_remaining <= 1 {
                    self.body_remaining = 0;
                    self.state = ParseState::Done;
                    let mut tmp: Vec<u8> = Vec::new();
                    core::mem::swap(&mut tmp, &mut self.acc_body);
                    evs.push(Event::Body(tmp));
                    evs.push(Event::MessageComplete);
                } else {
                    self.body_remaining = self.body_remaining - 1;
                }
                false
            },
            ParseState::BodyIdentityEof => {
                self.acc_body.push(b);
                false
            },
            ParseState::Done => {
                self.state = ParseState::Error;
                false
            },
            ParseState::Error => {
                false
            },
            _ => {
                false
            },
        }
    }

    /// Close the request-target span on its terminating space.
    fn do_url_end(&mut self, evs: &mut Vec<Event>)
        ensures
            ({
                let s = url_end(old(self)@);
                final(self)@ == s.m && views(final(evs)@) == views(old(evs)@) + s.evs && !s.recon
            }),
    {
        self.state = ParseState::ReqHttpStart;
        let mut tmp: Vec<u8> = Vec::new();
        core::mem::swap(&mut tmp, &mut self.acc_url);
        evs.push(Event::Url(tmp));
    }

    /// Consume one byte completely: the executable [`spec_advance`].
    #[verifier::rlimit(100)]
    #[verifier::spinoff_prover]
    pub fn advance(&mut self, b: u8, evs: &mut Vec<Event>)
        ensures
            ({
                let r = spec_advance(old(self)@, b);
                final(self)@ == r.0 && views(final(evs)@) == views(old(evs)@) + r.1
            }),
    {
        if !self.started {
            self.started = true;
            evs.push(Event::MessageBegin);
        }
        let r1 = self.step(b, evs);
        if r1 {
            let _r2 = self.step(b, evs);
        }
        proof {
            let r = spec_advance(old(self)@, b);
            assert(views(evs@) =~= views(old(evs)@) + r.1);
        }
    }
}

/// One byte fully consumed: the message-begin notification on the very
/// first byte, the transition, and at most one re-feed of the same byte.
pub open spec fn spec_advance(m: MachineV, b: u8) -> (MachineV, Seq<EventV>) {
    let m0 = if !m.started {
        MachineV { started: true, ..m }
    } else {
        m
    };
    let evs0: Seq<EventV> = if !m.started {
        seq![EventV::MessageBegin]
    } else {
        seq![]
    };
    let s1 = spec_step(m0, b);
    if s1.recon {
        let s2 = spec_step(s1.m, b);
        (s2.m, evs0 + s1.evs + s2.evs)
    } else {
        (s1.m, evs0 + s1.evs)
    }
}

} // verus!
