//! The request reader: one step of the bounded, deadline-guarded read loop.
//!
//! The loop around a TLS stream hands each read result in as a `ReadEvent`;
//! `ingest` appends arrived bytes to the request buffer and decides whether
//! the loop goes on or ends in one of the five terminal outcomes.

use crate::http::{contains_header_end, is_end_of_header, MAX_REQUEST_SIZE};
use vstd::prelude::*;

verus! {

/// The result of one read from the TLS stream, as the loop sees it: either a
/// chunk of bytes (possibly empty, for an orderly close), or a failed read
/// classified by the layer it came from.
pub enum ReadEvent {
    Data(Vec<u8>),
    Failure { tls: bool },
}

/// How a connection's read loop ended.
#[derive(Clone, Copy, Debug, PartialEq, Eq, Structural)]
pub enum ReadOutcome {
    /// The buffer holds `\r\n\r\n`: a complete request.
    Complete,
    /// A read returned zero bytes before the header ended.
    OrderlyClose,
    /// The buffer reached `MAX_REQUEST_SIZE` without a header end.
    Oversize,
    /// A read failed in the transport layer (typically the deadline).
    TransportFault,
    /// A read failed in the TLS layer.
    TlsFault,
}

/// Whether the read loop continues or has ended.
#[derive(Clone, Copy, Debug, PartialEq, Eq, Structural)]
pub enum ReadStep {
    Continue,
    Done(ReadOutcome),
}

/// The step the loop takes when a read delivers `chunk` onto `buf`: an empty
/// chunk is an orderly close; then a present header terminator completes the
/// request; then a buffer at or over the cap is oversize; otherwise read on.
pub open spec fn spec_data_step(buf: Seq<u8>, chunk: Seq<u8>) -> ReadStep {
    if chunk.len() == 0 {
        ReadStep::Done(ReadOutcome::OrderlyClose)
    } else if contains_header_end(buf + chunk) {
        ReadStep::Done(ReadOutcome::Complete)
    } else if buf.len() + chunk.len() >= MAX_REQUEST_SIZE {
        ReadStep::Done(ReadOutcome::Oversize)
    } else {
        ReadStep::Continue
    }
}

/// The step the loop takes when a read fails: a TLS-layer fault or a
/// transport fault, either of which ends the loop.
pub open spec fn spec_failure_step(tls: bool) -> ReadStep {
    if tls {
        ReadStep::Done(ReadOutcome::TlsFault)
    } else {
        ReadStep::Done(ReadOutcome::TransportFault)
    }
}

/// The whole read loop of one connection, at the specification level: fold
/// successfully read chunks through `spec_data_step` from the buffer `buf`
/// until a step ends the loop, yielding the final buffer and the last step.
/// (A failed read ends the loop through `spec_failure_step` instead and
/// leaves the buffer as it stands.)
pub open spec fn spec_read_loop(buf: Seq<u8>, chunks: Seq<Seq<u8>>) -> (Seq<u8>, ReadStep)
    decreases chunks.len(),
{
    if chunks.len() == 0 {
        (buf, ReadStep::Continue)
    } else {
        let step = spec_data_step(buf, chunks[0]);
        let grown = if chunks[0].len() == 0 {
            buf
        } else {
            buf + chunks[0]
        };
        if step == ReadStep::Continue {
            spec_read_loop(grown, chunks.drop_first())
        } else {
            (grown, step)
        }
    }
}

/// However the bytes of a connection arrive, the read loop keeps its bound:
/// while it continues, the buffer stays below `MAX_REQUEST_SIZE` with no
/// header terminator; it completes only with the terminator present; and it
/// ends oversize exactly by reaching the cap without one. Data alone never
/// ends it in a fault.
pub proof fn lemma_read_loop_invariant(buf: Seq<u8>, chunks: Seq<Seq<u8>>)
    requires
        !contains_header_end(buf),
        buf.len() < MAX_REQUEST_SIZE,
    ensures
        ({
            let fbuf = spec_read_loop(buf, chunks).0;
            let step = spec_read_loop(buf, chunks).1;
            &&& step == ReadStep::Continue ==> !contains_header_end(fbuf) && fbuf.len()
                < MAX_REQUEST_SIZE
            &&& step == ReadStep::Done(ReadOutcome::Complete) ==> contains_header_end(fbuf)
            &&& step == ReadStep::Done(ReadOutcome::Oversize) ==> fbuf.len() >= MAX_REQUEST_SIZE
                && !contains_header_end(fbuf)
            &&& step != ReadStep::Done(ReadOutcome::TransportFault)
            &&& step != ReadStep::Done(ReadOutcome::TlsFault)
        }),
    decreases chunks.len(),
{
    if chunks.len() > 0 {
        let step = spec_data_step(buf, chunks[0]);
        if step == ReadStep::Continue {
            lemma_read_loop_invariant(buf + chunks[0], chunks.drop_first());
        }
    }
}

/// Feed one read event into the request buffer and take the loop's decision.
/// Arrived bytes are appended; the buffer is otherwise untouched, and a
/// `Continue` guarantees it is still below `MAX_REQUEST_SIZE`.
pub fn ingest(buf: &mut Vec<u8>, event: ReadEvent) -> (r: ReadStep)
    ensures
        match event {
            ReadEvent::Data(c) => {
                &&& final(buf)@ == (if c@.len() == 0 {
                    old(buf)@
                } else {
                    old(buf)@ + c@
                })
                &&& r == spec_data_step(old(buf)@, c@)
            },
            ReadEvent::Failure { tls } => final(buf)@ == old(buf)@ && r == spec_failure_step(tls),
        },
        r == ReadStep::Continue ==> final(buf)@.len() < MAX_REQUEST_SIZE,
{
    match event {
        ReadEvent::Data(c) => {
            if c.len() == 0 {
                ReadStep::Done(ReadOutcome::OrderlyClose)
            } else {
                buf.extend_from_slice(c.as_slice());
                proof {
                    assert(buf@ =~= old(buf)@ + c@);
                }
                if is_end_of_header(buf.as_slice()) {
                    ReadStep::Done(ReadOutcome::Complete)
                } else if buf.len() >= MAX_REQUEST_SIZE {
                    ReadStep::Done(ReadOutcome::Oversize)
                } else {
                    ReadStep::Continue
                }
            }
        },
        ReadEvent::Failure { tls } => {
            if tls {
                ReadStep::Done(ReadOutcome::TlsFault)
            } else {
                ReadStep::Done(ReadOutcome::TransportFault)
            }
        },
    }
}

} // verus!
