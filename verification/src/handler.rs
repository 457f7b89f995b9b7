//! The per-connection handler: map how the read loop ended to the response
//! that is written back, and build the response for a file read.

use crate::http::{first_line, get_token, spec_first_token, spec_parse, ParseOutcome, ParseResult,
    parse_request_line, MAX_REQUEST_SIZE};
use crate::http::{contains_header_end, find_crlf_from, lemma_find_crlf_from_range, skip_ws_from,
    token_end_from};
use crate::reader::{spec_data_step, spec_failure_step, ReadOutcome, ReadStep};
use crate::response::{build_ok_response, dec_rep, resp_404, resp_405, resp_408, resp_413,
    response_404, response_405, response_408, response_413, spec_content_type, spec_ok_response};
use vstd::prelude::*;
use vstd::string::StringSliceAdditionalSpecFns;

verus! {

/// What the connection does once its read loop has ended.
pub enum Action {
    /// Close the connection without writing anything.
    SilentDrop,
    /// Write these bytes, then close.
    Respond(Vec<u8>),
    /// Read the file the stripped target names, then answer with
    /// `file_response`.
    FetchFile(Vec<u8>),
}

/// The meaning of an `Action`.
pub enum ActionView {
    SilentDrop,
    Respond(Seq<u8>),
    FetchFile(Seq<u8>),
}

/// The action each terminal outcome of the read loop maps to. A complete
/// request is parsed: a missing or non-`GET` method token answers 405, a
/// missing or too-short target answers 404, and a usable target names a file
/// to fetch. An orderly close and a TLS fault are dropped silently; an
/// oversize request answers 413; a transport fault answers 408.
pub open spec fn spec_action(outcome: ReadOutcome, req: Seq<u8>) -> ActionView {
    match outcome {
        ReadOutcome::Complete => match spec_parse(req) {
            ParseOutcome::Malformed => ActionView::Respond(resp_405()),
            ParseOutcome::MethodNotAllowed => ActionView::Respond(resp_405()),
            ParseOutcome::NotFound => ActionView::Respond(resp_404()),
            ParseOutcome::Target(t) => ActionView::FetchFile(t),
        },
        ReadOutcome::OrderlyClose => ActionView::SilentDrop,
        ReadOutcome::Oversize => ActionView::Respond(resp_413()),
        ReadOutcome::TransportFault => ActionView::Respond(resp_408()),
        ReadOutcome::TlsFault => ActionView::SilentDrop,
    }
}

/// Decide what the connection does for a finished read loop over `buf`.
pub fn action_for_outcome(outcome: ReadOutcome, buf: &Vec<u8>) -> (r: Action)
    ensures
        match r {
            Action::SilentDrop => spec_action(outcome, buf@) == ActionView::SilentDrop,
            Action::Respond(b) => spec_action(outcome, buf@) == ActionView::Respond(b@),
            Action::FetchFile(t) => spec_action(outcome, buf@) == ActionView::FetchFile(t@),
        },
{
    match outcome {
        ReadOutcome::Complete => match parse_request_line(buf) {
            ParseResult::Malformed => Action::Respond(response_405()),
            ParseResult::MethodNotAllowed => Action::Respond(response_405()),
            ParseResult::NotFound => Action::Respond(response_404()),
            ParseResult::Target(t) => Action::FetchFile(t),
        },
        ReadOutcome::OrderlyClose => Action::SilentDrop,
        ReadOutcome::Oversize => Action::Respond(response_413()),
        ReadOutcome::TransportFault => Action::Respond(response_408()),
        ReadOutcome::TlsFault => Action::SilentDrop,
    }
}

/// Bytes written back once the fetched file is in hand: the full 200 response
/// when the read succeeded, the 404 status line when it failed.
pub open spec fn spec_file_response(origin: Seq<u8>, path: Seq<u8>, file: Option<Seq<u8>>) -> Seq<
    u8,
> {
    match file {
        Option::Some(body) => spec_ok_response(origin, path, body),
        Option::None => resp_404(),
    }
}

/// Build the response for the outcome of reading the file named by the
/// stripped target `path`.
pub fn file_response(origin: &str, path: &Vec<u8>, file: &Option<Vec<u8>>) -> (r: Vec<u8>)
    ensures
        file matches Some(body) ==> r@ == spec_ok_response(origin.spec_bytes(), path@, body@),
        file is None ==> r@ == resp_404(),
{
    match file {
        Option::Some(body) => build_ok_response(origin, path, body),
        Option::None => response_404(),
    }
}

/// A complete request whose first token is missing or is anything but `GET`
/// is answered with the 405 status line; such a request never begins with
/// the four bytes `GET `. (A request whose first token is `GET` without the
/// space directly after it, such as `GET\r\n\r\n`, is instead judged by its
/// target.)
pub proof fn lemma_non_get_gets_405(req: Seq<u8>)
    requires
        spec_first_token(first_line(req)) matches Some(m) ==> m != get_token(),
    ensures
        spec_action(ReadOutcome::Complete, req) == ActionView::Respond(resp_405()),
        !(req.len() >= 4 && req.subrange(0, 4) == "GET ".spec_bytes()),
{
    if req.len() >= 4 && req.subrange(0, 4) == "GET ".spec_bytes() {
        reveal_strlit("GET ");
        reveal_strlit("GET");
        assert(vstd::string::is_ascii("GET "));
        assert(vstd::string::is_ascii("GET"));
        vstd::string::is_ascii_spec_bytes("GET ");
        vstd::string::is_ascii_spec_bytes("GET");
        assert("GET ".spec_bytes() =~= seq![71u8, 69u8, 84u8, 32u8]);
        assert(req[0] == 71u8 && req[1] == 69u8 && req[2] == 84u8 && req[3] == 32u8) by {
            assert(req.subrange(0, 4)[0] == req[0]);
            assert(req.subrange(0, 4)[1] == req[1]);
            assert(req.subrange(0, 4)[2] == req[2]);
            assert(req.subrange(0, 4)[3] == req[3]);
        }

        // The first line keeps those four bytes: no `\r\n` starts among them.
        assert(find_crlf_from(req, 0) == find_crlf_from(req, 1));
        assert(find_crlf_from(req, 1) == find_crlf_from(req, 2));
        assert(find_crlf_from(req, 2) == find_crlf_from(req, 3));
        if req.len() == 4 {
            assert(find_crlf_from(req, 3) == 4);
        } else {
            assert(find_crlf_from(req, 3) == find_crlf_from(req, 4));
            lemma_find_crlf_from_range(req, 4);
        }
        let line = first_line(req);
        assert(line.len() >= 4);
        assert(line[0] == 71u8 && line[1] == 69u8 && line[2] == 84u8 && line[3] == 32u8);

        // So the first token is exactly `GET`, against the hypothesis.
        assert(skip_ws_from(line, 0) == 0);
        assert(token_end_from(line, 0) == token_end_from(line, 1));
        assert(token_end_from(line, 1) == token_end_from(line, 2));
        assert(token_end_from(line, 2) == token_end_from(line, 3));
        assert(token_end_from(line, 3) == 3);
        assert(spec_first_token(line) == Option::Some(line.subrange(0, 3)));
        assert(line.subrange(0, 3) =~= get_token());
    }
}

/// A chunk that brings the buffer to `MAX_REQUEST_SIZE` or beyond without a
/// header terminator ends the read loop as oversize, and the oversize outcome
/// is answered with the 413 status line.
pub proof fn lemma_oversize_gets_413(buf: Seq<u8>, chunk: Seq<u8>)
    requires
        chunk.len() > 0,
        !contains_header_end(buf + chunk),
        buf.len() + chunk.len() >= MAX_REQUEST_SIZE,
    ensures
        spec_data_step(buf, chunk) == ReadStep::Done(ReadOutcome::Oversize),
        spec_action(ReadOutcome::Oversize, buf + chunk) == ActionView::Respond(resp_413()),
{
}

/// A failed read classified as a transport fault (typically the read
/// deadline) ends the read loop, and is answered with the 408 status line.
pub proof fn lemma_transport_fault_gets_408(req: Seq<u8>)
    ensures
        spec_failure_step(false) == ReadStep::Done(ReadOutcome::TransportFault),
        spec_action(ReadOutcome::TransportFault, req) == ActionView::Respond(resp_408()),
{
}

/// A failed read classified as a TLS fault ends the read loop and writes
/// nothing back at all.
pub proof fn lemma_tls_fault_is_silent(req: Seq<u8>)
    ensures
        spec_failure_step(true) == ReadStep::Done(ReadOutcome::TlsFault),
        spec_action(ReadOutcome::TlsFault, req) == ActionView::SilentDrop,
{
}

/// The shape of every 200 response: it starts with the 200 status line, the
/// CORS header names exactly the configured origin, the blank line separates
/// the headers from the body, and the body is the file byte-for-byte.
pub proof fn lemma_ok_response_layout(origin: Seq<u8>, path: Seq<u8>, body: Seq<u8>)
    ensures
        ({
            let r = spec_ok_response(origin, path, body);
            &&& r.len() == 84 + origin.len() + spec_content_type(path).len() + dec_rep(
                body.len(),
            ).len() + body.len()
            &&& r.subrange(0, 17) == "HTTP/1.1 200 OK\r\n".spec_bytes()
            &&& r.subrange(17, 46) == "Access-Control-Allow-Origin: ".spec_bytes()
            &&& r.subrange(46, 46 + origin.len() as int) == origin
            &&& r.subrange(r.len() - body.len() - 4, r.len() - body.len()) == "\r\n\r\n".spec_bytes()
            &&& r.subrange(r.len() - body.len(), r.len() as int) == body
        }),
{
    reveal_strlit("HTTP/1.1 200 OK\r\nAccess-Control-Allow-Origin: ");
    reveal_strlit("HTTP/1.1 200 OK\r\n");
    reveal_strlit("Access-Control-Allow-Origin: ");
    reveal_strlit("\r\nContent-type: ");
    reveal_strlit("\r\nContent-Length: ");
    reveal_strlit("\r\n\r\n");
    assert(vstd::string::is_ascii("HTTP/1.1 200 OK\r\nAccess-Control-Allow-Origin: "));
    assert(vstd::string::is_ascii("HTTP/1.1 200 OK\r\n"));
    assert(vstd::string::is_ascii("Access-Control-Allow-Origin: "));
    assert(vstd::string::is_ascii("\r\nContent-type: "));
    assert(vstd::string::is_ascii("\r\nContent-Length: "));
    assert(vstd::string::is_ascii("\r\n\r\n"));
    vstd::string::is_ascii_spec_bytes("HTTP/1.1 200 OK\r\nAccess-Control-Allow-Origin: ");
    vstd::string::is_ascii_spec_bytes("HTTP/1.1 200 OK\r\n");
    vstd::string::is_ascii_spec_bytes("Access-Control-Allow-Origin: ");
    vstd::string::is_ascii_spec_bytes("\r\nContent-type: ");
    vstd::string::is_ascii_spec_bytes("\r\nContent-Length: ");
    vstd::string::is_ascii_spec_bytes("\r\n\r\n");
    let r = spec_ok_response(origin, path, body);
    assert(r.subrange(0, 17) =~= "HTTP/1.1 200 OK\r\n".spec_bytes());
    assert(r.subrange(17, 46) =~= "Access-Control-Allow-Origin: ".spec_bytes());
    assert(r.subrange(46, 46 + origin.len() as int) =~= origin);
    assert(r.subrange(r.len() - body.len() - 4, r.len() - body.len()) =~= "\r\n\r\n".spec_bytes());
    assert(r.subrange(r.len() - body.len(), r.len() as int) =~= body);
}

} // verus!
