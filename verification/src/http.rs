//! The HTTP request core: header-boundary detection and request-line parsing.
//!
//! Requests are handled as raw byte buffers. A request is complete once the
//! four-byte header terminator `\r\n\r\n` appears anywhere in the accumulated
//! bytes; its first line is then split on ASCII whitespace, the method token
//! must be exactly `GET`, and the second token is the request-target whose
//! leading byte (the `/`) is stripped before it names a file.

use vstd::prelude::*;
use vstd::string::StringSliceAdditionalSpecFns;

verus! {

/// The cap on accumulated request bytes before the server answers 413.
pub const MAX_REQUEST_SIZE: usize = 4096;

/// The four-byte HTTP header terminator `\r\n\r\n` starts at index `i` of `s`.
pub open spec fn header_end_at(s: Seq<u8>, i: int) -> bool {
    &&& 0 <= i
    &&& i + 4 <= s.len()
    &&& s[i] == 13u8
    &&& s[i + 1] == 10u8
    &&& s[i + 2] == 13u8
    &&& s[i + 3] == 10u8
}

/// The buffer contains the HTTP header terminator `\r\n\r\n` somewhere.
pub open spec fn contains_header_end(s: Seq<u8>) -> bool {
    exists|i: int| header_end_at(s, i)
}

/// Is the end of an HTTP header (`\r\n\r\n`) present anywhere in the buffer?
pub fn is_end_of_header(buffer: &[u8]) -> (r: bool)
    ensures
        r == contains_header_end(buffer@),
{
    if buffer.len() < 4 {
        return false;
    }
    let n: usize = buffer.len();
    let mut i: usize = 0;
    while i <= n - 4
        invariant
            n == buffer@.len(),
            4 <= n,
            i <= n - 3,
            forall|j: int| 0 <= j < i ==> !header_end_at(buffer@, j),
        decreases n - i,
    {
        if buffer[i] == 13u8 && buffer[i + 1] == 10u8 && buffer[i + 2] == 13u8 && buffer[i + 3]
            == 10u8 {
            assert(header_end_at(buffer@, i as int));
            return true;
        }
        i = i + 1;
    }
    assert(forall|j: int| header_end_at(buffer@, j) ==> 0 <= j < i);
    false
}

/// ASCII whitespace, as the request line is tokenized: space, tab, line feed,
/// form feed, carriage return.
pub open spec fn is_ws(b: u8) -> bool {
    b == 32 || b == 9 || b == 10 || b == 12 || b == 13
}

/// The index of the first `\r\n` at or after `i`, or the length of `s` if
/// there is none.
pub open spec fn find_crlf_from(s: Seq<u8>, i: int) -> int
    decreases s.len() - i when i <= s.len()
{
    if i + 2 > s.len() {
        s.len() as int
    } else if s[i] == 13u8 && s[i + 1] == 10u8 {
        i
    } else {
        find_crlf_from(s, i + 1)
    }
}

/// The first index at or after `i` holding a non-whitespace byte, capped at
/// the length of `s`.
pub open spec fn skip_ws_from(s: Seq<u8>, i: int) -> int
    decreases s.len() - i when i <= s.len()
{
    if i >= s.len() {
        s.len() as int
    } else if is_ws(s[i]) {
        skip_ws_from(s, i + 1)
    } else {
        i
    }
}

/// The first index at or after `i` holding a whitespace byte, capped at the
/// length of `s`.
pub open spec fn token_end_from(s: Seq<u8>, i: int) -> int
    decreases s.len() - i when i <= s.len()
{
    if i >= s.len() {
        s.len() as int
    } else if is_ws(s[i]) {
        i
    } else {
        token_end_from(s, i + 1)
    }
}

pub proof fn lemma_find_crlf_from_range(s: Seq<u8>, i: int)
    requires
        0 <= i <= s.len(),
    ensures
        i <= find_crlf_from(s, i) <= s.len(),
    decreases s.len() - i,
{
    if i + 2 <= s.len() && !(s[i] == 13u8 && s[i + 1] == 10u8) {
        lemma_find_crlf_from_range(s, i + 1);
    }
}

/// The first line of the request: everything before the first `\r\n`, or the
/// whole buffer if no `\r\n` occurs.
pub open spec fn first_line(s: Seq<u8>) -> Seq<u8> {
    s.subrange(0, find_crlf_from(s, 0))
}

/// The bytes of the only accepted method token, `GET`.
pub open spec fn get_token() -> Seq<u8> {
    "GET".spec_bytes()
}

/// The first whitespace-separated token of `line`, if any.
pub open spec fn spec_first_token(line: Seq<u8>) -> Option<Seq<u8>> {
    let a = skip_ws_from(line, 0);
    if a >= line.len() {
        None
    } else {
        Some(line.subrange(a, token_end_from(line, a)))
    }
}

/// The second whitespace-separated token of `line`, if any.
pub open spec fn spec_second_token(line: Seq<u8>) -> Option<Seq<u8>> {
    let a = skip_ws_from(line, 0);
    let b = token_end_from(line, a);
    let c = skip_ws_from(line, b);
    if c >= line.len() {
        None
    } else {
        Some(line.subrange(c, token_end_from(line, c)))
    }
}

/// What the request line of a complete request means.
pub enum ParseOutcome {
    /// The first line has no token at all.
    Malformed,
    /// The method token is not `GET`.
    MethodNotAllowed,
    /// The request-target is absent, or is too short to name a file.
    NotFound,
    /// The request-target with its leading byte stripped.
    Target(Seq<u8>),
}

/// The meaning of a complete request buffer: tokenize the first line, accept
/// only the method `GET`, and hand back the request-target stripped of its
/// leading `/`.
pub open spec fn spec_parse(req: Seq<u8>) -> ParseOutcome {
    let line = first_line(req);
    match spec_first_token(line) {
        Option::None => ParseOutcome::Malformed,
        Option::Some(m) => if m != get_token() {
            ParseOutcome::MethodNotAllowed
        } else {
            match spec_second_token(line) {
                Option::None => ParseOutcome::NotFound,
                Option::Some(t) => if t.len() <= 1 {
                    ParseOutcome::NotFound
                } else {
                    ParseOutcome::Target(t.subrange(1, t.len() as int))
                },
            }
        },
    }
}

/// The executable counterpart of `ParseOutcome`.
pub enum ParseResult {
    Malformed,
    MethodNotAllowed,
    NotFound,
    Target(Vec<u8>),
}

fn is_ws_byte(b: u8) -> (r: bool)
    ensures
        r == is_ws(b),
{
    b == 32 || b == 9 || b == 10 || b == 12 || b == 13
}

/// Parse the first line of a complete request buffer.
pub fn parse_request_line(buf: &Vec<u8>) -> (r: ParseResult)
    ensures
        match r {
            ParseResult::Malformed => spec_parse(buf@) == ParseOutcome::Malformed,
            ParseResult::MethodNotAllowed => spec_parse(buf@) == ParseOutcome::MethodNotAllowed,
            ParseResult::NotFound => spec_parse(buf@) == ParseOutcome::NotFound,
            ParseResult::Target(t) => spec_parse(buf@) == ParseOutcome::Target(t@),
        },
{
    let ghost line = first_line(buf@);

    // Find the end of the first line.
    let mut eol: usize = 0;
    while eol < buf.len() && eol + 1 < buf.len() && !(buf[eol] == 13u8 && buf[eol + 1] == 10u8)
        invariant
            0 <= eol <= buf@.len(),
            find_crlf_from(buf@, 0) == find_crlf_from(buf@, eol as int),
        decreases buf@.len() - eol,
    {
        eol = eol + 1;
    }
    if eol >= buf.len() || eol + 1 >= buf.len() {
        eol = buf.len();
    }
    proof {
        lemma_find_crlf_from_range(buf@, 0);
        assert(eol as int == find_crlf_from(buf@, 0));
        assert(line =~= buf@.subrange(0, eol as int));
        assert(forall|j: int| 0 <= j < eol ==> line[j] == buf@[j]);
    }

    // First token: the method.
    let mut i: usize = 0;
    while i < eol && is_ws_byte(buf[i])
        invariant
            0 <= i <= eol <= buf@.len(),
            line == buf@.subrange(0, eol as int),
            skip_ws_from(line, 0) == skip_ws_from(line, i as int),
        decreases eol - i,
    {
        i = i + 1;
    }
    assert(i as int == skip_ws_from(line, 0));
    if i == eol {
        return ParseResult::Malformed;
    }
    let m_start: usize = i;
    while i < eol && !is_ws_byte(buf[i])
        invariant
            m_start <= i <= eol <= buf@.len(),
            line == buf@.subrange(0, eol as int),
            token_end_from(line, m_start as int) == token_end_from(line, i as int),
        decreases eol - i,
    {
        i = i + 1;
    }
    assert(i as int == token_end_from(line, m_start as int));
    let ghost method = line.subrange(m_start as int, i as int);
    assert(spec_first_token(line) == Option::Some(method));

    let is_get = i - m_start == 3 && buf[m_start] == 71u8 && buf[m_start + 1]
        == 69u8 && buf[m_start + 2] == 84u8;
    proof {
        reveal_strlit("GET");
        assert(vstd::string::is_ascii("GET"));
        vstd::string::is_ascii_spec_bytes("GET");
        assert(get_token() =~= seq![71u8, 69u8, 84u8]);
        if is_get {
            assert(method =~= get_token());
        } else {
            assert(method != get_token());
        }
    }
    if !is_get {
        return ParseResult::MethodNotAllowed;
    }

    // Second token: the request-target.
    while i < eol && is_ws_byte(buf[i])
        invariant
            0 <= i <= eol <= buf@.len(),
            line == buf@.subrange(0, eol as int),
            skip_ws_from(line, token_end_from(line, skip_ws_from(line, 0))) == skip_ws_from(
                line,
                i as int,
            ),
        decreases eol - i,
    {
        i = i + 1;
    }
    assert(i as int == skip_ws_from(line, token_end_from(line, skip_ws_from(line, 0))));
    if i == eol {
        return ParseResult::NotFound;
    }
    let t_start: usize = i;
    while i < eol && !is_ws_byte(buf[i])
        invariant
            t_start <= i <= eol <= buf@.len(),
            line == buf@.subrange(0, eol as int),
            token_end_from(line, t_start as int) == token_end_from(line, i as int),
        decreases eol - i,
    {
        i = i + 1;
    }
    assert(i as int == token_end_from(line, t_start as int));
    let ghost target_tok = line.subrange(t_start as int, i as int);
    assert(spec_second_token(line) == Option::Some(target_tok));

    if i - t_start <= 1 {
        return ParseResult::NotFound;
    }

    let mut t: Vec<u8> = Vec::new();
    let mut k: usize = t_start + 1;
    while k < i
        invariant
            t_start + 1 <= k <= i <= eol <= buf@.len(),
            line == buf@.subrange(0, eol as int),
            t@ == line.subrange(t_start + 1, k as int),
        decreases i - k,
    {
        t.push(buf[k]);
        proof {
            assert(t@ =~= line.subrange(t_start + 1, k + 1 as int));
        }
        k = k + 1;
    }
    proof {
        assert(t@ =~= target_tok.subrange(1, target_tok.len() as int));
    }
    ParseResult::Target(t)
}

} // verus!
