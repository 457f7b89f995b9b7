//! Response construction: the fixed status lines, content-type selection,
//! and the 200 response with CORS, content-type and content-length headers.

use vstd::prelude::*;
use vstd::string::StringSliceAdditionalSpecFns;

verus! {

/// Bytes of the status-line-only 404 response.
pub open spec fn resp_404() -> Seq<u8> {
    "HTTP/1.1 404 NOT FOUND\r\n\r\n".spec_bytes()
}

/// Bytes of the status-line-only 405 response.
pub open spec fn resp_405() -> Seq<u8> {
    "HTTP/1.1 405 Method Not Allowed\r\n\r\n".spec_bytes()
}

/// Bytes of the status-line-only 408 response.
pub open spec fn resp_408() -> Seq<u8> {
    "HTTP/1.1 408 REQUEST TIMEOUT\r\n\r\n".spec_bytes()
}

/// Bytes of the status-line-only 413 response.
pub open spec fn resp_413() -> Seq<u8> {
    "HTTP/1.1 413 PAYLOAD TOO LARGE\r\n\r\n".spec_bytes()
}

fn bytes_of(s: &str) -> (r: Vec<u8>)
    ensures
        r@ == s.spec_bytes(),
{
    let mut v: Vec<u8> = Vec::new();
    v.extend_from_slice(s.as_bytes());
    v
}

/// 404 File not found.
pub fn response_404() -> (r: Vec<u8>)
    ensures
        r@ == resp_404(),
{
    bytes_of("HTTP/1.1 404 NOT FOUND\r\n\r\n")
}

/// 405 Method not allowed.
pub fn response_405() -> (r: Vec<u8>)
    ensures
        r@ == resp_405(),
{
    bytes_of("HTTP/1.1 405 Method Not Allowed\r\n\r\n")
}

/// 408 Request timeout.
pub fn response_408() -> (r: Vec<u8>)
    ensures
        r@ == resp_408(),
{
    bytes_of("HTTP/1.1 408 REQUEST TIMEOUT\r\n\r\n")
}

/// 413 Payload too large.
pub fn response_413() -> (r: Vec<u8>)
    ensures
        r@ == resp_413(),
{
    bytes_of("HTTP/1.1 413 PAYLOAD TOO LARGE\r\n\r\n")
}

/// The decimal digits of `n`, most significant first, as ASCII bytes.
pub open spec fn dec_rep(n: nat) -> Seq<u8>
    decreases n,
{
    if n < 10 {
        seq![(48 + n) as u8]
    } else {
        dec_rep(n / 10) + seq![(48 + n % 10) as u8]
    }
}

/// The number a sequence of ASCII digits denotes in decimal.
pub open spec fn dec_val(s: Seq<u8>) -> nat
    decreases s.len(),
{
    if s.len() == 0 {
        0
    } else {
        dec_val(s.drop_last()) * 10 + (if s.last() >= 48 {
            (s.last() - 48) as nat
        } else {
            0
        })
    }
}

/// The decimal representation written by `dec_rep` denotes the number it was
/// built from: the content-length header names exactly the body size.
pub proof fn lemma_dec_rep_val(n: nat)
    ensures
        dec_val(dec_rep(n)) == n,
    decreases n,
{
    if n < 10 {
        assert(dec_rep(n) =~= seq![(48 + n) as u8]);
        assert(dec_rep(n).drop_last() =~= Seq::<u8>::empty());
        assert(dec_val(Seq::<u8>::empty()) == 0);
        assert(dec_rep(n).last() == (48 + n) as u8);
    } else {
        lemma_dec_rep_val(n / 10);
        assert(dec_rep(n).drop_last() =~= dec_rep(n / 10));
        assert(dec_rep(n).last() == (48 + n % 10) as u8);
        assert(n == (n / 10) * 10 + n % 10) by (nonlinear_arith);
    }
}

spec fn dec_rep_aux(m: nat, acc: Seq<u8>) -> Seq<u8>
    decreases m,
{
    if m == 0 {
        acc
    } else {
        dec_rep_aux(m / 10, seq![(48 + m % 10) as u8] + acc)
    }
}

proof fn lemma_dec_rep_aux(m: nat, acc: Seq<u8>)
    requires
        m > 0,
    ensures
        dec_rep_aux(m, acc) == dec_rep(m) + acc,
    decreases m,
{
    if m < 10 {
        assert(dec_rep_aux(m, acc) == dec_rep_aux(0, seq![(48 + m) as u8] + acc));
        assert(dec_rep(m) + acc =~= seq![(48 + m) as u8] + acc);
    } else {
        lemma_dec_rep_aux(m / 10, seq![(48 + m % 10) as u8] + acc);
        assert(dec_rep(m / 10) + (seq![(48 + m % 10) as u8] + acc) =~= (dec_rep(m / 10) + seq![
            (48 + m % 10) as u8,
        ]) + acc);
    }
}

/// Write `n` in decimal, most significant digit first.
pub fn decimal_bytes(n: usize) -> (r: Vec<u8>)
    ensures
        r@ == dec_rep(n as nat),
{
    let mut v: Vec<u8> = Vec::new();
    if n == 0 {
        v.push(48);
        assert(v@ =~= dec_rep(0));
        return v;
    }
    proof {
        lemma_dec_rep_aux(n as nat, Seq::<u8>::empty());
        assert(dec_rep_aux(n as nat, v@) =~= dec_rep(n as nat));
    }
    let mut m: usize = n;
    while m > 0
        invariant
            dec_rep_aux(m as nat, v@) == dec_rep(n as nat),
        decreases m,
    {
        let ghost v0 = v@;
        let d: u8 = (m % 10) as u8 + 48;
        v.insert(0, d);
        proof {
            assert(d == (48 + (m as nat) % 10) as u8);
            assert(v@ =~= seq![d] + v0);
        }
        m = m / 10;
    }
    v
}

/// The `.mpd` manifest suffix.
pub open spec fn mpd_suffix() -> Seq<u8> {
    ".mpd".spec_bytes()
}

/// The stripped request-target names an MPEG-DASH manifest.
pub open spec fn ends_with_mpd(path: Seq<u8>) -> bool {
    path.len() >= 4 && path.subrange(path.len() - 4, path.len() as int) == mpd_suffix()
}

/// Content-type of an MPEG-DASH manifest.
pub open spec fn ctype_dash() -> Seq<u8> {
    "application/dash+xml".spec_bytes()
}

/// Content-type of any other file.
pub open spec fn ctype_octet() -> Seq<u8> {
    "application/octet-stream".spec_bytes()
}

/// The content-type the response carries for the given stripped target.
pub open spec fn spec_content_type(path: Seq<u8>) -> Seq<u8> {
    if ends_with_mpd(path) {
        ctype_dash()
    } else {
        ctype_octet()
    }
}

/// Select the content-type: `application/dash+xml` exactly when the path ends
/// in `.mpd`, else `application/octet-stream`.
pub fn content_type_for(path: &Vec<u8>) -> (r: Vec<u8>)
    ensures
        r@ == spec_content_type(path@),
{
    proof {
        reveal_strlit(".mpd");
        assert(vstd::string::is_ascii(".mpd"));
        vstd::string::is_ascii_spec_bytes(".mpd");
        assert(mpd_suffix() =~= seq![46u8, 109u8, 112u8, 100u8]);
    }
    let n: usize = path.len();
    let is_mpd = n >= 4 && path[n - 4] == 46u8 && path[n - 3] == 109u8 && path[n - 2] == 112u8
        && path[n - 1] == 100u8;
    proof {
        if is_mpd {
            assert(path@.subrange(n - 4, n as int) =~= mpd_suffix());
        } else if n >= 4 {
            assert(path@.subrange(n - 4, n as int) != mpd_suffix()) by {
                if path@.subrange(n - 4, n as int) == mpd_suffix() {
                    assert(path@.subrange(n - 4, n as int)[0] == 46u8);
                    assert(path@.subrange(n - 4, n as int)[1] == 109u8);
                    assert(path@.subrange(n - 4, n as int)[2] == 112u8);
                    assert(path@.subrange(n - 4, n as int)[3] == 100u8);
                }
            }
        }
    }
    if is_mpd {
        bytes_of("application/dash+xml")
    } else {
        bytes_of("application/octet-stream")
    }
}

/// The content-type is `application/dash+xml` exactly when the stripped
/// target ends in `.mpd`, and `application/octet-stream` exactly otherwise.
pub proof fn lemma_content_type_selection(path: Seq<u8>)
    ensures
        (spec_content_type(path) == ctype_dash()) <==> ends_with_mpd(path),
        (spec_content_type(path) == ctype_octet()) <==> !ends_with_mpd(path),
{
    reveal_strlit("application/dash+xml");
    reveal_strlit("application/octet-stream");
    assert(vstd::string::is_ascii("application/dash+xml"));
    assert(vstd::string::is_ascii("application/octet-stream"));
    vstd::string::is_ascii_spec_bytes("application/dash+xml");
    vstd::string::is_ascii_spec_bytes("application/octet-stream");
    assert(ctype_dash().len() == 20);
    assert(ctype_octet().len() == 24);
}

/// Bytes of the full 200 response for a file `body` served under the stripped
/// target `path`, with the configured CORS origin: status line, the three
/// headers each ended by `\r\n`, a blank line, then the raw file bytes.
pub open spec fn spec_ok_response(origin: Seq<u8>, path: Seq<u8>, body: Seq<u8>) -> Seq<u8> {
    "HTTP/1.1 200 OK\r\nAccess-Control-Allow-Origin: ".spec_bytes() + origin
        + "\r\nContent-type: ".spec_bytes() + spec_content_type(path)
        + "\r\nContent-Length: ".spec_bytes() + dec_rep(body.len())
        + "\r\n\r\n".spec_bytes() + body
}

/// Build the 200 response for a file read in full.
pub fn build_ok_response(origin: &str, path: &Vec<u8>, body: &Vec<u8>) -> (r: Vec<u8>)
    ensures
        r@ == spec_ok_response(origin.spec_bytes(), path@, body@),
{
    let mut r = bytes_of("HTTP/1.1 200 OK\r\nAccess-Control-Allow-Origin: ");
    r.extend_from_slice(origin.as_bytes());
    r.extend_from_slice("\r\nContent-type: ".as_bytes());
    let ct = content_type_for(path);
    r.extend_from_slice(ct.as_slice());
    r.extend_from_slice("\r\nContent-Length: ".as_bytes());
    let len_bytes = decimal_bytes(body.len());
    r.extend_from_slice(len_bytes.as_slice());
    r.extend_from_slice("\r\n\r\n".as_bytes());
    r.extend_from_slice(body.as_slice());
    proof {
        assert(r@ =~= spec_ok_response(origin.spec_bytes(), path@, body@));
    }
    r
}

} // verus!
