//! Content negotiation: whether to compress a response body.
//!
//! A client that lists the gzip token (in any letter case) or a wildcard in
//! its `Accept-Encoding` header gets the body compressed at the fast level;
//! anyone else gets it unchanged.  Compression never fails a request: an
//! encoder error would fall back to the uncompressed body, though encoding
//! into a growable buffer reports none, so an asked-for compression is owed.

use std::io::Write;

use vstd::prelude::*;

verus! {

/// ASCII lower-casing of one byte: letters fold, everything else stays.
pub open spec fn lower_byte(b: u8) -> u8 {
    if 65 <= b && b <= 90 {
        (b + 32) as u8
    } else {
        b
    }
}

/// The four bytes of the compression token, `gzip`, start at position `i`
/// of `s` once letter case is folded.
pub open spec fn token_at(s: Seq<u8>, i: int) -> bool {
    &&& 0 <= i
    &&& i + 4 <= s.len()
    &&& lower_byte(s[i]) == 103
    &&& lower_byte(s[i + 1]) == 122
    &&& lower_byte(s[i + 2]) == 105
    &&& lower_byte(s[i + 3]) == 112
}

/// An `Accept-Encoding` value asks for gzip when it holds the token in any
/// letter case, or a `*` wildcard.
pub open spec fn accepts_gzip(s: Seq<u8>) -> bool {
    ||| exists|i: int| token_at(s, i)
    ||| exists|i: int| 0 <= i < s.len() && s[i] == 42u8
}

/// A request wants gzip when it sent an `Accept-Encoding` header that
/// accepts it.
pub open spec fn wants_gzip(ae: Option<Seq<u8>>) -> bool {
    ae matches Some(h) && accepts_gzip(h)
}

/// Folds one byte to lower case.
fn lower(b: u8) -> (r: u8)
    ensures
        r == lower_byte(b),
{
    if 65 <= b && b <= 90 {
        b + 32
    } else {
        b
    }
}

/// Decides whether an `Accept-Encoding` value asks for gzip: a
/// case-insensitive scan for the token or a wildcard.
pub fn header_accepts_gzip(h: &[u8]) -> (r: bool)
    ensures
        r == accepts_gzip(h@),
{
    let n: usize = h.len();
    let mut i: usize = 0;
    while i < n
        invariant
            i <= n,
            n == h@.len(),
            forall|j: int| 0 <= j < i ==> h@[j] != 42u8,
            forall|j: int| 0 <= j < i ==> !token_at(h@, j),
        decreases n - i,
    {
        if h[i] == 42 {
            return true;
        }
        if n - i >= 4 && lower(h[i]) == 103 && lower(h[i + 1]) == 122 && lower(h[i + 2]) == 105
            && lower(h[i + 3]) == 112 {
            assert(token_at(h@, i as int));
            return true;
        }
        i = i + 1;
    }
    assert(forall|j: int| token_at(h@, j) ==> 0 <= j < n);
    false
}

/// The gzip stream that flate2's encoder produces at the fast compression
/// level for a given input.
pub uninterp spec fn gzip_fast_of(data: Seq<u8>) -> Seq<u8>;

/// Relies on flate2's `write::GzEncoder` with `Compression::fast`: its
/// output is a function of the input bytes alone (the header it writes has
/// a zero timestamp and a fixed operating-system byte, for reproducible
/// streams), so an encode returns exactly that stream.  Encoding into a
/// growable buffer succeeds on every input: writes into a `Vec` sink are
/// infallible, and the deflate stream at a fixed valid level reports no
/// error, so the result is always `Some`.
#[verifier::external_body]
fn gzip_fast(data: &[u8]) -> (r: Option<Vec<u8>>)
    ensures
        r is Some,
        r matches Some(v) ==> v@ == gzip_fast_of(data@),
{
    let mut enc = flate2::write::GzEncoder::new(Vec::new(), flate2::Compression::fast());
    if enc.write_all(data).is_err() {
        return None;
    }
    match enc.finish() {
        Ok(buf) => Some(buf),
        Err(_) => None,
    }
}

/// A response body ready for the HTTP boundary: the bytes to send and
/// whether a `Content-Encoding: gzip` header must accompany them.
pub struct Delivery {
    /// The bytes to send.
    pub body: Vec<u8>,
    /// Whether the body is the gzip stream of the payload.
    pub gzipped: bool,
}

/// Packages a body from what the encoder came back with: a request that
/// asked for gzip and got a compressed stream sends that stream, marked;
/// everyone else sends the payload byte-identical, unmarked.
pub fn deliver(wants_it: bool, payload: Vec<u8>, compressed: Option<Vec<u8>>) -> (d: Delivery)
    ensures
        wants_it ==> (compressed matches Some(c) ==> d.gzipped && d.body@ == c@),
        !wants_it || compressed is None ==> !d.gzipped && d.body@ == payload@,
{
    if wants_it {
        match compressed {
            Some(c) => Delivery { body: c, gzipped: true },
            None => Delivery { body: payload, gzipped: false },
        }
    } else {
        Delivery { body: payload, gzipped: false }
    }
}

/// Chooses the body actually sent for `payload`, given the request's
/// `Accept-Encoding` value if it sent one.  A request that does not accept
/// gzip gets the payload byte-identical; one that does gets the gzip stream
/// of the payload.  Were the encoder ever to report an error, the body
/// would fall back to the payload unchanged, but encoding into a growable
/// buffer does not fail, so compression is owed whenever it is asked for.
pub fn negotiate(accept_encoding: Option<&[u8]>, payload: Vec<u8>) -> (d: Delivery)
    ensures
        d.gzipped ==> d.body@ == gzip_fast_of(payload@),
        !d.gzipped ==> d.body@ == payload@,
        wants_gzip(match accept_encoding {
            Some(h) => Some(h@),
            None => None,
        }) == d.gzipped,
{
    let wants_it = match accept_encoding {
        Some(h) => header_accepts_gzip(h),
        None => false,
    };
    let compressed = if wants_it {
        gzip_fast(payload.as_slice())
    } else {
        None
    };
    deliver(wants_it, payload, compressed)
}

} // verus!
