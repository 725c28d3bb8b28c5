//! The handshake hasher: deriving the `Sec-WebSocket-Accept` value from
//! the client's key, and locating that key among the request's header
//! lines.

use vstd::prelude::*;
use vstd::string::StrSliceExecFns;
use vstd::string::StringExecFns;
use vstd::utf8::encode_utf8;

use sha1::Digest;

verus! {

/// The SHA-1 digest of a byte sequence, named but left uninterpreted:
/// the digest depends on the input bytes alone.
pub uninterp spec fn sha1_of(bytes: Seq<u8>) -> Seq<u8>;

/// The standard-alphabet, padded base64 encoding of a byte sequence,
/// named but left uninterpreted: the encoding depends on the input
/// bytes alone.
pub uninterp spec fn base64_of(bytes: Seq<u8>) -> Seq<char>;

/// Relies on sha1::Sha1 through its Digest trait: the one-shot SHA-1
/// digest of the input, always 20 bytes, a function of the input alone.
#[verifier::external_body]
fn sha1_digest(bytes: &[u8]) -> (r: Vec<u8>)
    ensures
        r@ == sha1_of(bytes@),
        r@.len() == 20,
{
    sha1::Sha1::digest(bytes).to_vec()
}

/// Relies on base64::encode: the standard-alphabet, padded base64
/// encoding of the input, a function of the input alone.
#[verifier::external_body]
fn base64_encode(bytes: &[u8]) -> (r: String)
    ensures
        r@ == base64_of(bytes@),
{
    base64::encode(bytes)
}

/// The fixed GUID that RFC 6455 appends to the client's key before
/// hashing.
pub open spec fn websocket_guid() -> Seq<char> {
    "258EAFA5-E914-47DA-95CA-C5AB0DC85B11"@
}

/// The accept value owed for a client key: the base64 encoding of the
/// SHA-1 digest of the UTF-8 bytes of the key followed by the fixed
/// GUID.
pub open spec fn spec_accept_value(key: Seq<char>) -> Seq<char> {
    base64_of(sha1_of(encode_utf8(key + websocket_guid())))
}

/// Derives the `Sec-WebSocket-Accept` value from the client's key.
/// Every input string is acceptable; there is no error path.
pub fn generate_hash(key: String) -> (r: String)
    ensures
        r@ == spec_accept_value(key@),
{
    let combined = key.concat("258EAFA5-E914-47DA-95CA-C5AB0DC85B11");
    let digest = sha1_digest(combined.as_str().as_bytes());
    base64_encode(digest.as_slice())
}

/// The header name that introduces the client's key.
pub open spec fn key_header_prefix() -> Seq<char> {
    "Sec-WebSocket-Key:"@
}

/// Whether a header line begins with the key header name.
pub open spec fn line_has_key(line: Seq<char>) -> bool {
    line.len() >= key_header_prefix().len() && line.subrange(
        0,
        key_header_prefix().len() as int,
    ) == key_header_prefix()
}

/// The blank characters removed from the front of a header value.
pub open spec fn is_blank(c: char) -> bool {
    c == ' ' || c == '\t'
}

/// A character sequence with its leading blanks removed.
pub open spec fn trim_leading(s: Seq<char>) -> Seq<char>
    decreases s.len(),
{
    if s.len() > 0 && is_blank(s[0]) {
        trim_leading(s.drop_first())
    } else {
        s
    }
}

/// The key carried by a header line that begins with the key header
/// name: the remainder of the line, with leading blanks removed.
pub open spec fn key_of_line(line: Seq<char>) -> Seq<char>
    recommends
        line_has_key(line),
{
    trim_leading(line.subrange(key_header_prefix().len() as int, line.len() as int))
}

/// The key of the first header line that carries one, if any does.
pub open spec fn spec_find_key(lines: Seq<Seq<char>>) -> Option<Seq<char>>
    decreases lines.len(),
{
    if lines.len() == 0 {
        None
    } else if line_has_key(lines[0]) {
        Some(key_of_line(lines[0]))
    } else {
        spec_find_key(lines.drop_first())
    }
}

/// Whether two string slices hold the same characters.
pub(crate) fn str_eq(a: &str, b: &str) -> (r: bool)
    ensures
        r == (a@ == b@),
{
    let alen = a.unicode_len();
    let blen = b.unicode_len();
    if alen != blen {
        return false;
    }
    let mut i: usize = 0;
    while i < alen
        invariant
            i <= alen,
            alen == a@.len(),
            alen == b@.len(),
            forall|j: int| 0 <= j < i ==> a@[j] == b@[j],
        decreases alen - i,
    {
        let ca = a.get_char(i);
        let cb = b.get_char(i);
        if ca != cb {
            return false;
        }
        i += 1;
    }
    proof {
        assert(a@ =~= b@);
    }
    true
}

/// Whether `s` begins with the characters of `p`.
fn has_prefix(s: &str, p: &str) -> (r: bool)
    ensures
        r == (s@.len() >= p@.len() && s@.subrange(0, p@.len() as int) == p@),
{
    let plen = p.unicode_len();
    let slen = s.unicode_len();
    if slen < plen {
        return false;
    }
    let mut i: usize = 0;
    while i < plen
        invariant
            i <= plen,
            plen == p@.len(),
            slen == s@.len(),
            slen >= plen,
            forall|j: int| 0 <= j < i ==> s@[j] == p@[j],
        decreases plen - i,
    {
        if s.get_char(i) != p.get_char(i) {
            proof {
                assert(s@.subrange(0, p@.len() as int)[i as int] == s@[i as int]);
            }
            return false;
        }
        i += 1;
    }
    proof {
        assert(s@.subrange(0, p@.len() as int) =~= p@);
    }
    true
}

fn is_blank_char(c: char) -> (r: bool)
    ensures
        r == is_blank(c),
{
    c == ' ' || c == '\t'
}

proof fn lemma_trim_leading_at(s: Seq<char>, k: int)
    requires
        0 <= k <= s.len(),
        forall|j: int| 0 <= j < k ==> is_blank(s[j]),
        k == s.len() || !is_blank(s[k]),
    ensures
        trim_leading(s) == s.subrange(k, s.len() as int),
    decreases k,
{
    if k == 0 {
        assert(s.subrange(0, s.len() as int) =~= s);
    } else {
        let t = s.drop_first();
        assert forall|j: int| 0 <= j < k - 1 implies is_blank(t[j]) by {
            assert(t[j] == s[j + 1]);
        }
        if k < s.len() {
            assert(t[k - 1] == s[k]);
        }
        lemma_trim_leading_at(t, k - 1);
        assert(t.subrange(k - 1, t.len() as int) =~= s.subrange(k, s.len() as int));
    }
}

/// Removes the leading blanks from a header value.
fn trim_start_blanks(s: &str) -> (r: String)
    ensures
        r@ == trim_leading(s@),
{
    let n = s.unicode_len();
    let mut i: usize = 0;
    while i < n && is_blank_char(s.get_char(i))
        invariant
            i <= n,
            n == s@.len(),
            forall|j: int| 0 <= j < i ==> is_blank(s@[j]),
        decreases n - i,
    {
        i += 1;
    }
    let rest = s.substring_char(i, n);
    proof {
        lemma_trim_leading_at(s@, i as int);
    }
    rest.to_owned()
}

/// Finds the client's key among the request's header lines.
///
/// The first line beginning with `Sec-WebSocket-Key:` yields its
/// remainder with leading blanks removed; when no line begins so, there
/// is no key.
pub fn find_websocket_key(request: Vec<String>) -> (r: Option<String>)
    ensures
        r matches Some(k) ==> spec_find_key(request@.map_values(|s: String| s@)) == Some(k@),
        r is None ==> spec_find_key(request@.map_values(|s: String| s@)) is None,
{
    let ghost lines = request@.map_values(|s: String| s@);
    proof {
        assert(lines.skip(0) =~= lines);
    }
    let mut idx: usize = 0;
    while idx < request.len()
        invariant
            idx <= request@.len(),
            lines == request@.map_values(|s: String| s@),
            lines.len() == request@.len(),
            spec_find_key(lines) == spec_find_key(lines.skip(idx as int)),
        decreases request@.len() - idx,
    {
        let h: &String = &request[idx];
        proof {
            assert(lines[idx as int] == h@);
        }
        if has_prefix(h.as_str(), "Sec-WebSocket-Key:") {
            let hs = h.as_str();
            let plen = "Sec-WebSocket-Key:".unicode_len();
            let val = trim_start_blanks(hs.substring_char(plen, hs.unicode_len()));
            proof {
                assert(lines.skip(idx as int)[0] == lines[idx as int]);
                assert(spec_find_key(lines.skip(idx as int)) == Some(key_of_line(lines[idx as int])));
            }
            return Some(val);
        }
        proof {
            assert(lines.skip(idx as int)[0] == lines[idx as int]);
            assert(lines.skip(idx as int).drop_first() =~= lines.skip(idx as int + 1));
        }
        idx += 1;
    }
    proof {
        assert(lines.skip(idx as int) =~= Seq::<Seq<char>>::empty());
    }
    None
}

} // verus!
