use vstd::prelude::*;

use sha2::{Digest, Sha256};

verus! {

/// The SHA-256 digest of a byte sequence.
pub uninterp spec fn sha256_of(data: Seq<u8>) -> Seq<u8>;

/// Relies on sha2's `Sha256::digest`: the 32-byte SHA-256 digest of `data`.
#[verifier::external_body]
fn sha256_digest(data: &Vec<u8>) -> (r: Vec<u8>)
    ensures
        r@ == sha256_of(data@),
        r@.len() == 32,
{
    Sha256::digest(data.as_slice()).to_vec()
}

/// The lowercase hexadecimal digit for a value below 16.
pub open spec fn hex_digit(n: int) -> char {
    seq!['0', '1', '2', '3', '4', '5', '6', '7', '8', '9', 'a', 'b', 'c', 'd', 'e', 'f'][n]
}

/// Each byte as two lowercase hexadecimal digits, high half first.
pub open spec fn hex_text(b: Seq<u8>) -> Seq<char>
    decreases b.len(),
{
    if b.len() == 0 {
        Seq::empty()
    } else {
        hex_text(b.drop_last()) + seq![hex_digit(b.last() as int / 16), hex_digit(b.last() as int % 16)]
    }
}

/// Relies on `hex::encode`: two lowercase hexadecimal digits per byte, in order.
#[verifier::external_body]
fn hex_encode(b: &Vec<u8>) -> (r: String)
    ensures
        r@ == hex_text(b@),
{
    hex::encode(b)
}

/// The fingerprint of a build script's content: its SHA-256 digest in lowercase hex.
pub open spec fn fingerprint_of(content: Seq<u8>) -> Seq<char> {
    hex_text(sha256_of(content))
}

/// Computes the fingerprint of a build script from its raw bytes.
pub fn hash_build_file(content: &Vec<u8>) -> (r: String)
    ensures
        r@ == fingerprint_of(content@),
        r@.len() == 64,
{
    let digest = sha256_digest(content);
    proof {
        lemma_hex_text_len(digest@);
    }
    hex_encode(&digest)
}

/// Whitespace as `char::is_whitespace` has it: the Unicode `White_Space` property.
pub open spec fn is_whitespace(c: char) -> bool {
    ||| ('\u{9}' <= c && c <= '\u{d}')
    ||| c == ' '
    ||| c == '\u{85}'
    ||| c == '\u{a0}'
    ||| c == '\u{1680}'
    ||| ('\u{2000}' <= c && c <= '\u{200a}')
    ||| c == '\u{2028}'
    ||| c == '\u{2029}'
    ||| c == '\u{202f}'
    ||| c == '\u{205f}'
    ||| c == '\u{3000}'
}

/// `s` without its leading whitespace.
pub open spec fn trim_front(s: Seq<char>) -> Seq<char>
    decreases s.len(),
{
    if s.len() > 0 && is_whitespace(s[0]) {
        trim_front(s.subrange(1, s.len() as int))
    } else {
        s
    }
}

/// `s` without its trailing whitespace.
pub open spec fn trim_back(s: Seq<char>) -> Seq<char>
    decreases s.len(),
{
    if s.len() > 0 && is_whitespace(s.last()) {
        trim_back(s.drop_last())
    } else {
        s
    }
}

/// `s` without leading and trailing whitespace.
pub open spec fn trimmed(s: Seq<char>) -> Seq<char> {
    trim_back(trim_front(s))
}

/// Relies on `str::trim`: the text without leading and trailing whitespace.
#[verifier::external_body]
fn trim_text(s: &str) -> (r: &str)
    ensures
        r@ == trimmed(s@),
{
    s.trim()
}

/// The build script must be compiled again: there is no readable cache record, or the
/// record, with surrounding whitespace removed, is not the current fingerprint.
pub open spec fn is_stale(record: Option<Seq<char>>, fingerprint: Seq<char>) -> bool {
    match record {
        None => true,
        Some(t) => trimmed(t) != fingerprint,
    }
}

/// The text of a cache record that could be read, if any.
pub open spec fn record_text(record: Option<String>) -> Option<Seq<char>> {
    match record {
        None => None,
        Some(t) => Some(t@),
    }
}

/// Decides whether the build script must be compiled again. `record` is the content of the
/// cache record, or `None` where it could not be read: that counts as stale, never as an error.
pub fn should_rebuild(record: &Option<String>, current_hash: &str) -> (r: bool)
    ensures
        r == is_stale(record_text(*record), current_hash@),
{
    match record {
        None => true,
        Some(t) => !crate::path::same_text(trim_text(t.as_str()), current_hash),
    }
}

pub proof fn lemma_hex_text_len(b: Seq<u8>)
    ensures
        hex_text(b).len() == 2 * b.len(),
    decreases b.len(),
{
    if b.len() > 0 {
        lemma_hex_text_len(b.drop_last());
    }
}

/// The value of a lowercase hexadecimal digit.
pub open spec fn hex_value(c: char) -> int {
    if c == '0' { 0 }
    else if c == '1' { 1 }
    else if c == '2' { 2 }
    else if c == '3' { 3 }
    else if c == '4' { 4 }
    else if c == '5' { 5 }
    else if c == '6' { 6 }
    else if c == '7' { 7 }
    else if c == '8' { 8 }
    else if c == '9' { 9 }
    else if c == 'a' { 10 }
    else if c == 'b' { 11 }
    else if c == 'c' { 12 }
    else if c == 'd' { 13 }
    else if c == 'e' { 14 }
    else { 15 }
}

pub proof fn lemma_hex_digit(n: int)
    requires
        0 <= n < 16,
    ensures
        hex_value(hex_digit(n)) == n,
        !is_whitespace(hex_digit(n)),
{
    assert(0 <= n < 16);
}

pub proof fn lemma_hex_text_injective(a: Seq<u8>, b: Seq<u8>)
    requires
        hex_text(a) == hex_text(b),
    ensures
        a == b,
    decreases a.len(),
{
    lemma_hex_text_len(a);
    lemma_hex_text_len(b);
    if a.len() > 0 {
        let ha = hex_text(a);
        let n = ha.len();
        let pa = hex_text(a.drop_last());
        let pb = hex_text(b.drop_last());
        lemma_hex_text_len(a.drop_last());
        lemma_hex_text_len(b.drop_last());
        assert(ha[n - 2] == hex_digit(a.last() as int / 16));
        assert(ha[n - 1] == hex_digit(a.last() as int % 16));
        assert(hex_text(b)[n - 2] == hex_digit(b.last() as int / 16));
        assert(hex_text(b)[n - 1] == hex_digit(b.last() as int % 16));
        lemma_hex_digit(a.last() as int / 16);
        lemma_hex_digit(a.last() as int % 16);
        lemma_hex_digit(b.last() as int / 16);
        lemma_hex_digit(b.last() as int % 16);
        assert(a.last() == b.last());
        assert(pa =~= ha.subrange(0, n - 2));
        assert(pb =~= hex_text(b).subrange(0, n - 2));
        lemma_hex_text_injective(a.drop_last(), b.drop_last());
        assert(a =~= a.drop_last().push(a.last()));
        assert(b =~= b.drop_last().push(b.last()));
    }
}

pub proof fn lemma_hex_text_no_whitespace(b: Seq<u8>)
    ensures
        forall|i: int| 0 <= i < hex_text(b).len() ==> !is_whitespace(#[trigger] hex_text(b)[i]),
    decreases b.len(),
{
    if b.len() > 0 {
        lemma_hex_text_no_whitespace(b.drop_last());
        lemma_hex_text_len(b.drop_last());
        lemma_hex_digit(b.last() as int / 16);
        lemma_hex_digit(b.last() as int % 16);
        let p = hex_text(b.drop_last());
        assert forall|i: int| 0 <= i < hex_text(b).len() implies !is_whitespace(#[trigger] hex_text(b)[i]) by {
            if i < p.len() {
                assert(hex_text(b)[i] == p[i]);
            }
        }
    }
}

/// A fingerprint is its own trimmed form: written out as a cache record and read back,
/// it matches the fingerprint it came from.
pub proof fn lemma_fingerprint_trims_to_itself(content: Seq<u8>)
    ensures
        trimmed(fingerprint_of(content)) == fingerprint_of(content),
{
    let f = fingerprint_of(content);
    lemma_hex_text_no_whitespace(sha256_of(content));
    if f.len() > 0 {
        assert(!is_whitespace(f[0]));
        assert(!is_whitespace(f.last()));
    }
    assert(trim_front(f) == f);
}

/// Fingerprinting depends on the content alone, and two contents with the same
/// fingerprint have the same SHA-256 digest: distinct contents get distinct fingerprints
/// unless their digests collide.
pub proof fn lemma_fingerprint_content_only(a: Seq<u8>, b: Seq<u8>)
    ensures
        a == b ==> fingerprint_of(a) == fingerprint_of(b),
        fingerprint_of(a) == fingerprint_of(b) ==> sha256_of(a) == sha256_of(b),
{
    if fingerprint_of(a) == fingerprint_of(b) {
        lemma_hex_text_injective(sha256_of(a), sha256_of(b));
    }
}

} // verus!
