//! Checksums of what is downloaded: SHA-256, written in hexadecimal digits.
//!
//! The digest is computed by `sha2` and written by `hex`; what is said of the
//! two here is taken on trust.

use vstd::prelude::*;

use crate::error::{PristError, Result};
use crate::text::{opt_str, same};

verus! {

/// A SHA-256 computation of `sha2`.
#[verifier::external_type_specification]
#[verifier::external_body]
pub struct ExSha256(sha2::Sha256);

/// The bytes that a computation has been given so far.
pub uninterp spec fn absorbed(hasher: sha2::Sha256) -> Seq<u8>;

/// The SHA-256 digest of some bytes.
pub uninterp spec fn sha256(data: Seq<u8>) -> Seq<u8>;

/// The number of bytes of which `sha2` can count the bits.
pub open spec fn digestible(len: nat) -> bool {
    len < 0x2000_0000_0000_0000
}

/// `sha2::Digest::new`: a computation that has been given nothing.
#[verifier::external_body]
fn hasher() -> (r: sha2::Sha256)
    ensures
        absorbed(r) == Seq::<u8>::empty(),
{
    sha2::Digest::new()
}

/// `sha2::Digest::update`: the bytes come after those given before.
#[verifier::external_body]
fn update(hasher: &mut sha2::Sha256, chunk: &[u8])
    ensures
        absorbed(*final(hasher)) == absorbed(*old(hasher)) + chunk@,
{
    sha2::Digest::update(hasher, chunk);
}

/// `sha2::Digest::finalize`: the digest, of 32 bytes, of all bytes given. Their
/// number of bits must fit in 64 bits.
#[verifier::external_body]
fn finalize(hasher: sha2::Sha256) -> (r: Vec<u8>)
    requires
        digestible(absorbed(hasher).len()),
    ensures
        r@ == sha256(absorbed(hasher)),
        r@.len() == 32,
{
    sha2::Digest::finalize(hasher).to_vec()
}

/// The hexadecimal digit for a number below 16, in lower case.
pub open spec fn hex_char(n: int) -> char {
    if n < 10 {
        (48 + n) as char
    } else {
        (87 + n) as char
    }
}

/// The hexadecimal digits of some bytes: two for each byte, the higher first.
pub open spec fn hex_text(data: Seq<u8>) -> Seq<char> {
    Seq::new(
        2 * data.len(),
        |i: int|
            if i % 2 == 0 {
                hex_char(data[i / 2] as int / 16)
            } else {
                hex_char(data[i / 2] as int % 16)
            },
    )
}

/// `hex::encode`: two hexadecimal digits in lower case for each byte.
#[verifier::external_body]
fn hex_encode(data: &Vec<u8>) -> (r: String)
    requires
        2 * data@.len() <= isize::MAX,
    ensures
        r@ == hex_text(data@),
{
    hex::encode(data)
}

/// The checksum of some bytes, as it is written.
pub open spec fn checksum_text(data: Seq<u8>) -> Seq<char> {
    hex_text(sha256(data))
}

/// The checksum of a download, computed while it arrives in pieces.
pub struct Checksum {
    hasher: sha2::Sha256,
}

impl View for Checksum {
    type V = Seq<u8>;

    /// The bytes that have arrived.
    closed spec fn view(&self) -> Seq<u8> {
        absorbed(self.hasher)
    }
}

impl Checksum {
    /// A checksum of nothing yet.
    pub fn new() -> (r: Self)
        ensures
            r@ == Seq::<u8>::empty(),
    {
        Checksum { hasher: hasher() }
    }

    /// Take in the next piece.
    pub fn absorb(&mut self, chunk: &[u8])
        ensures
            final(self)@ == old(self)@ + chunk@,
    {
        update(&mut self.hasher, chunk);
    }

    /// The checksum of all that has arrived. It does not depend on the pieces.
    pub fn finish(self) -> (r: String)
        requires
            digestible(self@.len()),
        ensures
            r@ == checksum_text(self@),
    {
        let digest = finalize(self.hasher);
        hex_encode(&digest)
    }
}

/// What is said of a download whose checksum is wrong.
pub open spec fn mismatch(what: Seq<char>, expected: Seq<char>, got: Seq<char>) -> Seq<char> {
    "checksum mismatch for "@ + what + ": expected "@ + expected + ", got "@ + got
}

/// Whether the checksum `got` is the one that is expected, if one is.
pub fn check(what: &str, expected: Option<&str>, got: &str) -> (r: Result<()>)
    ensures
        match (r, opt_str(expected)) {
            (Ok(_), None) => true,
            (Ok(_), Some(e)) => e == got@,
            (Err(PristError::Other(m)), Some(e)) => e != got@ && m@ == mismatch(what@, e, got@),
            (Err(_), _) => false,
        },
{
    match expected {
        Some(e) => if same(e, got) {
            Ok(())
        } else {
            Err(
                PristError::msg(
                    "checksum mismatch for ".to_string().concat(what).concat(": expected ").concat(
                        e,
                    ).concat(", got ").concat(got),
                ),
            )
        },
        None => Ok(()),
    }
}

/// Whether `bytes` have the checksum that is expected, if one is.
pub fn verify(what: &str, expected: Option<&str>, bytes: &[u8]) -> (r: Result<()>)
    requires
        digestible(bytes@.len()),
    ensures
        match (r, opt_str(expected)) {
            (Ok(_), None) => true,
            (Ok(_), Some(e)) => e == checksum_text(bytes@),
            (Err(PristError::Other(m)), Some(e)) => e != checksum_text(bytes@) && m@ == mismatch(
                what@,
                e,
                checksum_text(bytes@),
            ),
            (Err(_), _) => false,
        },
{
    match expected {
        None => Ok(()),
        Some(e) => {
            let mut sum = Checksum::new();
            sum.absorb(bytes);
            assert(sum@ =~= bytes@);
            let got = sum.finish();
            check(what, Some(e), got.as_str())
        },
    }
}

/// A checksum is written with two digits for each byte, the higher first, each of them one of
/// the sixteen in order of value.
pub proof fn law_bytes_are_written_in_hex(data: Seq<u8>, i: int)
    requires
        0 <= i < data.len(),
    ensures
        hex_text(data).len() == 2 * data.len(),
        hex_text(data)[2 * i] == "0123456789abcdef"@[data[i] as int / 16],
        hex_text(data)[2 * i + 1] == "0123456789abcdef"@[data[i] as int % 16],
{
    reveal_strlit("0123456789abcdef");
    let d = "0123456789abcdef"@;
    let hi = data[i] as int / 16;
    let lo = data[i] as int % 16;
    assert(0 <= hi < 16 && 0 <= lo < 16);
    lemma_hex_char(hi);
    lemma_hex_char(lo);
    assert((2 * i) % 2 == 0 && (2 * i) / 2 == i);
    assert((2 * i + 1) % 2 == 1 && (2 * i + 1) / 2 == i);
}

/// The digit for a number below sixteen.
proof fn lemma_hex_char(n: int)
    requires
        0 <= n < 16,
    ensures
        hex_char(n) == "0123456789abcdef"@[n],
{
    reveal_strlit("0123456789abcdef");
}

/// Two downloads are told apart by their checksums exactly where their digests differ.
pub proof fn law_checksums_tell_digests_apart(a: Seq<u8>, b: Seq<u8>)
    requires
        sha256(a).len() == sha256(b).len(),
    ensures
        checksum_text(a) == checksum_text(b) <==> sha256(a) == sha256(b),
{
    let x = sha256(a);
    let y = sha256(b);
    if checksum_text(a) == checksum_text(b) {
        assert forall|i: int| 0 <= i < x.len() implies x[i] == y[i] by {
            law_bytes_are_written_in_hex(x, i);
            law_bytes_are_written_in_hex(y, i);
            reveal_strlit("0123456789abcdef");
            lemma_hex_char_distinct(x[i] as int / 16, y[i] as int / 16);
            lemma_hex_char_distinct(x[i] as int % 16, y[i] as int % 16);
        }
        assert(x =~= y);
    }
}

/// Different numbers have different digits.
proof fn lemma_hex_char_distinct(a: int, b: int)
    requires
        0 <= a < 16,
        0 <= b < 16,
        "0123456789abcdef"@[a] == "0123456789abcdef"@[b],
    ensures
        a == b,
{
    lemma_hex_char(a);
    lemma_hex_char(b);
}

} // verus!
