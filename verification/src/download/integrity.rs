//! Integrity of a finished transfer: its size and its digest.
//!
//! SHA-1 is supported because Mojang metadata publishes it for many artifacts;
//! SHA-256 is available for other integrity records. Hashes detect corruption
//! but do not authenticate an untrusted source.

use sha2::Digest;
use vstd::prelude::*;

use super::plan::Checksum;
use super::DownloadError;
use crate::text::{chars_of, decimal_string, decimal_text, lower_chars, lower_seq, chars_equal};

verus! {

/// A running SHA-1 computation, holding a `sha1::Sha1` opaquely.
#[verifier::external_body]
pub struct Sha1State {
    hasher: sha1::Sha1,
}

/// A running SHA-256 computation, holding a `sha2::Sha256` opaquely.
#[verifier::external_body]
pub struct Sha256State {
    hasher: sha2::Sha256,
}

/// The bytes fed so far to a SHA-1 computation.
pub uninterp spec fn sha1_fed(h: Sha1State) -> Seq<u8>;

/// The bytes fed so far to a SHA-256 computation.
pub uninterp spec fn sha256_fed(h: Sha256State) -> Seq<u8>;

/// The SHA-1 digest of a byte sequence.
pub uninterp spec fn sha1_of(data: Seq<u8>) -> Seq<u8>;

/// The SHA-256 digest of a byte sequence.
pub uninterp spec fn sha256_of(data: Seq<u8>) -> Seq<u8>;

/// Starts a SHA-1 computation (`sha1::Sha1::new`): nothing has been fed.
#[verifier::external_body]
fn sha1_start() -> (h: Sha1State)
    ensures
        sha1_fed(h) == Seq::<u8>::empty(),
{
    Sha1State { hasher: sha1::Sha1::new() }
}

/// Feeds bytes to a SHA-1 computation (`Digest::update`): they are appended
/// to what was fed before.
#[verifier::external_body]
fn sha1_feed(h: &mut Sha1State, data: &[u8])
    ensures
        sha1_fed(*final(h)) == sha1_fed(*old(h)) + data@,
{
    h.hasher.update(data)
}

/// Ends a SHA-1 computation (`Digest::finalize`): the 20-byte digest of all
/// bytes fed.
#[verifier::external_body]
fn sha1_finish(h: Sha1State) -> (r: Vec<u8>)
    ensures
        r@ == sha1_of(sha1_fed(h)),
        r@.len() == 20,
{
    h.hasher.finalize().to_vec()
}

/// Starts a SHA-256 computation (`sha2::Sha256::new`): nothing has been fed.
#[verifier::external_body]
fn sha256_start() -> (h: Sha256State)
    ensures
        sha256_fed(h) == Seq::<u8>::empty(),
{
    Sha256State { hasher: sha2::Sha256::new() }
}

/// Feeds bytes to a SHA-256 computation (`Digest::update`): they are appended
/// to what was fed before.
#[verifier::external_body]
fn sha256_feed(h: &mut Sha256State, data: &[u8])
    ensures
        sha256_fed(*final(h)) == sha256_fed(*old(h)) + data@,
{
    h.hasher.update(data)
}

/// Ends a SHA-256 computation (`Digest::finalize`): the 32-byte digest of all
/// bytes fed.
#[verifier::external_body]
fn sha256_finish(h: Sha256State) -> (r: Vec<u8>)
    ensures
        r@ == sha256_of(sha256_fed(h)),
        r@.len() == 32,
{
    h.hasher.finalize().to_vec()
}

/// Lower-case hexadecimal digit for a value below 16.
pub open spec fn hex_digit(v: nat) -> char {
    if v < 10 {
        ((v + 48) as u32) as char
    } else {
        ((v + 87) as u32) as char
    }
}

/// Lower-case hexadecimal text of bytes, two digits per byte, high nibble first.
pub open spec fn hex_lower(data: Seq<u8>) -> Seq<char>
    decreases data.len(),
{
    if data.len() == 0 {
        Seq::empty()
    } else {
        hex_lower(data.drop_last()) + seq![
            hex_digit((data.last() / 16) as nat),
            hex_digit((data.last() % 16) as nat),
        ]
    }
}

/// Encodes bytes as lower-case hexadecimal text (`hex::encode`, documented as
/// using lowercase characters).
#[verifier::external_body]
fn hex_encode(data: &[u8]) -> (r: String)
    ensures
        r@ == hex_lower(data@),
{
    hex::encode(data)
}

/// The digest algorithms a checksum may name.
#[derive(Debug, Clone, Copy, PartialEq, Eq, Structural)]
pub enum DigestAlgorithm {
    Sha1,
    Sha256,
}

/// The lower-case hexadecimal digest of `data` under `algorithm`.
pub open spec fn digest_hex(algorithm: DigestAlgorithm, data: Seq<u8>) -> Seq<char> {
    match algorithm {
        DigestAlgorithm::Sha1 => hex_lower(sha1_of(data)),
        DigestAlgorithm::Sha256 => hex_lower(sha256_of(data)),
    }
}

impl Checksum {
    /// The algorithm the checksum names.
    pub open spec fn algorithm(self) -> DigestAlgorithm {
        match self {
            Checksum::Sha1(_) => DigestAlgorithm::Sha1,
            Checksum::Sha256(_) => DigestAlgorithm::Sha256,
        }
    }
}

/// A streaming digest of a file's bytes, for the algorithm a checksum names.
pub enum Digester {
    Sha1(Sha1State),
    Sha256(Sha256State),
}

impl Digester {
    pub open spec fn algorithm(&self) -> DigestAlgorithm {
        match self {
            Digester::Sha1(_) => DigestAlgorithm::Sha1,
            Digester::Sha256(_) => DigestAlgorithm::Sha256,
        }
    }

    /// The bytes fed so far.
    pub open spec fn fed(&self) -> Seq<u8> {
        match self {
            Digester::Sha1(h) => sha1_fed(*h),
            Digester::Sha256(h) => sha256_fed(*h),
        }
    }

    /// A digest for the algorithm of `checksum`, with nothing fed yet.
    pub fn for_checksum(checksum: &Checksum) -> (d: Digester)
        ensures
            d.algorithm() == checksum.algorithm(),
            d.fed() == Seq::<u8>::empty(),
    {
        match checksum {
            Checksum::Sha1(_) => Digester::Sha1(sha1_start()),
            Checksum::Sha256(_) => Digester::Sha256(sha256_start()),
        }
    }

    /// Feeds the next bytes of the file.
    pub fn update(&mut self, data: &[u8])
        ensures
            final(self).algorithm() == old(self).algorithm(),
            final(self).fed() == old(self).fed() + data@,
    {
        match self {
            Digester::Sha1(h) => sha1_feed(h, data),
            Digester::Sha256(h) => sha256_feed(h, data),
        }
    }

    /// The lower-case hexadecimal digest of everything fed.
    pub fn finish_hex(self) -> (r: String)
        ensures
            r@ == digest_hex(self.algorithm(), self.fed()),
    {
        match self {
            Digester::Sha1(h) => {
                let bytes = sha1_finish(h);
                hex_encode(bytes.as_slice())
            },
            Digester::Sha256(h) => {
                let bytes = sha256_finish(h);
                hex_encode(bytes.as_slice())
            },
        }
    }
}

/// The reason a size check fails.
pub open spec fn size_reason(expected: u64, actual: u64) -> Seq<char> {
    "expected "@ + decimal_text(expected as nat) + " bytes, received "@ + decimal_text(actual as nat)
}

/// Checks a file's size against the expected size, when one is known.
pub fn check_size(path: &str, actual: u64, expected: Option<u64>) -> (r: Result<(), DownloadError>)
    ensures
        match expected {
            Some(e) if e != actual => r matches Err(DownloadError::Integrity { path: p, reason })
                && p@ == path@ && reason@ == size_reason(e, actual),
            _ => r is Ok,
        },
{
    match expected {
        Some(e) => {
            if e != actual {
                let mut reason = String::from_str("expected ");
                let a = decimal_string(e);
                reason.append(a.as_str());
                reason.append(" bytes, received ");
                let b = decimal_string(actual);
                reason.append(b.as_str());
                return Err(DownloadError::Integrity { path: String::from_str(path), reason });
            }
            Ok(())
        },
        None => Ok(()),
    }
}

/// Whether two texts are equal ignoring ASCII case (`str::eq_ignore_ascii_case`).
pub open spec fn eq_ignore_ascii_case(a: Seq<char>, b: Seq<char>) -> bool {
    lower_seq(a) == lower_seq(b)
}

/// The reason a digest check fails.
pub open spec fn digest_reason(expected: Seq<char>, actual: Seq<char>) -> Seq<char> {
    "checksum mismatch (expected "@ + expected + ", got "@ + actual + ")"@
}

/// Checks a computed hexadecimal digest against the checksum's, ignoring case.
pub fn check_digest(path: &str, checksum: &Checksum, actual: &str) -> (r: Result<(), DownloadError>)
    ensures
        eq_ignore_ascii_case(actual@, checksum.digest_view()) ==> r is Ok,
        !eq_ignore_ascii_case(actual@, checksum.digest_view()) ==> (r matches Err(
            DownloadError::Integrity { path: p, reason },
        ) && p@ == path@ && reason@ == digest_reason(checksum.digest_view(), actual@)),
{
    let expected: &String = match checksum {
        Checksum::Sha1(v) => v,
        Checksum::Sha256(v) => v,
    };
    let a = lower_chars(&chars_of(actual));
    let b = lower_chars(&chars_of(expected.as_str()));
    if chars_equal(&a, &b) {
        Ok(())
    } else {
        let mut reason = String::from_str("checksum mismatch (expected ");
        reason.append(expected.as_str());
        reason.append(", got ");
        reason.append(actual);
        reason.append(")");
        Err(DownloadError::Integrity { path: String::from_str(path), reason })
    }
}

} // verus!
