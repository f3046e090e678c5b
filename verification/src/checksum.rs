//! The checksum recorded in `jolt.lock` for a cached JAR.
use vstd::prelude::*;
use sha2::Digest;
use crate::text::{copy_string, push_str};

verus! {

/// What SHA-256 gives for `data`.
pub uninterp spec fn sha256_of(data: Seq<u8>) -> Seq<u8>;

/// `sha2::Sha256::digest`. The 32 bytes of the digest are named by
/// `sha256_of`; the hash itself is not restated.
#[verifier::external_body]
fn sha256_digest(data: &[u8]) -> (r: Vec<u8>)
    ensures
        r@ == sha256_of(data@),
        r@.len() == 32,
{
    sha2::Sha256::digest(data).to_vec()
}

/// A lowercase hexadecimal digit.
pub open spec fn hex_digit(n: int) -> char {
    if n < 10 {
        (n + 48) as char
    } else {
        (n - 10 + 97) as char
    }
}

/// Bytes as lowercase hexadecimal, two digits per byte, high digit first.
pub open spec fn hex_spec(data: Seq<u8>) -> Seq<char>
    decreases data.len(),
{
    if data.len() == 0 {
        Seq::empty()
    } else {
        hex_spec(data.drop_last()) + seq![
            hex_digit(data.last() as int / 16),
            hex_digit(data.last() as int % 16),
        ]
    }
}

fn hex_digit_exec(n: u8) -> (c: char)
    requires
        n < 16,
    ensures
        c == hex_digit(n as int),
{
    if n < 10 {
        (n + 48) as char
    } else {
        (n - 10 + 97) as char
    }
}

/// Bytes as lowercase hexadecimal, two digits per byte, high digit first
/// (what `hex::encode` writes).
fn hex_encode(data: &[u8]) -> (r: String)
    ensures
        r@ == hex_spec(data@),
{
    let mut r = String::new();
    let mut i: usize = 0;
    while i < data.len()
        invariant
            i <= data.len(),
            r@ == hex_spec(data@.take(i as int)),
        decreases data.len() - i,
    {
        let b = data[i];
        assert(data@.take(i + 1).drop_last() =~= data@.take(i as int));
        assert(data@.take(i + 1).last() == b);
        r.push(hex_digit_exec(b / 16));
        r.push(hex_digit_exec(b % 16));
        assert(r@ =~= hex_spec(data@.take(i + 1)));
        i += 1;
    }
    assert(data@.take(data.len() as int) =~= data@);
    r
}

/// The checksum of a JAR's content: `sha256:` and the hexadecimal SHA-256
/// digest, or `sha256:unknown` when the file could not be read.
pub fn checksum_of(content: Option<&[u8]>) -> (r: String)
    ensures
        r@ == match content {
            Some(b) => "sha256:"@ + hex_spec(sha256_of(b@)),
            None => "sha256:unknown"@,
        },
{
    match content {
        Some(b) => {
            let digest = sha256_digest(b);
            let mut s = copy_string("sha256:");
            let h = hex_encode(digest.as_slice());
            push_str(&mut s, h.as_str());
            s
        },
        None => copy_string("sha256:unknown"),
    }
}

} // verus!
