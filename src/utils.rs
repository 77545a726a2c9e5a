//! Password digests and random strings.

use vstd::prelude::*;
use vstd::string::StringSliceAdditionalSpecFns;

verus! {

/// The characters of an upper-case hexadecimal digit, by value.
pub const HEX_DIGITS: &'static str = "0123456789ABCDEF";

/// The characters a random string is drawn from.
pub const ALPHANUMERIC: &'static str = "abcdefghijklmnopqrstuvwxyzABCDEFGHIJKLMNOPQRSTUVWXYZ0123456789";

/// The SHA-256 digest of `data`.
pub uninterp spec fn sha256_of(data: Seq<u8>) -> Seq<u8>;

/// Relies on `sha2::Sha256::digest`: the SHA-256 digest of the bytes, which
/// is 32 bytes long.
#[verifier::external_body]
fn sha256_digest(data: &[u8]) -> (r: Vec<u8>)
    ensures
        r@ == sha256_of(data@),
        r@.len() == 32,
{
    <sha2::Sha256 as sha2::Digest>::digest(data).to_vec()
}

/// Relies on `String::push`: appends one character.
#[verifier::external_body]
fn push_char(s: &mut String, c: char)
    ensures
        final(s)@ == old(s)@.push(c),
{
    s.push(c)
}

/// Relies on `rand::Rng::gen_range` over `rand::thread_rng`: a number below
/// `n`, drawn at random.
#[verifier::external_body]
fn random_below(n: usize) -> (r: usize)
    requires
        n > 0,
    ensures
        r < n,
{
    rand::Rng::gen_range(&mut rand::thread_rng(), 0..n)
}

/// Each byte as two upper-case hexadecimal digits, high digit first.
pub open spec fn upper_hex(bytes: Seq<u8>) -> Seq<char>
    decreases bytes.len(),
{
    if bytes.len() == 0 {
        seq![]
    } else {
        let b = bytes.last();
        upper_hex(bytes.drop_last()) + seq![
            HEX_DIGITS@[(b / 16) as int],
            HEX_DIGITS@[(b % 16) as int],
        ]
    }
}

/// Writes bytes as upper-case hexadecimal (see `upper_hex`).
pub fn to_upper_hex(bytes: &[u8]) -> (r: String)
    ensures
        r@ == upper_hex(bytes@),
        r@.len() == 2 * bytes@.len(),
{
    proof {
        reveal_strlit("0123456789ABCDEF");
    }
    let mut out = String::new();
    let mut i: usize = 0;
    while i < bytes.len()
        invariant
            i <= bytes@.len(),
            HEX_DIGITS@.len() == 16,
            out@ == upper_hex(bytes@.take(i as int)),
            out@.len() == 2 * i,
        decreases bytes@.len() - i,
    {
        let b = bytes[i];
        proof {
            assert(bytes@.take(i + 1).drop_last() =~= bytes@.take(i as int));
        }
        push_char(&mut out, HEX_DIGITS.get_char((b / 16) as usize));
        push_char(&mut out, HEX_DIGITS.get_char((b % 16) as usize));
        proof {
            assert(out@ =~= upper_hex(bytes@.take(i + 1)));
        }
        i = i + 1;
    }
    proof {
        assert(bytes@.take(bytes@.len() as int) =~= bytes@);
    }
    out
}

/// The SHA-256 digest of the UTF-8 bytes of `data`, as 64 upper-case
/// hexadecimal digits.
pub fn sha256(data: &str) -> (r: String)
    ensures
        r@ == upper_hex(sha256_of(data.spec_bytes())),
        r@.len() == 64,
{
    let digest = sha256_digest(data.as_bytes());
    to_upper_hex(digest.as_slice())
}

/// A string of `length` characters, each drawn at random from
/// `ALPHANUMERIC`.
pub fn rand_str(length: usize) -> (r: String)
    ensures
        r@.len() == length,
        forall|i: int| 0 <= i < length ==> ALPHANUMERIC@.contains(#[trigger] r@[i]),
{
    proof {
        reveal_strlit("abcdefghijklmnopqrstuvwxyzABCDEFGHIJKLMNOPQRSTUVWXYZ0123456789");
    }
    let n = ALPHANUMERIC.unicode_len();
    let mut out = String::new();
    let mut i: usize = 0;
    while i < length
        invariant
            i <= length,
            n == ALPHANUMERIC@.len(),
            n == 62,
            out@.len() == i,
            forall|m: int| 0 <= m < i ==> ALPHANUMERIC@.contains(#[trigger] out@[m]),
        decreases length - i,
    {
        let k = random_below(n);
        let c = ALPHANUMERIC.get_char(k);
        let ghost before = out@;
        push_char(&mut out, c);
        proof {
            assert forall|m: int| 0 <= m < i + 1 implies ALPHANUMERIC@.contains(#[trigger] out@[m]) by {
                if m < i {
                    assert(out@[m] == before[m]);
                } else {
                    assert(out@[m] == ALPHANUMERIC@[k as int]);
                }
            }
        }
        i = i + 1;
    }
    out
}

} // verus!
