//! The digest under which a password is stored and compared: the SHA-256 of
//! its UTF-8 bytes, written as upper-case hexadecimal.

use sha2::Digest;
use vstd::prelude::*;
use vstd::string::StringExecFns;

verus! {

/// The SHA-256 digest of `data`, as `sha2` computes it.
pub uninterp spec fn sha256(data: Seq<u8>) -> Seq<u8>;

/// Calls `sha2::Sha256::digest` and copies the output into a vector.
///
/// Trusted: the result is the SHA-256 digest of `data`, a function of the
/// bytes alone.  Nothing else is claimed of it.
#[verifier::external_body]
fn sha256_of(data: &[u8]) -> (out: Vec<u8>)
    ensures
        out@ == sha256(data@),
{
    sha2::Sha256::digest(data).to_vec()
}

/// The upper-case hexadecimal digit for a value below sixteen.
pub open spec fn hex_digit(nibble: int) -> char
    recommends
        0 <= nibble < 16,
{
    "0123456789ABCDEF"@[nibble]
}

/// Two upper-case hexadecimal digits per byte, the high half first.
pub open spec fn hex_upper(bytes: Seq<u8>) -> Seq<char> {
    Seq::new(
        2 * bytes.len(),
        |i: int|
            if i % 2 == 0 {
                hex_digit(bytes[i / 2] as int / 16)
            } else {
                hex_digit(bytes[i / 2] as int % 16)
            },
    )
}

/// The stored form of a password.
pub open spec fn digest_of(password: Seq<char>) -> Seq<char> {
    hex_upper(sha256(vstd::utf8::encode_utf8(password)))
}

fn push_hex_digit(text: &mut String, nibble: u8)
    requires
        nibble < 16,
    ensures
        final(text)@ == old(text)@.push(hex_digit(nibble as int)),
{
    proof {
        reveal_strlit("0123456789ABCDEF");
        reveal_strlit("0");
        reveal_strlit("1");
        reveal_strlit("2");
        reveal_strlit("3");
        reveal_strlit("4");
        reveal_strlit("5");
        reveal_strlit("6");
        reveal_strlit("7");
        reveal_strlit("8");
        reveal_strlit("9");
        reveal_strlit("A");
        reveal_strlit("B");
        reveal_strlit("C");
        reveal_strlit("D");
        reveal_strlit("E");
        reveal_strlit("F");
    }
    let digit: &str = match nibble {
        0 => "0",
        1 => "1",
        2 => "2",
        3 => "3",
        4 => "4",
        5 => "5",
        6 => "6",
        7 => "7",
        8 => "8",
        9 => "9",
        10 => "A",
        11 => "B",
        12 => "C",
        13 => "D",
        14 => "E",
        _ => "F",
    };
    text.append(digit);
}

/// Writes `bytes` as upper-case hexadecimal.
pub fn hex_encode_upper(bytes: &[u8]) -> (text: String)
    ensures
        text@ == hex_upper(bytes@),
{
    let mut text = String::new();
    let mut done: usize = 0;
    while done < bytes.len()
        invariant
            done <= bytes.len(),
            text@ == hex_upper(bytes@.take(done as int)),
        decreases bytes.len() - done,
    {
        let byte: u8 = bytes[done];
        push_hex_digit(&mut text, byte / 16);
        push_hex_digit(&mut text, byte % 16);
        done += 1;
    }
    text
}

/// Compares two digests.  Every byte is looked at, wherever the first
/// difference lies, so that the time taken tells nothing of where the two
/// part; only their lengths are compared first.
pub fn same_digest(left: &str, right: &str) -> (same: bool)
    ensures
        same == (left@ == right@),
{
    let x = left.as_bytes();
    let y = right.as_bytes();
    proof {
        vstd::utf8::encode_utf8_decode_utf8(left@);
        vstd::utf8::encode_utf8_decode_utf8(right@);
    }
    if x.len() != y.len() {
        return false;
    }
    let mut differences: u8 = 0;
    let mut i: usize = 0;
    assert(x@.take(0) =~= y@.take(0));
    while i < x.len()
        invariant
            i <= x.len(),
            x.len() == y.len(),
            differences == 0 <==> x@.take(i as int) == y@.take(i as int),
        decreases x.len() - i,
    {
        let p: u8 = x[i];
        let q: u8 = y[i];
        let before: u8 = differences;
        differences = before | (p ^ q);
        assert((before | (p ^ q)) == 0 <==> (before == 0 && p == q)) by (bit_vector);
        proof {
            let a = x@.take(i as int);
            let b = y@.take(i as int);
            let a1 = x@.take(i + 1);
            let b1 = y@.take(i + 1);
            assert(a1.drop_last() =~= a && b1.drop_last() =~= b);
            assert(a1.last() == p && b1.last() == q);
            if a == b && p == q {
                assert(a1 =~= b1);
            }
        }
        i += 1;
    }
    assert(x@.take(i as int) =~= x@ && y@.take(i as int) =~= y@);
    differences == 0
}

/// The digest under which `password` is stored.
pub fn password_digest(password: &str) -> (digest: String)
    ensures
        digest@ == digest_of(password@),
{
    let hashed = sha256_of(password.as_bytes());
    hex_encode_upper(hashed.as_slice())
}

} // verus!
