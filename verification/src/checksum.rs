//! SHA-256 checksums of downloads.

use vstd::prelude::*;
use crate::text::{ascii_lower, eq_ignore_ascii_case, same_but_for_ascii_case};

verus! {

/// The SHA-256 digest of some data, as `sha2` computes it.
pub uninterp spec fn sha256_digest(data: Seq<u8>) -> Seq<u8>;

/// `sha2::Sha256::digest`: the digest depends on the data alone, is called
/// `sha256_digest` in contracts, and is 32 bytes long.
#[verifier::external_body]
fn sha256(data: &[u8]) -> (r: Vec<u8>)
    ensures
        r@ == sha256_digest(data@),
        r@.len() == 32,
{
    <sha2::Sha256 as sha2::Digest>::digest(data).to_vec()
}

/// The hexadecimal digit of a number below sixteen, letters small.
pub open spec fn hex_digit(n: int) -> char {
    if n < 10 {
        ((n + 48) as u8) as char
    } else {
        ((n + 87) as u8) as char
    }
}

/// Data in hexadecimal: two digits for each byte, the higher one first.
pub open spec fn hex_text(data: Seq<u8>) -> Seq<char> {
    Seq::new(
        2 * data.len(),
        |i: int|
            if i % 2 == 0 {
                hex_digit(data[i / 2] as int / 16)
            } else {
                hex_digit(data[i / 2] as int % 16)
            },
    )
}

/// `hex::encode`: the data in hexadecimal, with small letters.
#[verifier::external_body]
fn hex_encode(data: &[u8]) -> (r: String)
    ensures
        r@ == hex_text(data@),
{
    hex::encode(data)
}

/// A hexadecimal digit with small letters.
pub open spec fn is_hex_digit(c: char) -> bool {
    '0' <= c <= '9' || 'a' <= c <= 'f'
}

/// The SHA-256 checksum of a file with these contents: 64 hexadecimal digits.
pub fn sha256_of_file(contents: &[u8]) -> (r: String)
    ensures
        r@ == hex_text(sha256_digest(contents@)),
        r@.len() == 64,
        forall|i: int| 0 <= i < r@.len() ==> is_hex_digit(#[trigger] r@[i]),
{
    let digest = sha256(contents);
    let r = hex_encode(digest.as_slice());
    proof {
        assert forall|i: int| 0 <= i < r@.len() implies is_hex_digit(#[trigger] r@[i]) by {
            let b = digest@[i / 2] as int;
            assert(0 <= b / 16 < 16 && 0 <= b % 16 < 16);
        }
    }
    r
}

/// Whether a file with the checksum `actual` is the one whose checksum is
/// given as `expected`. The case of letters does not matter.
pub fn checksum_matches(actual: &str, expected: &str) -> (r: bool)
    ensures
        r == same_but_for_ascii_case(actual@, expected@),
{
    eq_ignore_ascii_case(actual, expected)
}

/// A checksum matches itself; if one matches another, so does that one the
/// first; and two that match a third match each other.
pub proof fn matching_is_an_equivalence(a: Seq<char>, b: Seq<char>, c: Seq<char>)
    ensures
        same_but_for_ascii_case(a, a),
        same_but_for_ascii_case(a, b) ==> same_but_for_ascii_case(b, a),
        same_but_for_ascii_case(a, b) && same_but_for_ascii_case(b, c) ==> same_but_for_ascii_case(
            a,
            c,
        ),
{
    if same_but_for_ascii_case(a, b) {
        assert forall|i: int| 0 <= i < b.len() implies ascii_lower(#[trigger] b[i]) == ascii_lower(
            a[i],
        ) by {
            assert(ascii_lower(a[i]) == ascii_lower(b[i]));
        }
        if same_but_for_ascii_case(b, c) {
            assert forall|i: int| 0 <= i < a.len() implies ascii_lower(#[trigger] a[i])
                == ascii_lower(c[i]) by {
                assert(ascii_lower(b[i]) == ascii_lower(c[i]));
            }
        }
    }
}

/// A letter and its capital.
proof fn cases_differ_by_a_letter(c: char, d: char)
    ensures
        ascii_lower(c) == ascii_lower(d) <==> {
            ||| c == d
            ||| 'A' <= c <= 'Z' && d as int == c as int + 32
            ||| 'A' <= d <= 'Z' && c as int == d as int + 32
        },
{
}

/// Two checksums match if and only if they are equally long and have the same
/// characters in the same places, where a letter and its capital count as the
/// same. One other character anywhere is a mismatch.
pub proof fn matching_checksums_differ_in_case_alone(a: Seq<char>, b: Seq<char>)
    ensures
        same_but_for_ascii_case(a, b) <==> a.len() == b.len() && forall|i: int|
            0 <= i < a.len() ==> {
                ||| #[trigger] a[i] == b[i]
                ||| 'A' <= a[i] <= 'Z' && b[i] as int == a[i] as int + 32
                ||| 'A' <= b[i] <= 'Z' && a[i] as int == b[i] as int + 32
            },
{
    assert forall|c: char, d: char| #[trigger] ascii_lower(c) == #[trigger] ascii_lower(
        d,
    ) <==> {
        ||| c == d
        ||| 'A' <= c <= 'Z' && d as int == c as int + 32
        ||| 'A' <= d <= 'Z' && c as int == d as int + 32
    } by {
        cases_differ_by_a_letter(c, d);
    }
    if same_but_for_ascii_case(a, b) {
        assert forall|i: int| 0 <= i < a.len() implies {
            ||| #[trigger] a[i] == b[i]
            ||| 'A' <= a[i] <= 'Z' && b[i] as int == a[i] as int + 32
            ||| 'A' <= b[i] <= 'Z' && a[i] as int == b[i] as int + 32
        } by {
            assert(ascii_lower(a[i]) == ascii_lower(b[i]));
        }
    }
}

/// The value of a hexadecimal digit with a small letter.
pub open spec fn hex_value(c: char) -> int {
    if '0' <= c <= '9' {
        c as int - '0' as int
    } else {
        10 + (c as int - 'a' as int)
    }
}

/// Data is read back from its hexadecimal text: two digits a byte, the higher one
/// first.
pub proof fn hexadecimal_is_read_back(data: Seq<u8>, i: int)
    requires
        0 <= i < data.len(),
    ensures
        hex_text(data).len() == 2 * data.len(),
        16 * hex_value(hex_text(data)[2 * i]) + hex_value(hex_text(data)[2 * i + 1]) == data[i],
{
    let b = data[i] as int;
    assert((2 * i) % 2 == 0 && (2 * i) / 2 == i);
    assert((2 * i + 1) % 2 == 1 && (2 * i + 1) / 2 == i);
    assert(0 <= b / 16 < 16 && 0 <= b % 16 < 16);
}

} // verus!
