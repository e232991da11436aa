//! SHA-256 checksums of package archives, written as lowercase hexadecimal
//! text, and the comparison of a computed checksum with a stored one.
use sha2::Digest;
use sha2::Sha256;
use vstd::prelude::*;

use crate::text::{is_white_space, push_char, same_text, trim, trim_seq, trim_start_seq};

verus! {

/// The SHA-256 digest of `data`.
pub uninterp spec fn sha256_of(data: Seq<u8>) -> Seq<u8>;

/// `sha2::Sha256::digest` (through the `sha2::Digest` trait): the SHA-256 hash
/// of the bytes. Claimed: the result is the digest of exactly these bytes
/// (named `sha256_of`), and it is 32 bytes long, the output size `U32` that
/// `Sha256` declares. What the digest is for given bytes is not stated.
#[verifier::external_body]
fn sha256_digest(data: &[u8]) -> (res: Vec<u8>)
    ensures
        res@ == sha256_of(data@),
        res@.len() == 32,
{
    Sha256::digest(data).to_vec()
}

/// The lowercase hexadecimal digit for a value below 16.
pub open spec fn hex_digit(n: int) -> char {
    if n == 0 {
        '0'
    } else if n == 1 {
        '1'
    } else if n == 2 {
        '2'
    } else if n == 3 {
        '3'
    } else if n == 4 {
        '4'
    } else if n == 5 {
        '5'
    } else if n == 6 {
        '6'
    } else if n == 7 {
        '7'
    } else if n == 8 {
        '8'
    } else if n == 9 {
        '9'
    } else if n == 10 {
        'a'
    } else if n == 11 {
        'b'
    } else if n == 12 {
        'c'
    } else if n == 13 {
        'd'
    } else if n == 14 {
        'e'
    } else {
        'f'
    }
}

/// The bytes written as lowercase hexadecimal, two digits per byte, high
/// nibble first: what `format!("{:x}", digest)` prints for a digest.
pub open spec fn hex_lower(bytes: Seq<u8>) -> Seq<char>
    decreases bytes.len(),
{
    if bytes.len() == 0 {
        Seq::<char>::empty()
    } else {
        let b = bytes.last();
        hex_lower(bytes.drop_last()) + seq![hex_digit((b / 16) as int), hex_digit((b % 16) as int)]
    }
}

/// Whether `c` is one of the sixteen lowercase hexadecimal digits.
pub open spec fn is_hex_digit(c: char) -> bool {
    ('0' <= c && c <= '9') || ('a' <= c && c <= 'f')
}

/// The digit for `n`, as a value.
fn hex_digit_char(n: u8) -> (res: char)
    requires
        n < 16,
    ensures
        res == hex_digit(n as int),
{
    if n == 0 {
        '0'
    } else if n == 1 {
        '1'
    } else if n == 2 {
        '2'
    } else if n == 3 {
        '3'
    } else if n == 4 {
        '4'
    } else if n == 5 {
        '5'
    } else if n == 6 {
        '6'
    } else if n == 7 {
        '7'
    } else if n == 8 {
        '8'
    } else if n == 9 {
        '9'
    } else if n == 10 {
        'a'
    } else if n == 11 {
        'b'
    } else if n == 12 {
        'c'
    } else if n == 13 {
        'd'
    } else if n == 14 {
        'e'
    } else {
        'f'
    }
}

/// The bytes written as lowercase hexadecimal.
pub fn hex_lower_string(bytes: &[u8]) -> (res: String)
    ensures
        res@ == hex_lower(bytes@),
{
    let mut out = String::new();
    let mut i: usize = 0;
    assert(bytes@.take(0) =~= Seq::<u8>::empty());
    while i < bytes.len()
        invariant
            i <= bytes.len(),
            out@ == hex_lower(bytes@.take(i as int)),
        decreases bytes.len() - i,
    {
        let b = bytes[i];
        assert(bytes@.take(i + 1).drop_last() =~= bytes@.take(i as int));
        assert(bytes@.take(i + 1).last() == b);
        push_char(&mut out, hex_digit_char(b / 16));
        push_char(&mut out, hex_digit_char(b % 16));
        assert(out@ =~= hex_lower(bytes@.take(i as int)) + seq![hex_digit((b / 16) as int), hex_digit((b % 16) as int)]);
        i = i + 1;
    }
    assert(bytes@.take(bytes.len() as int) =~= bytes@);
    out
}

/// The SHA-256 checksum of `data`, as the 64 lowercase hexadecimal digits
/// that the `.sha256` file next to a package holds.
pub fn sha256_hex(data: &[u8]) -> (res: String)
    ensures
        res@ == hex_lower(sha256_of(data@)),
        res@.len() == 64,
{
    let digest = sha256_digest(data);
    proof {
        lemma_hex_len(digest@);
    }
    hex_lower_string(digest.as_slice())
}

/// Whether a computed checksum and the stored one agree once white space
/// around each is ignored.
pub open spec fn checksums_agree(computed: Seq<char>, stored: Seq<char>) -> bool {
    trim_seq(computed) == trim_seq(stored)
}

/// Compares a computed checksum with the text of a checksum file, ignoring
/// white space around either.
pub fn hash_matches(computed: &str, stored: &str) -> (res: bool)
    ensures
        res == checksums_agree(computed@, stored@),
{
    let a = trim(computed);
    let b = trim(stored);
    same_text(a.as_str(), b.as_str())
}

/// Two hexadecimal digits per byte.
pub proof fn lemma_hex_len(bytes: Seq<u8>)
    ensures
        hex_lower(bytes).len() == 2 * bytes.len(),
    decreases bytes.len(),
{
    if bytes.len() > 0 {
        lemma_hex_len(bytes.drop_last());
    }
}

/// Every character of the text is a lowercase hexadecimal digit.
pub proof fn lemma_hex_digits_only(bytes: Seq<u8>)
    ensures
        forall|i: int| 0 <= i < hex_lower(bytes).len() ==> is_hex_digit(#[trigger] hex_lower(bytes)[i]),
    decreases bytes.len(),
{
    if bytes.len() > 0 {
        lemma_hex_digits_only(bytes.drop_last());
        let b = bytes.last();
        let prev = hex_lower(bytes.drop_last());
        let tail = seq![hex_digit((b / 16) as int), hex_digit((b % 16) as int)];
        assert forall|i: int| 0 <= i < hex_lower(bytes).len() implies is_hex_digit(
            #[trigger] hex_lower(bytes)[i],
        ) by {
            if i < prev.len() {
                assert(hex_lower(bytes)[i] == prev[i]);
            } else {
                assert(hex_lower(bytes)[i] == tail[i - prev.len()]);
            }
        }
    }
}

/// Text without white space is left as it is by trimming.
pub proof fn lemma_trim_without_white_space(s: Seq<char>)
    requires
        forall|i: int| 0 <= i < s.len() ==> !is_white_space(#[trigger] s[i]),
    ensures
        trim_seq(s) == s,
{
    if s.len() > 0 {
        assert(!is_white_space(s[0]));
        assert(!is_white_space(s[s.len() - 1]));
    }
    assert(trim_start_seq(s) == s);
}

/// Checksum text is left unchanged by trimming.
pub proof fn lemma_hex_trim_stable(bytes: Seq<u8>)
    ensures
        trim_seq(hex_lower(bytes)) == hex_lower(bytes),
{
    let h = hex_lower(bytes);
    lemma_hex_digits_only(bytes);
    assert forall|i: int| 0 <= i < h.len() implies !is_white_space(#[trigger] h[i]) by {
        assert(is_hex_digit(h[i]));
    }
    lemma_trim_without_white_space(h);
}

/// Distinct values below 16 have distinct digits.
proof fn lemma_hex_digit_injective(x: int, y: int)
    requires
        0 <= x < 16,
        0 <= y < 16,
        hex_digit(x) == hex_digit(y),
    ensures
        x == y,
{
}

/// Different byte strings never have the same hexadecimal text.
pub proof fn lemma_hex_injective(a: Seq<u8>, b: Seq<u8>)
    requires
        hex_lower(a) == hex_lower(b),
    ensures
        a == b,
    decreases a.len(),
{
    lemma_hex_len(a);
    lemma_hex_len(b);
    if a.len() > 0 {
        let ha = hex_lower(a);
        let pa = hex_lower(a.drop_last());
        let pb = hex_lower(b.drop_last());
        let x = a.last();
        let y = b.last();
        lemma_hex_len(a.drop_last());
        lemma_hex_len(b.drop_last());
        assert(ha[ha.len() - 2] == hex_digit((x / 16) as int));
        assert(ha[ha.len() - 2] == hex_digit((y / 16) as int));
        assert(ha[ha.len() - 1] == hex_digit((x % 16) as int));
        assert(ha[ha.len() - 1] == hex_digit((y % 16) as int));
        lemma_hex_digit_injective((x / 16) as int, (y / 16) as int);
        lemma_hex_digit_injective((x % 16) as int, (y % 16) as int);
        assert(x == y);
        assert(pa =~= ha.take(ha.len() - 2));
        assert(pb =~= ha.take(ha.len() - 2));
        lemma_hex_injective(a.drop_last(), b.drop_last());
        assert(a =~= a.drop_last().push(x));
        assert(b =~= b.drop_last().push(y));
    } else {
        assert(a =~= b);
    }
}

} // verus!
