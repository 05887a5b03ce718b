//! Content fingerprints: a stable digest of a file's current text, rendered
//! as upper-case hexadecimal.

use vstd::prelude::*;

verus! {

/// The SHA-256 digest of a text's characters. The digest is computed by an
/// outside hasher; nothing is assumed of it beyond its length, so equal
/// texts give equal digests and nothing relates the digests of different
/// texts.
pub uninterp spec fn sha256_of(content: Seq<char>) -> Seq<u8>;

/// The upper-case hexadecimal digit for a value below sixteen.
pub open spec fn hex_digit(n: int) -> char {
    if n == 0 {
        '0'
    } else if n == 1 {
        '1'
    } else if n == 2 {
        '2'
    } else if n == 3 {
        '3'
    } else if n == 4 {
        '4'
    } else if n == 5 {
        '5'
    } else if n == 6 {
        '6'
    } else if n == 7 {
        '7'
    } else if n == 8 {
        '8'
    } else if n == 9 {
        '9'
    } else if n == 10 {
        'A'
    } else if n == 11 {
        'B'
    } else if n == 12 {
        'C'
    } else if n == 13 {
        'D'
    } else if n == 14 {
        'E'
    } else {
        'F'
    }
}

/// Upper-case hexadecimal rendering of a byte sequence: two digits per byte,
/// high nibble first.
pub open spec fn hex_upper_of(bytes: Seq<u8>) -> Seq<char>
    decreases bytes.len(),
{
    if bytes.len() == 0 {
        Seq::empty()
    } else {
        hex_upper_of(bytes.drop_last()) + seq![
            hex_digit(bytes.last() as int / 16),
            hex_digit(bytes.last() as int % 16),
        ]
    }
}

/// The hexadecimal rendering of a byte sequence has two characters per byte.
pub proof fn lemma_hex_upper_len(bytes: Seq<u8>)
    ensures
        hex_upper_of(bytes).len() == 2 * bytes.len(),
    decreases bytes.len(),
{
    if bytes.len() > 0 {
        lemma_hex_upper_len(bytes.drop_last());
    }
}

/// A file's content fingerprint: the upper-case hexadecimal form of the
/// SHA-256 digest of its text.
pub open spec fn fingerprint_of(content: Seq<char>) -> Seq<char> {
    hex_upper_of(sha256_of(content))
}

/// Fingerprint stability, the half that holds of every hash: the fingerprint
/// is a function of the content alone, so reading unchanged content twice
/// gives equal fingerprints. That changed content gives a different
/// fingerprint rests on the hash's collision resistance and is not stated.
pub proof fn lemma_fingerprint_stable(c1: Seq<char>, c2: Seq<char>)
    requires
        c1 == c2,
    ensures
        fingerprint_of(c1) == fingerprint_of(c2),
{
}

/// Relies on sha2::Sha256 through digest::Digest::digest: SHA-256 maps the
/// input bytes alone to a 32-byte digest, and a str's bytes are a function
/// of its characters.
#[verifier::external_body]
fn sha256_digest(content: &str) -> (r: Vec<u8>)
    ensures
        r@ == sha256_of(content@),
        r@.len() == 32,
{
    <sha2::Sha256 as sha2::Digest>::digest(content.as_bytes()).to_vec()
}

fn hex_digit_str(n: u8) -> (r: &'static str)
    requires
        n < 16,
    ensures
        r@ =~= seq![hex_digit(n as int)],
{
    proof {
        reveal_strlit("0");
        reveal_strlit("1");
        reveal_strlit("2");
        reveal_strlit("3");
        reveal_strlit("4");
        reveal_strlit("5");
        reveal_strlit("6");
        reveal_strlit("7");
        reveal_strlit("8");
        reveal_strlit("9");
        reveal_strlit("A");
        reveal_strlit("B");
        reveal_strlit("C");
        reveal_strlit("D");
        reveal_strlit("E");
        reveal_strlit("F");
    }
    match n {
        0 => "0",
        1 => "1",
        2 => "2",
        3 => "3",
        4 => "4",
        5 => "5",
        6 => "6",
        7 => "7",
        8 => "8",
        9 => "9",
        10 => "A",
        11 => "B",
        12 => "C",
        13 => "D",
        14 => "E",
        _ => "F",
    }
}

/// Renders bytes as upper-case hexadecimal, two digits per byte.
pub fn hex_upper(bytes: &Vec<u8>) -> (r: String)
    ensures
        r@ == hex_upper_of(bytes@),
        r@.len() == 2 * bytes@.len(),
{
    let mut r = String::new();
    let n = bytes.len();
    let mut i: usize = 0;
    while i < n
        invariant
            n == bytes@.len(),
            i <= n,
            r@ == hex_upper_of(bytes@.take(i as int)),
            r@.len() == 2 * i,
        decreases n - i,
    {
        let b = bytes[i];
        let hi = b / 16;
        let lo = b % 16;
        r.append(hex_digit_str(hi));
        r.append(hex_digit_str(lo));
        proof {
            assert(bytes@.take(i + 1).drop_last() =~= bytes@.take(i as int));
            assert(bytes@.take(i + 1).last() == bytes@[i as int]);
            assert(r@ =~= hex_upper_of(bytes@.take(i + 1)));
        }
        i += 1;
    }
    proof {
        assert(bytes@.take(n as int) =~= bytes@);
    }
    r
}

/// Computes the fingerprint of a file's text.
pub fn fingerprint_text(content: &str) -> (r: String)
    ensures
        r@ == fingerprint_of(content@),
        r@.len() == 64,
{
    let digest = sha256_digest(content);
    proof {
        lemma_hex_upper_len(digest@);
    }
    hex_upper(&digest)
}

} // verus!
