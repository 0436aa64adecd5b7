//! Symbol naming: the name under which compiled code is exported from its
//! shared object, derived from the code hash.

use vstd::prelude::*;

verus! {

/// Number of leading hash bytes that go into a label.
pub const LABEL_BYTES: usize = 3;

/// The lowercase hexadecimal digit for a value below 16.
pub open spec fn spec_hex_digit(n: int) -> char {
    if n == 0 {
        '0'
    } else if n == 1 {
        '1'
    } else if n == 2 {
        '2'
    } else if n == 3 {
        '3'
    } else if n == 4 {
        '4'
    } else if n == 5 {
        '5'
    } else if n == 6 {
        '6'
    } else if n == 7 {
        '7'
    } else if n == 8 {
        '8'
    } else if n == 9 {
        '9'
    } else if n == 10 {
        'a'
    } else if n == 11 {
        'b'
    } else if n == 12 {
        'c'
    } else if n == 13 {
        'd'
    } else if n == 14 {
        'e'
    } else {
        'f'
    }
}

/// The bytes of `s` in lowercase hexadecimal, two digits each.
pub open spec fn spec_hex(s: Seq<u8>) -> Seq<char>
    decreases s.len(),
{
    if s.len() == 0 {
        Seq::empty()
    } else {
        spec_hex(s.drop_last()).push(spec_hex_digit(s.last() as int / 16)).push(
            spec_hex_digit(s.last() as int % 16),
        )
    }
}

/// The label for a hash: an underscore, then its first three bytes (or all
/// of them, where there are fewer) in lowercase hexadecimal.
pub open spec fn spec_mangle_hex(hash: Seq<u8>) -> Seq<char> {
    seq!['_'] + spec_hex(
        if hash.len() < LABEL_BYTES {
            hash
        } else {
            hash.take(LABEL_BYTES as int)
        },
    )
}

/// Returns the lowercase hexadecimal digit for a value below 16.
pub fn hex_digit(n: u8) -> (c: char)
    requires
        n < 16,
    ensures
        c == spec_hex_digit(n as int),
{
    if n == 0 {
        '0'
    } else if n == 1 {
        '1'
    } else if n == 2 {
        '2'
    } else if n == 3 {
        '3'
    } else if n == 4 {
        '4'
    } else if n == 5 {
        '5'
    } else if n == 6 {
        '6'
    } else if n == 7 {
        '7'
    } else if n == 8 {
        '8'
    } else if n == 9 {
        '9'
    } else if n == 10 {
        'a'
    } else if n == 11 {
        'b'
    } else if n == 12 {
        'c'
    } else if n == 13 {
        'd'
    } else if n == 14 {
        'e'
    } else {
        'f'
    }
}

/// `String::from_iter` over characters: the string made of exactly the
/// characters handed in, in their order.
#[verifier::external_body]
fn string_from_chars(chars: Vec<char>) -> (s: String)
    ensures
        s@ == chars@,
{
    String::from_iter(chars)
}

/// Returns the characters of the label for this hash.
pub fn mangle_chars(hex: &[u8]) -> (chars: Vec<char>)
    ensures
        chars@ == spec_mangle_hex(hex@),
{
    let take: usize = if hex.len() < LABEL_BYTES {
        hex.len()
    } else {
        LABEL_BYTES
    };
    let mut chars: Vec<char> = Vec::new();
    chars.push('_');
    let mut i: usize = 0;
    while i < take
        invariant
            i <= take <= hex@.len(),
            chars@ == seq!['_'] + spec_hex(hex@.take(i as int)),
        decreases take - i,
    {
        let b: u8 = hex[i];
        chars.push(hex_digit(b / 16));
        chars.push(hex_digit(b % 16));
        proof {
            let next = hex@.take(i + 1);
            assert(next.drop_last() =~= hex@.take(i as int));
        }
        i += 1;
    }
    assert(hex@.len() < LABEL_BYTES ==> hex@.take(take as int) =~= hex@);
    chars
}

/// Returns the label under which the code with this hash is exported.
pub fn mangle_hex(hex: &[u8]) -> (label: String)
    ensures
        label@ == spec_mangle_hex(hex@),
{
    string_from_chars(mangle_chars(hex))
}

/// The label as it is stored: one byte for each of its characters.
pub open spec fn spec_label_bytes(hash: Seq<u8>) -> Seq<u8> {
    Seq::new(spec_mangle_hex(hash).len(), |i: int| spec_mangle_hex(hash)[i] as u8)
}

/// Returns the label in its stored form.
pub fn label_bytes(hex: &[u8]) -> (bytes: Vec<u8>)
    ensures
        bytes@ == spec_label_bytes(hex@),
{
    let chars: Vec<char> = mangle_chars(hex);
    let mut bytes: Vec<u8> = Vec::with_capacity(chars.len());
    let mut i: usize = 0;
    while i < chars.len()
        invariant
            i <= chars@.len(),
            chars@ == spec_mangle_hex(hex@),
            bytes@.len() == i,
            forall|j: int| 0 <= j < i ==> bytes@[j] == chars@[j] as u8,
        decreases chars@.len() - i,
    {
        bytes.push(chars[i] as u8);
        i += 1;
    }
    bytes
}

/// A label is an underscore and two digits for each byte that went into it.
pub proof fn lemma_label_length(hash: Seq<u8>)
    ensures
        spec_mangle_hex(hash).len() == 1 + 2 * (if hash.len() < LABEL_BYTES {
            hash.len()
        } else {
            LABEL_BYTES as nat
        }),
        spec_mangle_hex(hash)[0] == '_',
{
    lemma_hex_length(hash);
    lemma_hex_length(hash.take(LABEL_BYTES as int));
}

/// Each byte gives two hexadecimal digits.
pub proof fn lemma_hex_length(s: Seq<u8>)
    ensures
        spec_hex(s).len() == 2 * s.len(),
    decreases s.len(),
{
    if s.len() > 0 {
        lemma_hex_length(s.drop_last());
    }
}

} // verus!
