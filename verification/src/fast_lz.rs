//! Length of the FastLZ encoding of a byte string, computed without producing
//! the encoding.

use vstd::prelude::*;

verus! {

/// A match may reach back at most this many bytes (exclusive).
pub const MAX_DISTANCE: u32 = 8192;

/// Longest input whose encoded length is sure to fit in a `u32`: an input
/// without a match takes 33 bytes for every 32, so a longer one may not fit.
pub const MAX_INPUT_LEN: usize = 4_164_816_770;

/// The three bytes at `i`, read as a little-endian number.
pub open spec fn spec_u24(s: Seq<u8>, i: int) -> int {
    s[i] as int + 256 * (s[i + 1] as int) + 65536 * (s[i + 2] as int)
}

/// The 13-bit hash of a three-byte window: the product with 2654435769,
/// shifted right by 19 bits, lowest 13 bits kept.
#[verifier::opaque]
pub open spec fn spec_hash(v: int) -> int {
    ((v * 2654435769) / 524288) % 8192
}

/// Size after a run of `r` literal bytes: 33 bytes for each full block of 32,
/// and the rest with one length byte in front.
#[verifier::opaque]
pub open spec fn spec_literals(r: int, size: int) -> int {
    let whole = size + 0x21 * (r / 0x20);
    if r % 0x20 != 0 {
        whole + r % 0x20 + 1
    } else {
        whole
    }
}

/// Size after a match whose length beyond its first two bytes is `l`.
#[verifier::opaque]
pub open spec fn spec_flz_match(l: int, size: int) -> int {
    let whole = size + 3 * ((l - 1) / 262);
    if (l - 1) % 262 >= 6 {
        whole + 3
    } else {
        whole + 2
    }
}

/// Number of positions compared when the bytes from `p` and from `q` are
/// compared pairwise until `q` reaches `end`: the first unequal pair is
/// counted and ends the comparison.
pub open spec fn spec_match_span(s: Seq<u8>, p: int, q: int, end: int) -> nat
    decreases end - q,
{
    if q >= end {
        0
    } else if s[p] != s[q] {
        1
    } else {
        1 + spec_match_span(s, p + 1, q + 1, end)
    }
}

/// First position that is no longer searched for a match.
pub open spec fn spec_idx_limit(n: int) -> int {
    if n < 13 {
        0
    } else {
        n - 13
    }
}

/// Number of positions from `idx` on that are still searched.
pub open spec fn spec_remaining(s: Seq<u8>, idx: int) -> nat {
    if idx < spec_idx_limit(s.len() as int) {
        (spec_idx_limit(s.len() as int) - idx) as nat
    } else {
        0
    }
}

/// The table before any position has been recorded.
pub open spec fn spec_empty_table() -> Seq<int> {
    Seq::new(8192, |h: int| 0int)
}

/// The table after position `i` has been recorded under the hash of its
/// three bytes.
pub open spec fn spec_record(s: Seq<u8>, tab: Seq<int>, i: int) -> Seq<int> {
    tab.update(spec_hash(spec_u24(s, i)), i)
}

/// The position that the table remembers for the three bytes at `idx`.
pub open spec fn spec_candidate(s: Seq<u8>, tab: Seq<int>, idx: int) -> int {
    tab[spec_hash(spec_u24(s, idx))]
}

/// A match is accepted at `idx`: the remembered position is less than 8192
/// bytes back and holds the same three bytes, and the search does not end
/// with this position.
pub open spec fn spec_accepts(s: Seq<u8>, tab: Seq<int>, idx: int) -> bool {
    let r = spec_candidate(s, tab, idx);
    &&& idx + 1 < spec_idx_limit(s.len() as int)
    &&& idx - r < 8192
    &&& spec_u24(s, idx) == spec_u24(s, r)
}

/// Length of the match accepted at `idx`, beyond its first two bytes.
pub open spec fn spec_match_len(s: Seq<u8>, tab: Seq<int>, idx: int) -> nat {
    spec_match_span(
        s,
        spec_candidate(s, tab, idx) + 3,
        idx + 3,
        spec_idx_limit(s.len() as int) + 9,
    )
}

/// Encoded length of `s`, given that the encoder stands at `idx`, has
/// accounted for everything before `anchor` with `size` bytes, and remembers
/// in `tab` the last position seen for each hash.
pub open spec fn spec_scan(s: Seq<u8>, tab: Seq<int>, idx: int, anchor: int, size: int) -> int
    decreases spec_remaining(s, idx),
{
    if idx >= spec_idx_limit(s.len() as int) {
        spec_literals(s.len() - anchor, size)
    } else if spec_accepts(s, tab, idx) {
        let len = spec_match_len(s, tab, idx);
        let next = idx + len;
        spec_scan(
            s,
            spec_record(s, spec_record(s, spec_record(s, tab, idx), next), next + 1),
            next + 2,
            next + 2,
            spec_flz_match(len as int, spec_literals(idx - anchor, size)),
        )
    } else {
        spec_scan(s, spec_record(s, tab, idx), idx + 1, anchor, size)
    }
}

/// Length of the FastLZ encoding of `s`.
pub open spec fn spec_flz_compress_len(s: Seq<u8>) -> int {
    spec_scan(s, spec_empty_table(), 2, 0, 0)
}

/// No byte value occurs twice in `s`.
pub open spec fn distinct_bytes(s: Seq<u8>) -> bool {
    forall|i: int, j: int| 0 <= i < j < s.len() ==> s[i] != s[j]
}

/// The bytes 0, 1, 2, ... up to `n` of them.
pub open spec fn counting_bytes(n: nat) -> Seq<u8> {
    Seq::new(n, |i: int| i as u8)
}

/// Reads three bytes at `idx` as a little-endian number.
pub fn u24(input: &[u8], idx: u32) -> (v: u32)
    requires
        idx + 2 < input@.len(),
    ensures
        v == spec_u24(input@, idx as int),
        v < 0x100_0000,
{
    let i: usize = idx as usize;
    let b0: u32 = input[i] as u32;
    let b1: u32 = input[i + 1] as u32;
    let b2: u32 = input[i + 2] as u32;
    assert(b1 << 8 == b1 * 256 && b2 << 16 == b2 * 65536) by (bit_vector)
        requires
            b1 < 256,
            b2 < 256,
    ;
    b0 + (b1 << 8) + (b2 << 16)
}

/// Every hash is a slot of the table.
pub proof fn lemma_hash_in_table(v: int)
    ensures
        0 <= spec_hash(v) < 8192,
{
    reveal(spec_hash);
}

/// Hashes a three-byte window into a table slot.
pub fn hash(v: u32) -> (h: u16)
    ensures
        h == spec_hash(v as int),
        h < 8192,
{
    reveal(spec_hash);
    let wide: u64 = (v as u64) * 2654435769;
    let shifted: u64 = wide >> 19;
    let h: u16 = (shifted as u16) & 0x1fff;
    assert(h == (wide / 524288) % 8192) by (bit_vector)
        requires
            h == ((wide >> 19) as u16) & 0x1fff,
    ;
    h
}

/// Accounts for a run of `r` literal bytes.
pub fn literals(r: u32, size: u32) -> (total: u32)
    requires
        size + r + r / 32 + 1 <= u32::MAX,
    ensures
        total == spec_literals(r as int, size as int),
{
    reveal(spec_literals);
    let size: u32 = size + 0x21 * (r / 0x20);
    let r: u32 = r % 0x20;
    if r != 0 {
        size + r + 1
    } else {
        size
    }
}

/// Accounts for a match whose length beyond its first two bytes is `l`.
pub fn flz_match(l: u32, size: u32) -> (total: u32)
    requires
        l >= 1,
        size + 3 * ((l - 1) / 262) + 3 <= u32::MAX,
    ensures
        total == spec_flz_match(l as int, size as int),
{
    reveal(spec_flz_match);
    let l: u32 = l - 1;
    let size: u32 = size + (3 * (l / 262));
    if l % 262 >= 6 {
        size + 3
    } else {
        size + 2
    }
}

/// The table of the encoder as the positions it holds.
pub open spec fn table_positions(htab: Seq<u32>) -> Seq<int> {
    Seq::new(htab.len(), |h: int| htab[h] as int)
}

/// Counts the positions compared when the bytes from `p` and from `q` are
/// compared pairwise until `q` reaches `r`, the first unequal pair included.
pub fn match_span(input: &[u8], p: u32, q: u32, r: u32) -> (l: u32)
    requires
        p < q <= r <= input@.len(),
    ensures
        l == spec_match_span(input@, p as int, q as int, r as int),
        l <= r - q,
        q < r ==> l >= 1,
{
    let ghost end = r;
    let ghost stopped = false;
    let mut l: u32 = 0;
    let mut r: u32 = r - q;
    while l < r
        invariant
            p < q <= end <= input@.len(),
            l <= end - q,
            stopped ==> r == 0 && l >= 1 && spec_match_span(
                input@,
                p as int,
                q as int,
                end as int,
            ) == l,
            !stopped ==> r == end - q && spec_match_span(input@, p as int, q as int, end as int)
                == l + spec_match_span(input@, p + l, q + l, end as int),
        decreases
                (if stopped {
                    0
                } else {
                    end - q - l
                }),
    {
        if input[(p + l) as usize] != input[(q + l) as usize] {
            r = 0;
            proof {
                stopped = true;
            }
        }
        l += 1;
    }
    l
}

/// Records `idx` in the table under the hash of its three bytes and returns
/// the position after it.
pub fn set_next_hash(htab: &mut [u32; 8192], input: &[u8], idx: u32) -> (next: u32)
    requires
        idx + 2 < input@.len(),
        idx < u32::MAX,
    ensures
        next == idx + 1,
        table_positions(final(htab)@) == spec_record(
            input@,
            table_positions(old(htab)@),
            idx as int,
        ),
{
    let h: u16 = hash(u24(input, idx));
    htab[h as usize] = idx;
    idx + 1
}

/// A match never costs more than the bytes it covers, less one.
proof fn lemma_match_cost(l: int, size: int)
    requires
        l >= 1,
    ensures
        spec_flz_match(l, size) <= size + l + 1,
        spec_flz_match(l, size) >= size + 2,
{
    reveal(spec_flz_match);
}

/// A run of literals costs one byte more for every 32 bytes begun.
proof fn lemma_literals_cost(r: int, size: int)
    requires
        r >= 0,
    ensures
        size <= spec_literals(r, size) <= size + r + r / 32 + 1,
        r == 0 ==> spec_literals(r, size) == size,
{
    reveal(spec_literals);
}

/// Returns the number of bytes that the FastLZ encoder emits for `input`,
/// without producing them.
pub fn flz_compress_len(input: &[u8]) -> (len: u32)
    requires
        input@.len() <= MAX_INPUT_LEN,
    ensures
        len == spec_flz_compress_len(input@),
        len == spec_flz_compress(input@).len(),
        len <= input@.len() + input@.len() / 32 + 1,
{
    proof {
        lemma_length_of_encoding(input@);
    }
    let n: u32 = input.len() as u32;
    let mut idx: u32 = 2;
    let idx_limit: u32 = if input.len() < 13 {
        0
    } else {
        n - 13
    };
    let mut anchor: u32 = 0;
    let mut size: u32 = 0;
    let mut htab: [u32; 8192] = [0u32; 8192];
    assert(table_positions(htab@) =~= spec_empty_table());
    while idx < idx_limit
        invariant
            n == input@.len(),
            n <= MAX_INPUT_LEN,
            idx_limit == spec_idx_limit(n as int),
            2 <= idx,
            idx == 2 || idx <= idx_limit + 8,
            anchor <= idx,
            anchor <= n,
            size <= anchor + anchor / 32,
            forall|h: int| 0 <= h < 8192 ==> #[trigger] htab@[h] < idx,
            spec_scan(input@, table_positions(htab@), idx as int, anchor as int, size as int)
                == spec_flz_compress_len(input@),
        decreases spec_remaining(input@, idx as int),
    {
        let ghost tab = table_positions(htab@);
        let seq: u32 = u24(input, idx);
        let h: u16 = hash(seq);
        let r: u32 = htab[h as usize];
        htab[h as usize] = idx;
        assert(table_positions(htab@) =~= spec_record(input@, tab, idx as int));
        let distance: u32 = idx - r;
        if idx + 1 < idx_limit && distance < MAX_DISTANCE && seq == u24(input, r) {
            proof {
                lemma_literals_cost(idx - anchor, size as int);
            }
            if idx > anchor {
                size = literals(idx - anchor, size);
            }
            let len: u32 = match_span(input, r + 3, idx + 3, idx_limit + 9);
            proof {
                lemma_match_cost(len as int, size as int);
            }
            size = flz_match(len, size);
            let ghost next = idx + len;
            idx = set_next_hash(&mut htab, input, idx + len);
            idx = set_next_hash(&mut htab, input, idx);
            anchor = idx;
            proof {
                lemma_hash_in_table(spec_u24(input@, next));
                lemma_hash_in_table(spec_u24(input@, next + 1));
                assert forall|h: int| 0 <= h < 8192 implies #[trigger] htab@[h] < idx by {
                    assert(table_positions(htab@)[h] <= next + 1);
                }
            }
        } else {
            idx += 1;
        }
    }
    proof {
        lemma_literals_cost(n - anchor, size as int);
    }
    literals(n - anchor, size)
}

/// At most the positions up to `end` are compared, and at least one where
/// there is any.
pub proof fn lemma_match_span_bound(s: Seq<u8>, p: int, q: int, end: int)
    ensures
        q < end ==> 1 <= spec_match_span(s, p, q, end) <= end - q,
        q >= end ==> spec_match_span(s, p, q, end) == 0,
    decreases end - q,
{
    if q < end && s[p] == s[q] {
        lemma_match_span_bound(s, p + 1, q + 1, end);
    }
}

/// From any point of the encoding on, what is still to come costs at most
/// one byte for each byte after the anchor, one more for every 32 of them,
/// and one.
proof fn lemma_scan_bound(s: Seq<u8>, tab: Seq<int>, idx: int, anchor: int, size: int)
    requires
        0 <= anchor <= idx,
        anchor <= s.len(),
        idx == 2 || idx <= spec_idx_limit(s.len() as int) + 8,
    ensures
        spec_scan(s, tab, idx, anchor, size) <= size + (s.len() - anchor) + (s.len() - anchor) / 32
            + 1,
    decreases spec_remaining(s, idx),
{
    let limit = spec_idx_limit(s.len() as int);
    if idx >= limit {
        lemma_literals_cost(s.len() - anchor, size);
    } else if spec_accepts(s, tab, idx) {
        let len = spec_match_len(s, tab, idx);
        let next = idx + len;
        let size1 = spec_literals(idx - anchor, size);
        let size2 = spec_flz_match(len as int, size1);
        lemma_match_span_bound(s, spec_candidate(s, tab, idx) + 3, idx + 3, limit + 9);
        lemma_literals_cost(idx - anchor, size);
        lemma_match_cost(len as int, size1);
        lemma_scan_bound(
            s,
            spec_record(s, spec_record(s, spec_record(s, tab, idx), next), next + 1),
            next + 2,
            next + 2,
            size2,
        );
    } else {
        lemma_scan_bound(s, spec_record(s, tab, idx), idx + 1, anchor, size);
    }
}

/// The encoding is never longer than the input, one byte more for every 32
/// bytes of it, and one.
pub proof fn lemma_length_bound(s: Seq<u8>)
    ensures
        0 <= spec_flz_compress_len(s) <= s.len() + s.len() / 32 + 1,
{
    lemma_scan_bound(s, spec_empty_table(), 2, 0, 0);
    lemma_scan_nonnegative(s, spec_empty_table(), 2, 0, 0);
}

/// The encoded length never falls below what has been accounted for.
proof fn lemma_scan_nonnegative(s: Seq<u8>, tab: Seq<int>, idx: int, anchor: int, size: int)
    requires
        0 <= anchor <= idx,
        anchor <= s.len(),
        idx == 2 || idx <= spec_idx_limit(s.len() as int) + 8,
    ensures
        size <= spec_scan(s, tab, idx, anchor, size),
    decreases spec_remaining(s, idx),
{
    let limit = spec_idx_limit(s.len() as int);
    if idx >= limit {
        lemma_literals_cost(s.len() - anchor, size);
    } else if spec_accepts(s, tab, idx) {
        let len = spec_match_len(s, tab, idx);
        let next = idx + len;
        let size1 = spec_literals(idx - anchor, size);
        let size2 = spec_flz_match(len as int, size1);
        lemma_match_span_bound(s, spec_candidate(s, tab, idx) + 3, idx + 3, limit + 9);
        lemma_literals_cost(idx - anchor, size);
        lemma_match_cost(len as int, size1);
        lemma_scan_nonnegative(
            s,
            spec_record(s, spec_record(s, spec_record(s, tab, idx), next), next + 1),
            next + 2,
            next + 2,
            size2,
        );
    } else {
        lemma_scan_nonnegative(s, spec_record(s, tab, idx), idx + 1, anchor, size);
    }
}

/// Two windows that read as the same number begin with the same byte.
proof fn lemma_u24_first_byte(s: Seq<u8>, i: int, j: int)
    requires
        0 <= i,
        i + 2 < s.len(),
        0 <= j,
        j + 2 < s.len(),
        spec_u24(s, i) == spec_u24(s, j),
    ensures
        s[i] == s[j],
{
}

/// Where no byte value repeats and the table holds earlier positions only,
/// no match is accepted from `idx` on: what is left is one run of literals.
proof fn lemma_scan_without_repeats(s: Seq<u8>, tab: Seq<int>, idx: int, anchor: int, size: int)
    requires
        distinct_bytes(s),
        tab.len() == 8192,
        forall|h: int| 0 <= h < 8192 ==> 0 <= #[trigger] tab[h] < idx,
    ensures
        spec_scan(s, tab, idx, anchor, size) == spec_literals(s.len() - anchor, size),
    decreases spec_remaining(s, idx),
{
    if idx < spec_idx_limit(s.len() as int) {
        lemma_hash_in_table(spec_u24(s, idx));
        let r = spec_candidate(s, tab, idx);
        if spec_u24(s, idx) == spec_u24(s, r) {
            lemma_u24_first_byte(s, r, idx);
        }
        lemma_scan_without_repeats(s, spec_record(s, tab, idx), idx + 1, anchor, size);
    }
}

/// An input in which no byte value occurs twice offers no match: it is
/// encoded as a single run of literals.
pub proof fn lemma_distinct_bytes_are_literals(s: Seq<u8>)
    requires
        distinct_bytes(s),
    ensures
        spec_flz_compress_len(s) == spec_literals(s.len() as int, 0),
{
    lemma_scan_without_repeats(s, spec_empty_table(), 2, 0, 0);
}

/// A longer run of literals costs more than a shorter one.
pub proof fn lemma_literals_strictly_increasing(a: int, b: int, size: int)
    requires
        0 <= a < b,
    ensures
        spec_literals(a, size) < spec_literals(b, size),
{
    reveal(spec_literals);
}

/// The encoded length of the bytes 0, 1, 2, ... grows strictly with their
/// number, up to all 256 byte values.
pub proof fn lemma_counting_bytes_strictly_increasing(m: nat, n: nat)
    requires
        m < n <= 256,
    ensures
        spec_flz_compress_len(counting_bytes(m)) < spec_flz_compress_len(counting_bytes(n)),
{
    lemma_distinct_bytes_are_literals(counting_bytes(m));
    lemma_distinct_bytes_are_literals(counting_bytes(n));
    lemma_literals_strictly_increasing(m as int, n as int, 0);
}

/// The empty input is encoded in no bytes.
pub proof fn lemma_empty_input()
    ensures
        spec_flz_compress_len(Seq::<u8>::empty()) == 0,
{
    reveal(spec_literals);
    lemma_distinct_bytes_are_literals(Seq::<u8>::empty());
}

/// The encoding of `r` literal bytes from `start` on: blocks of at most 32
/// bytes, each behind one byte that holds the block's length less one.
pub open spec fn spec_emit_literals(s: Seq<u8>, start: int, r: int) -> Seq<u8>
    decreases r,
{
    if r >= 32 {
        seq![31u8] + s.subrange(start, start + 32) + spec_emit_literals(s, start + 32, r - 32)
    } else if r > 0 {
        seq![(r - 1) as u8] + s.subrange(start, start + r)
    } else {
        Seq::empty()
    }
}

/// The encoding of a match whose length beyond its first two bytes is `l`
/// and that reaches back `d + 1` bytes. A length below 7 shares the first
/// byte with the upper bits of the distance; a longer one takes a byte of
/// its own; what exceeds 262 is encoded as a further match.
pub open spec fn spec_emit_match(l: int, d: int) -> Seq<u8>
    decreases l,
{
    if l > 262 {
        seq![(224 + d / 256) as u8, 253u8, (d % 256) as u8] + spec_emit_match(l - 262, d)
    } else if l < 7 {
        seq![(l * 32 + d / 256) as u8, (d % 256) as u8]
    } else {
        seq![(224 + d / 256) as u8, (l - 7) as u8, (d % 256) as u8]
    }
}

/// What the encoder emits from `idx` on, given that everything before
/// `anchor` has been emitted and that `tab` holds the last position seen for
/// each hash.
pub open spec fn spec_emit_scan(s: Seq<u8>, tab: Seq<int>, idx: int, anchor: int) -> Seq<u8>
    decreases spec_remaining(s, idx),
{
    if idx >= spec_idx_limit(s.len() as int) {
        spec_emit_literals(s, anchor, s.len() - anchor)
    } else if spec_accepts(s, tab, idx) {
        let len = spec_match_len(s, tab, idx);
        let next = idx + len;
        spec_emit_literals(s, anchor, idx - anchor) + spec_emit_match(
            len as int,
            idx - spec_candidate(s, tab, idx) - 1,
        ) + spec_emit_scan(
            s,
            spec_record(s, spec_record(s, spec_record(s, tab, idx), next), next + 1),
            next + 2,
            next + 2,
        )
    } else {
        spec_emit_scan(s, spec_record(s, tab, idx), idx + 1, anchor)
    }
}

/// The FastLZ encoding of `s`.
pub open spec fn spec_flz_compress(s: Seq<u8>) -> Seq<u8> {
    spec_emit_scan(s, spec_empty_table(), 2, 0)
}

/// A run of literals is accounted for with the length of its encoding.
pub proof fn lemma_literals_length(s: Seq<u8>, start: int, r: int, size: int)
    requires
        0 <= start,
        0 <= r,
        start + r <= s.len(),
    ensures
        spec_literals(r, size) == size + spec_emit_literals(s, start, r).len(),
    decreases r,
{
    reveal(spec_literals);
    if r >= 32 {
        lemma_literals_length(s, start + 32, r - 32, size);
    }
}

/// A match is accounted for with the length of its encoding.
pub proof fn lemma_match_length(l: int, d: int, size: int)
    requires
        l >= 1,
    ensures
        spec_flz_match(l, size) == size + spec_emit_match(l, d).len(),
    decreases l,
{
    reveal(spec_flz_match);
    if l > 262 {
        lemma_match_length(l - 262, d, size);
    }
}

/// From any point on, the accounting adds up the length of what the encoder
/// emits.
proof fn lemma_scan_length(s: Seq<u8>, tab: Seq<int>, idx: int, anchor: int, size: int)
    requires
        0 <= anchor <= idx,
        anchor <= s.len(),
        idx == 2 || idx <= spec_idx_limit(s.len() as int) + 8,
    ensures
        spec_scan(s, tab, idx, anchor, size) == size + spec_emit_scan(s, tab, idx, anchor).len(),
    decreases spec_remaining(s, idx),
{
    let limit = spec_idx_limit(s.len() as int);
    if idx >= limit {
        lemma_literals_length(s, anchor, s.len() - anchor, size);
    } else if spec_accepts(s, tab, idx) {
        let len = spec_match_len(s, tab, idx);
        let next = idx + len;
        let size1 = spec_literals(idx - anchor, size);
        let size2 = spec_flz_match(len as int, size1);
        lemma_match_span_bound(s, spec_candidate(s, tab, idx) + 3, idx + 3, limit + 9);
        lemma_literals_length(s, anchor, idx - anchor, size);
        lemma_match_length(len as int, idx - spec_candidate(s, tab, idx) - 1, size1);
        lemma_scan_length(
            s,
            spec_record(s, spec_record(s, spec_record(s, tab, idx), next), next + 1),
            next + 2,
            next + 2,
            size2,
        );
    } else {
        lemma_scan_length(s, spec_record(s, tab, idx), idx + 1, anchor, size);
    }
}

/// The length that is computed is the length of the encoding.
pub proof fn lemma_length_of_encoding(s: Seq<u8>)
    ensures
        spec_flz_compress_len(s) == spec_flz_compress(s).len(),
{
    lemma_scan_length(s, spec_empty_table(), 2, 0, 0);
}

} // verus!
