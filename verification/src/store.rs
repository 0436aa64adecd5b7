//! Keys and records of the artifact store: a key is a one-byte prefix
//! followed by a 32-byte code hash, a count is kept as eight big-endian bytes.

use crate::bytes::{append_bytes, same_bytes};
use vstd::prelude::*;

verus! {

/// Identifier of a contract's bytecode.
pub type CodeHash = [u8; 32];

/// Width of a stored key: the prefix byte and the code hash.
pub const KEY_LEN: usize = 33;

/// Width of a stored count.
pub const COUNT_LEN: usize = 8;

/// The kinds of record kept for a code hash.
#[derive(Clone, Copy, Debug, PartialEq, Eq, Structural)]
pub enum KeyPrefix {
    /// How often the code has been executed.
    Count,
    /// Where the compiled shared object lies; its presence publishes the artifact.
    ArtifactPath,
    /// The symbol that the shared object exports for the code.
    SymbolLabel,
    /// The bytecode itself, kept for deferred queueing.
    Bytecode,
}

impl KeyPrefix {
    /// The byte that stands for this prefix in a stored key.
    pub open spec fn spec_tag(self) -> u8 {
        match self {
            KeyPrefix::Count => 1,
            KeyPrefix::ArtifactPath => 2,
            KeyPrefix::SymbolLabel => 3,
            KeyPrefix::Bytecode => 4,
        }
    }

    /// The prefix that a byte stands for, if any.
    pub open spec fn spec_from_tag(tag: u8) -> Option<KeyPrefix> {
        if tag == 1 {
            Some(KeyPrefix::Count)
        } else if tag == 2 {
            Some(KeyPrefix::ArtifactPath)
        } else if tag == 3 {
            Some(KeyPrefix::SymbolLabel)
        } else if tag == 4 {
            Some(KeyPrefix::Bytecode)
        } else {
            None
        }
    }

    /// Returns the byte that stands for this prefix in a stored key.
    pub fn tag(self) -> (t: u8)
        ensures
            t == self.spec_tag(),
    {
        match self {
            KeyPrefix::Count => 1,
            KeyPrefix::ArtifactPath => 2,
            KeyPrefix::SymbolLabel => 3,
            KeyPrefix::Bytecode => 4,
        }
    }

    /// Reads a prefix back from its byte; `None` for any other byte.
    pub fn from_tag(tag: u8) -> (p: Option<KeyPrefix>)
        ensures
            p == Self::spec_from_tag(tag),
    {
        if tag == 1 {
            Some(KeyPrefix::Count)
        } else if tag == 2 {
            Some(KeyPrefix::ArtifactPath)
        } else if tag == 3 {
            Some(KeyPrefix::SymbolLabel)
        } else if tag == 4 {
            Some(KeyPrefix::Bytecode)
        } else {
            None
        }
    }
}

/// The key of one record: which kind it is, and for which code.
#[derive(Clone, Copy, Debug)]
pub struct QueryKey {
    pub prefix: KeyPrefix,
    pub hash: CodeHash,
}

/// The stored form of a key: the prefix byte, then the hash.
pub open spec fn spec_key_bytes(prefix: KeyPrefix, hash: Seq<u8>) -> Seq<u8> {
    seq![prefix.spec_tag()] + hash
}

impl QueryKey {
    /// The stored form of this key.
    pub open spec fn spec_bytes(self) -> Seq<u8> {
        spec_key_bytes(self.prefix, self.hash@)
    }

    /// The key of the record of kind `prefix` for `hash`.
    pub fn with_prefix(hash: CodeHash, prefix: KeyPrefix) -> (key: QueryKey)
        ensures
            key.prefix == prefix,
            key.hash == hash,
    {
        QueryKey { prefix, hash }
    }

    /// Turns the key into that of another record of the same code.
    pub fn update_prefix(&mut self, prefix: KeyPrefix)
        ensures
            final(self).prefix == prefix,
            final(self).hash == old(self).hash,
    {
        self.prefix = prefix;
    }

    /// Whether the key names a record of kind `prefix`.
    pub fn match_prefix(&self, prefix: KeyPrefix) -> (m: bool)
        ensures
            m == (self.prefix == prefix),
    {
        self.prefix.tag() == prefix.tag()
    }

    /// The code hash that the key is for.
    pub fn to_b256(&self) -> (hash: CodeHash)
        ensures
            hash == self.hash,
    {
        self.hash
    }

    /// Writes the key in its stored form.
    pub fn to_bytes(&self) -> (bytes: Vec<u8>)
        ensures
            bytes@ == self.spec_bytes(),
            bytes@.len() == KEY_LEN,
    {
        let mut bytes: Vec<u8> = Vec::with_capacity(KEY_LEN);
        bytes.push(self.prefix.tag());
        append_bytes(&mut bytes, self.hash.as_slice());
        bytes
    }

    /// Reads a key back from its stored form: `Some` exactly for 33 bytes
    /// that begin with the byte of a prefix.
    pub fn from_bytes(bytes: &[u8]) -> (key: Option<QueryKey>)
        ensures
            key.is_some() <==> bytes@.len() == KEY_LEN && KeyPrefix::spec_from_tag(
                bytes@[0],
            ).is_some(),
            key.is_some() ==> key.unwrap().spec_bytes() == bytes@,
    {
        if bytes.len() != KEY_LEN {
            return None;
        }
        match KeyPrefix::from_tag(bytes[0]) {
            None => None,
            Some(prefix) => {
                let mut hash: CodeHash = [0u8; 32];
                let mut i: usize = 0;
                while i < 32
                    invariant
                        i <= 32,
                        bytes@.len() == KEY_LEN,
                        forall|j: int| 0 <= j < i ==> hash@[j] == bytes@[j + 1],
                    decreases 32 - i,
                {
                    hash[i] = bytes[i + 1];
                    i += 1;
                }
                Some(QueryKey { prefix, hash })
            },
        }
    }
}

/// Reading a written key gives the key back.
pub proof fn lemma_key_round_trip(key: QueryKey)
    ensures
        key.spec_bytes().len() == KEY_LEN,
        KeyPrefix::spec_from_tag(key.spec_bytes()[0]) == Some(key.prefix),
        key.spec_bytes().subrange(1, 33) == key.hash@,
{
}

/// Two stored keys are the same only for the same prefix and the same hash.
pub proof fn lemma_key_bytes_injective(p: KeyPrefix, g: Seq<u8>, q: KeyPrefix, h: Seq<u8>)
    ensures
        spec_key_bytes(p, g) == spec_key_bytes(q, h) ==> p == q && g == h,
{
    if spec_key_bytes(p, g) == spec_key_bytes(q, h) {
        assert(spec_key_bytes(p, g)[0] == p.spec_tag());
        assert(spec_key_bytes(q, h)[0] == q.spec_tag());
        assert(spec_key_bytes(p, g).subrange(1, 1 + g.len() as int) =~= g);
        assert(spec_key_bytes(q, h).subrange(1, 1 + h.len() as int) =~= h);
    }
}

/// Whether two code hashes are the same.
pub fn same_hash(a: &CodeHash, b: &CodeHash) -> (same: bool)
    ensures
        same == (a@ == b@),
{
    same_bytes(a.as_slice(), b.as_slice())
}

/// The keys of kind `prefix` among `keys`, in their order.
pub open spec fn spec_iter_prefix(keys: Seq<QueryKey>, prefix: KeyPrefix) -> Seq<QueryKey>
    decreases keys.len(),
{
    if keys.len() == 0 {
        Seq::empty()
    } else if keys.last().prefix == prefix {
        spec_iter_prefix(keys.drop_last(), prefix).push(keys.last())
    } else {
        spec_iter_prefix(keys.drop_last(), prefix)
    }
}

/// Picks the keys of kind `prefix` out of the keys of the store.
pub fn iter_prefix(keys: &Vec<QueryKey>, prefix: KeyPrefix) -> (found: Vec<QueryKey>)
    ensures
        found@ == spec_iter_prefix(keys@, prefix),
{
    let mut found: Vec<QueryKey> = Vec::new();
    let mut i: usize = 0;
    while i < keys.len()
        invariant
            i <= keys@.len(),
            found@ == spec_iter_prefix(keys@.take(i as int), prefix),
        decreases keys@.len() - i,
    {
        proof {
            let next = keys@.take(i + 1);
            assert(next.drop_last() =~= keys@.take(i as int));
        }
        if keys[i].match_prefix(prefix) {
            found.push(keys[i]);
        }
        i += 1;
    }
    assert(keys@.take(keys@.len() as int) =~= keys@);
    found
}

/// The number that the first `k` of the bytes hold, most significant byte
/// first.
pub open spec fn spec_be_prefix(s: Seq<u8>, k: nat) -> int
    decreases k,
{
    if k == 0 {
        0
    } else {
        spec_be_prefix(s, (k - 1) as nat) * 256 + s[k - 1] as int
    }
}

/// The number that eight bytes hold, most significant byte first.
pub open spec fn spec_be_u64(s: Seq<u8>) -> int {
    spec_be_prefix(s, 8)
}

/// Writes a count as eight big-endian bytes.
pub fn encode_count(count: u64) -> (bytes: [u8; 8])
    ensures
        spec_be_u64(bytes@) == count,
{
    let b7: u8 = (count % 0x100) as u8;
    let q1: u64 = count / 0x100;
    let b6: u8 = (q1 % 0x100) as u8;
    let q2: u64 = q1 / 0x100;
    let b5: u8 = (q2 % 0x100) as u8;
    let q3: u64 = q2 / 0x100;
    let b4: u8 = (q3 % 0x100) as u8;
    let q4: u64 = q3 / 0x100;
    let b3: u8 = (q4 % 0x100) as u8;
    let q5: u64 = q4 / 0x100;
    let b2: u8 = (q5 % 0x100) as u8;
    let q6: u64 = q5 / 0x100;
    let b1: u8 = (q6 % 0x100) as u8;
    let q7: u64 = q6 / 0x100;
    let b0: u8 = q7 as u8;
    let bytes: [u8; 8] = [b0, b1, b2, b3, b4, b5, b6, b7];
    proof {
        let s = bytes@;
        reveal_with_fuel(spec_be_prefix, 2);
        assert(spec_be_prefix(s, 1) == q7);
        assert(spec_be_prefix(s, 2) == q6);
        assert(spec_be_prefix(s, 3) == q5);
        assert(spec_be_prefix(s, 4) == q4);
        assert(spec_be_prefix(s, 5) == q3);
        assert(spec_be_prefix(s, 6) == q2);
        assert(spec_be_prefix(s, 7) == q1);
    }
    bytes
}

/// Reads a count back: `Some` exactly for eight bytes.
pub fn decode_count(bytes: &[u8]) -> (count: Option<u64>)
    ensures
        count.is_some() <==> bytes@.len() == COUNT_LEN,
        count.is_some() ==> count.unwrap() == spec_be_u64(bytes@),
{
    if bytes.len() != COUNT_LEN {
        return None;
    }
    let mut v: u64 = 0;
    let mut i: usize = 0;
    while i < 8
        invariant
            i <= 8,
            bytes@.len() == 8,
            v == spec_be_prefix(bytes@, i as nat),
            i < 8 ==> v < 0x100_0000_0000_0000,
        decreases 8 - i,
    {
        proof {
            lemma_be_prefix_bound(bytes@, i as nat);
            lemma_be_prefix_bound(bytes@, (i + 1) as nat);
        }
        v = v * 0x100 + bytes[i] as u64;
        i += 1;
    }
    Some(v)
}

/// A record as the store hands it out, as its bytes.
pub open spec fn spec_record_bytes(stored: Option<Vec<u8>>) -> Option<Seq<u8>> {
    match stored {
        Some(bytes) => Some(bytes@),
        None => None,
    }
}

/// The count that a stored record stands for: what it holds, or zero where
/// the record is missing or is not eight bytes long.
pub open spec fn spec_stored_count(stored: Option<Seq<u8>>) -> int {
    match stored {
        Some(bytes) => if bytes.len() == COUNT_LEN {
            spec_be_u64(bytes)
        } else {
            0
        },
        None => 0,
    }
}

/// The first `k` of the bytes hold a number below 256 to the power `k`.
pub proof fn lemma_be_prefix_bound(s: Seq<u8>, k: nat)
    requires
        k <= 8,
        k <= s.len(),
    ensures
        0 <= spec_be_prefix(s, k),
        k <= 1 ==> spec_be_prefix(s, k) < 0x100,
        k <= 7 ==> spec_be_prefix(s, k) < 0x100_0000_0000_0000,
        spec_be_prefix(s, k) <= u64::MAX,
    decreases k,
{
    reveal_with_fuel(spec_be_prefix, 9);
}

/// Two byte strings that agree on the number held by their first `k` bytes
/// agree on those bytes.
pub proof fn lemma_be_prefix_injective(a: Seq<u8>, b: Seq<u8>, k: nat)
    requires
        k <= a.len(),
        k <= b.len(),
        spec_be_prefix(a, k) == spec_be_prefix(b, k),
    ensures
        forall|j: int| 0 <= j < k ==> a[j] == b[j],
    decreases k,
{
    if k > 0 {
        lemma_be_prefix_injective(a, b, (k - 1) as nat);
    }
}

/// Eight bytes are determined by the number they hold.
pub proof fn lemma_be_u64_injective(a: Seq<u8>, b: Seq<u8>)
    requires
        a.len() == 8,
        b.len() == 8,
        spec_be_u64(a) == spec_be_u64(b),
    ensures
        a == b,
{
    lemma_be_prefix_injective(a, b, 8);
}

} // verus!
