//! The block header as the host sends it, and the block environment that
//! the EVM runs in.

use vstd::prelude::*;

verus! {

/// Largest excess blob gas for which the blob gas price is computed: beyond
/// it the 128-bit arithmetic of the price formula overflows.
pub const MAX_EXCESS_BLOB_GAS: u64 = 192_204_552;

/// The block header as it comes over the wire: numbers as big-endian bytes.
#[derive(Clone, Debug)]
pub struct Block {
    pub number: Vec<u8>,
    pub coinbase: Vec<u8>,
    pub timestamp: Vec<u8>,
    pub gas_limit: Vec<u8>,
    pub basefee: Vec<u8>,
    pub difficulty: Vec<u8>,
    pub prevrandao: Vec<u8>,
    pub excess_blob_gas: Option<u64>,
}

#[derive(Clone, Debug)]
pub struct BlockProto(pub Block);

/// The excess blob gas of a block and the blob gas price that follows from it.
#[derive(Clone, Copy, Debug, PartialEq, Eq, Structural)]
pub struct BlobExcessGasAndPrice {
    pub excess_blob_gas: u64,
    pub blob_gasprice: u128,
}

/// The environment of one block: 256-bit numbers as 32 big-endian bytes.
#[derive(Clone, Copy, Debug)]
pub struct BlockEnv {
    pub number: [u8; 32],
    pub coinbase: [u8; 20],
    pub timestamp: [u8; 32],
    pub gas_limit: [u8; 32],
    pub basefee: [u8; 32],
    pub difficulty: [u8; 32],
    pub prevrandao: Option<[u8; 32]>,
    pub blob_excess_gas_and_price: Option<BlobExcessGasAndPrice>,
}

/// A big-endian number of at most 32 bytes, written in exactly 32: zeros in
/// front, then the bytes.
pub open spec fn spec_word(bytes: Seq<u8>) -> Seq<u8> {
    Seq::new(
        32,
        |i: int|
            if i < 32 - bytes.len() {
                0u8
            } else {
                bytes[i - (32 - bytes.len())]
            },
    )
}

/// Whether all of the bytes are zero.
pub open spec fn spec_all_zero(bytes: Seq<u8>) -> bool {
    forall|i: int| 0 <= i < bytes.len() ==> bytes[i] == 0
}

/// The blob gas price that `revm_primitives` computes for an excess blob gas.
pub uninterp spec fn spec_blob_gasprice(excess_blob_gas: u64) -> u128;

/// The blob fee of a block with this excess blob gas, where `price` is the
/// price that belongs to it: none without excess blob gas.
pub open spec fn spec_blob_fee(excess_blob_gas: Option<u64>, price: u128) -> Option<
    BlobExcessGasAndPrice,
> {
    match excess_blob_gas {
        Some(excess) => if excess == 0 {
            None
        } else {
            Some(BlobExcessGasAndPrice { excess_blob_gas: excess, blob_gasprice: price })
        },
        None => None,
    }
}

/// The excess blob gas that the price is asked for: zero where there is none.
pub open spec fn spec_excess(excess_blob_gas: Option<u64>) -> u64 {
    match excess_blob_gas {
        Some(excess) => excess,
        None => 0,
    }
}

/// `revm_primitives::BlobExcessGasAndPrice::new`, of which the price is
/// kept: the price is a function of the excess blob gas alone. Excess blob
/// gas beyond the bound is left out because the computation overflows there.
#[verifier::external_body]
fn blob_gasprice(excess_blob_gas: u64) -> (price: u128)
    requires
        excess_blob_gas <= MAX_EXCESS_BLOB_GAS,
    ensures
        price == spec_blob_gasprice(excess_blob_gas),
{
    revm_primitives::BlobExcessGasAndPrice::new(excess_blob_gas).blob_gasprice
}

/// Writes a big-endian number of at most 32 bytes in exactly 32.
pub fn word_from_be_slice(bytes: &[u8]) -> (word: [u8; 32])
    requires
        bytes@.len() <= 32,
    ensures
        word@ == spec_word(bytes@),
{
    let mut word: [u8; 32] = [0u8; 32];
    let pad: usize = 32 - bytes.len();
    let mut i: usize = 0;
    while i < bytes.len()
        invariant
            i <= bytes@.len() <= 32,
            pad == 32 - bytes@.len(),
            forall|j: int| 0 <= j < pad ==> word@[j] == 0,
            forall|j: int| pad <= j < pad + i ==> word@[j] == bytes@[j - pad],
        decreases bytes@.len() - i,
    {
        word[pad + i] = bytes[i];
        i += 1;
    }
    word
}

/// Copies exactly 32 bytes.
pub fn hash_from_slice(bytes: &[u8]) -> (hash: [u8; 32])
    requires
        bytes@.len() == 32,
    ensures
        hash@ == bytes@,
{
    let mut hash: [u8; 32] = [0u8; 32];
    let mut i: usize = 0;
    while i < 32
        invariant
            i <= 32,
            bytes@.len() == 32,
            forall|j: int| 0 <= j < i ==> hash@[j] == bytes@[j],
        decreases 32 - i,
    {
        hash[i] = bytes[i];
        i += 1;
    }
    hash
}

/// Copies exactly 20 bytes.
pub fn address_from_slice(bytes: &[u8]) -> (address: [u8; 20])
    requires
        bytes@.len() == 20,
    ensures
        address@ == bytes@,
{
    let mut address: [u8; 20] = [0u8; 20];
    let mut i: usize = 0;
    while i < 20
        invariant
            i <= 20,
            bytes@.len() == 20,
            forall|j: int| 0 <= j < i ==> address@[j] == bytes@[j],
        decreases 20 - i,
    {
        address[i] = bytes[i];
        i += 1;
    }
    address
}

/// Whether all of the bytes are zero.
pub fn all_zero(bytes: &[u8]) -> (zero: bool)
    ensures
        zero == spec_all_zero(bytes@),
{
    let mut i: usize = 0;
    while i < bytes.len()
        invariant
            i <= bytes@.len(),
            forall|j: int| 0 <= j < i ==> bytes@[j] == 0,
        decreases bytes@.len() - i,
    {
        if bytes[i] != 0 {
            return false;
        }
        i += 1;
    }
    true
}

/// The blob fee for an excess blob gas and the price that belongs to it.
pub fn blob_fee_with_price(excess_blob_gas: Option<u64>, price: u128) -> (fee: Option<
    BlobExcessGasAndPrice,
>)
    ensures
        fee == spec_blob_fee(excess_blob_gas, price),
{
    match excess_blob_gas {
        Some(excess) => if excess == 0 {
            None
        } else {
            Some(BlobExcessGasAndPrice { excess_blob_gas: excess, blob_gasprice: price })
        },
        None => None,
    }
}

/// The blob fee of a block with this excess blob gas: none without excess
/// blob gas, else the excess with its price.
pub fn blob_fee(excess_blob_gas: Option<u64>) -> (fee: Option<BlobExcessGasAndPrice>)
    requires
        spec_excess(excess_blob_gas) <= MAX_EXCESS_BLOB_GAS,
    ensures
        fee == spec_blob_fee(excess_blob_gas, spec_blob_gasprice(spec_excess(excess_blob_gas))),
{
    match excess_blob_gas {
        Some(excess) => if excess == 0 {
            None
        } else {
            blob_fee_with_price(excess_blob_gas, blob_gasprice(excess))
        },
        None => None,
    }
}

impl Block {
    /// Whether the header can be turned into a block environment: the
    /// numbers have at most 32 bytes, the beneficiary exactly 20, the
    /// randomness exactly 32, and the excess blob gas is within the bound.
    pub open spec fn spec_convertible(&self) -> bool {
        &&& self.number@.len() <= 32
        &&& self.coinbase@.len() == 20
        &&& self.timestamp@.len() <= 32
        &&& self.gas_limit@.len() <= 32
        &&& self.basefee@.len() <= 32
        &&& self.difficulty@.len() <= 32
        &&& self.prevrandao@.len() == 32
        &&& spec_excess(self.excess_blob_gas) <= MAX_EXCESS_BLOB_GAS
    }

    /// Tells whether the header can be turned into a block environment.
    pub fn convertible(&self) -> (ok: bool)
        ensures
            ok == self.spec_convertible(),
    {
        self.number.len() <= 32 && self.coinbase.len() == 20 && self.timestamp.len() <= 32
            && self.gas_limit.len() <= 32 && self.basefee.len() <= 32 && self.difficulty.len()
            <= 32 && self.prevrandao.len() == 32 && match self.excess_blob_gas {
            Some(excess) => excess <= MAX_EXCESS_BLOB_GAS,
            None => true,
        }
    }
}

impl From<Block> for BlockProto {
    fn from(inner: Block) -> (proto: Self) {
        Self(inner)
    }
}

impl vstd::std_specs::convert::FromSpecImpl<Block> for BlockProto {
    open spec fn obeys_from_spec() -> bool {
        true
    }

    open spec fn from_spec(inner: Block) -> Self {
        BlockProto(inner)
    }
}

impl BlockProto {
    pub fn new(inner: Block) -> (proto: Self)
        ensures
            proto.0 == inner,
    {
        Self(inner)
    }

    pub fn into_inner(self) -> (inner: Block)
        ensures
            inner == self.0,
    {
        self.0
    }
}

impl BlockEnv {
    /// The block environment of a header. The randomness is kept only where
    /// it is not all zero, the blob fee only where there is excess blob gas.
    pub fn try_from_proto(block: BlockProto) -> (env: Result<BlockEnv, Vec<u8>>)
        requires
            block.0.spec_convertible(),
        ensures
            env.is_ok(),
            env.unwrap().number@ == spec_word(block.0.number@),
            env.unwrap().coinbase@ == block.0.coinbase@,
            env.unwrap().timestamp@ == spec_word(block.0.timestamp@),
            env.unwrap().gas_limit@ == spec_word(block.0.gas_limit@),
            env.unwrap().basefee@ == spec_word(block.0.basefee@),
            env.unwrap().difficulty@ == spec_word(block.0.difficulty@),
            spec_all_zero(block.0.prevrandao@) ==> env.unwrap().prevrandao.is_none(),
            !spec_all_zero(block.0.prevrandao@) ==> env.unwrap().prevrandao.is_some()
                && env.unwrap().prevrandao.unwrap()@ == block.0.prevrandao@,
            env.unwrap().blob_excess_gas_and_price == spec_blob_fee(
                block.0.excess_blob_gas,
                spec_blob_gasprice(spec_excess(block.0.excess_blob_gas)),
            ),
    {
        let block: Block = block.into_inner();
        let prevrandao: [u8; 32] = hash_from_slice(block.prevrandao.as_slice());
        Ok(
            BlockEnv {
                number: word_from_be_slice(block.number.as_slice()),
                coinbase: address_from_slice(block.coinbase.as_slice()),
                timestamp: word_from_be_slice(block.timestamp.as_slice()),
                gas_limit: word_from_be_slice(block.gas_limit.as_slice()),
                basefee: word_from_be_slice(block.basefee.as_slice()),
                difficulty: word_from_be_slice(block.difficulty.as_slice()),
                prevrandao: if all_zero(block.prevrandao.as_slice()) {
                    None
                } else {
                    Some(prevrandao)
                },
                blob_excess_gas_and_price: blob_fee(block.excess_blob_gas),
            },
        )
    }
}

} // verus!
