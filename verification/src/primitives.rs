//! Plain values of the chain: addresses, transaction hashes, 256-bit
//! integers and pending transactions.

use vstd::prelude::*;

verus! {

/// `2^64`.
pub open spec fn pow2_64() -> int {
    0x1_0000_0000_0000_0000int
}

/// `2^128`.
pub open spec fn pow2_128() -> int {
    0x1_0000_0000_0000_0000_0000_0000_0000_0000int
}

/// The integer that four 64-bit limbs stand for, least significant limb first.
pub open spec fn limbs_value(limbs: Seq<u64>) -> int
    recommends
        limbs.len() == 4,
{
    limbs[0] + pow2_64() * (limbs[1] + pow2_64() * (limbs[2] + pow2_64() * limbs[3]))
}

/// A 20-byte chain address.
#[derive(Clone, Copy, Debug, PartialEq, Eq, Hash)]
pub struct Address {
    pub bytes: [u8; 20],
}

impl View for Address {
    type V = Seq<u8>;

    open spec fn view(&self) -> Seq<u8> {
        self.bytes@
    }
}

impl Address {
    /// The address made of these 20 bytes.
    pub fn new(bytes: [u8; 20]) -> (address: Address)
        ensures
            address.bytes == bytes,
            address@ == bytes@,
    {
        Address { bytes }
    }

    /// Whether two addresses hold the same 20 bytes.
    pub fn same_as(&self, other: &Address) -> (same: bool)
        ensures
            same == (self@ == other@),
            same == (*self == *other),
    {
        let mut i: usize = 0;
        while i < 20
            invariant
                i <= 20,
                forall|k: int| 0 <= k < i ==> self.bytes@[k] == other.bytes@[k],
            decreases 20 - i,
        {
            if self.bytes[i] != other.bytes[i] {
                return false;
            }
            i += 1;
        }
        assert(self.bytes@ =~= other.bytes@);
        assert(self.bytes == other.bytes);
        true
    }
}

/// The 32-byte hash that names a transaction.
#[derive(Clone, Copy, Debug, PartialEq, Eq, Hash)]
pub struct TxHash {
    pub bytes: [u8; 32],
}

impl View for TxHash {
    type V = Seq<u8>;

    open spec fn view(&self) -> Seq<u8> {
        self.bytes@
    }
}

/// An unsigned 256-bit integer, held as its upper and lower 128 bits.
#[derive(Clone, Copy, Debug, PartialEq, Eq, Hash)]
pub struct U256 {
    pub hi: u128,
    pub lo: u128,
}

impl View for U256 {
    type V = int;

    open spec fn view(&self) -> int {
        self.hi * pow2_128() + self.lo
    }
}

impl U256 {
    /// The 256-bit integer with the value `n`, for `0 <= n < 2^256`.
    pub open spec fn from_int(n: int) -> U256 {
        U256 { hi: (n / pow2_128()) as u128, lo: (n % pow2_128()) as u128 }
    }

    /// The integer `value`, widened.
    pub fn from_u64(value: u64) -> (n: U256)
        ensures
            n@ == value,
            n == U256::from_int(value as int),
    {
        U256 { hi: 0, lo: value as u128 }
    }

    /// The integer that four 64-bit limbs stand for, least significant limb
    /// first.
    pub fn from_limbs(limbs: [u64; 4]) -> (n: U256)
        ensures
            n@ == limbs_value(limbs@),
            n == U256::from_int(limbs_value(limbs@)),
    {
        let lo: u128 = (limbs[1] as u128) * 0x1_0000_0000_0000_0000u128 + (limbs[0] as u128);
        let hi: u128 = (limbs[3] as u128) * 0x1_0000_0000_0000_0000u128 + (limbs[2] as u128);
        U256 { hi, lo }
    }

    /// The four 64-bit limbs of the integer, least significant limb first.
    pub fn to_limbs(&self) -> (limbs: [u64; 4])
        ensures
            limbs_value(limbs@) == self@,
    {
        let l0: u64 = (self.lo % 0x1_0000_0000_0000_0000u128) as u64;
        let l1: u64 = (self.lo / 0x1_0000_0000_0000_0000u128) as u64;
        let l2: u64 = (self.hi % 0x1_0000_0000_0000_0000u128) as u64;
        let l3: u64 = (self.hi / 0x1_0000_0000_0000_0000u128) as u64;
        [l0, l1, l2, l3]
    }
}

/// A transaction that a node has seen and that no block holds yet.
#[derive(Clone, Debug, PartialEq, Eq)]
pub struct PendingTransaction {
    /// The hash that names the transaction.
    pub hash: TxHash,
    /// The address it is sent to; none where it creates a contract.
    pub to: Option<Address>,
    /// The calldata.
    pub input: Vec<u8>,
    /// The envelope type, where the node gives one.
    pub transaction_type: Option<u64>,
    /// The gas price of a legacy transaction.
    pub gas_price: Option<U256>,
    /// The fee cap of a fee-market transaction.
    pub max_fee_per_gas: Option<U256>,
    /// The tip cap of a fee-market transaction.
    pub max_priority_fee_per_gas: Option<U256>,
}

/// Two 256-bit integers with the same value are the same.
pub proof fn lemma_u256_value_is_injective(a: U256, b: U256)
    requires
        a@ == b@,
    ensures
        a == b,
{
}

/// Every 256-bit integer lies in `0 .. 2^256` and is recovered from its value.
pub proof fn lemma_u256_from_value(a: U256)
    ensures
        0 <= a@ < pow2_128() * pow2_128(),
        U256::from_int(a@) == a,
{
}

} // verus!
