//! Plain value types for the identifiers the protocol hands around:
//! 32-byte hashes (blocks, transactions, code) and 32-byte account ids.

use vstd::prelude::*;

verus! {

/// A 256-bit hash, held as 32 plain bytes.
#[derive(Copy, Clone, Debug, PartialEq, Eq, Hash)]
pub struct Hash256 {
    /// The hash bytes.
    pub bytes: [u8; 32],
}

/// An alias for a block hash type.
pub type BlockHash = Hash256;
/// An alias for a transaction hash type.
pub type TxHash = Hash256;
/// An alias for a code hash type.
pub type CodeHash = Hash256;

impl Hash256 {
    /// The bytes of the hash, as a mathematical sequence.
    pub open spec fn view(self) -> Seq<u8> {
        self.bytes@
    }

    /// Whether every byte of the hash is zero: the default value a block
    /// identifier keeps when no block has been attributed.
    pub open spec fn spec_is_zero(self) -> bool {
        forall|i: int| 0 <= i < 32 ==> self.bytes@[i] == 0u8
    }

    /// Builds a hash from its 32 bytes.
    pub fn new(bytes: [u8; 32]) -> (r: Hash256)
        ensures
            r.bytes@ == bytes@,
    {
        Hash256 { bytes }
    }

    /// The all-zero hash value, the default a block identifier keeps
    /// before any block has been attributed.
    pub open spec fn spec_zero() -> Hash256 {
        Hash256 { bytes: vstd::array::spec_array_fill_for_copy_type::<u8, 32>(0u8) }
    }

    /// The all-zero hash, the default value of a block identifier before
    /// any block has been attributed.
    pub fn zero() -> (r: Hash256)
        ensures
            r == Hash256::spec_zero(),
            r.spec_is_zero(),
    {
        proof {
            vstd::array::axiom_spec_array_fill_for_copy_type::<u8, 32>(0u8);
        }
        Hash256 { bytes: [0u8; 32] }
    }

    /// The all-zero hash is indeed all zero, and it is the only such
    /// hash.
    pub proof fn lemma_zero_unique(h: Hash256)
        ensures
            Hash256::spec_zero().spec_is_zero(),
            h.spec_is_zero() ==> h == Hash256::spec_zero(),
    {
        vstd::array::axiom_spec_array_fill_for_copy_type::<u8, 32>(0u8);
        if h.spec_is_zero() {
            assert(h.bytes =~= Hash256::spec_zero().bytes);
        }
    }

    /// Whether every byte of the hash is zero.
    pub fn is_zero(&self) -> (r: bool)
        ensures
            r == self.spec_is_zero(),
    {
        let mut i: usize = 0;
        while i < 32
            invariant
                i <= 32,
                forall|j: int| 0 <= j < i ==> self.bytes@[j] == 0u8,
            decreases 32 - i,
        {
            if self.bytes[i] != 0 {
                return false;
            }
            i += 1;
        }
        true
    }
}

/// An account identifier on the remote ledger, held as 32 plain bytes
/// (the public key of the signing scheme).
#[derive(Copy, Clone, Debug, PartialEq, Eq, Hash)]
pub struct AccountId {
    /// The account id bytes.
    pub bytes: [u8; 32],
}

impl AccountId {
    /// The bytes of the account id, as a mathematical sequence.
    pub open spec fn view(self) -> Seq<u8> {
        self.bytes@
    }

    /// Builds an account id from its 32 bytes.
    pub fn new(bytes: [u8; 32]) -> (r: AccountId)
        ensures
            r.bytes@ == bytes@,
    {
        AccountId { bytes }
    }
}

} // verus!
