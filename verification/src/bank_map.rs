use vstd::prelude::*;
use std::collections::BTreeSet;
use crate::error::ErrorCode;

verus! {

broadcast use {vstd::std_specs::btree::group_btree_axioms, vstd::laws_cmp::group_laws_cmp};

/// The indices of the banks that an instruction may change.
pub type WritableBanks = BTreeSet<u64>;

/// The set that holds one bank index.
pub fn get_writable_banks(bank_index: u64) -> (r: WritableBanks)
    ensures
        r@ == set![bank_index],
{
    let mut writable_markets = WritableBanks::new();
    writable_markets.insert(bank_index);
    writable_markets
}

/// Bytes of the tag that opens the data of every account.
pub const DISCRIMINATOR_LENGTH: usize = 8;

/// Where the data of a bank account holds the index of the bank.
pub const BANK_INDEX_OFFSET: usize = 8;

/// The number that eight bytes spell, lowest byte first.
pub open spec fn le_u64(bytes: Seq<u8>) -> int
    recommends
        bytes.len() == 8,
{
    bytes[0] + 0x100 * bytes[1] + 0x1_0000 * bytes[2] + 0x100_0000 * bytes[3] + 0x1_0000_0000
        * bytes[4] + 0x100_0000_0000 * bytes[5] + 0x1_0000_0000_0000 * bytes[6]
        + 0x100_0000_0000_0000 * bytes[7]
}

/// Whether account data is that of a bank: long enough for the tag and a
/// bank record of `bank_size` bytes, and opened by the tag of banks.
pub open spec fn is_bank_account(data: Seq<u8>, discriminator: Seq<u8>, bank_size: nat) -> bool {
    &&& data.len() >= bank_size + DISCRIMINATOR_LENGTH
    &&& data.subrange(0, DISCRIMINATOR_LENGTH as int) == discriminator
}

/// The index of the bank that account data describes.
pub open spec fn bank_index_of(data: Seq<u8>) -> int
    recommends
        data.len() >= BANK_INDEX_OFFSET + 8,
{
    le_u64(data.subrange(BANK_INDEX_OFFSET as int, BANK_INDEX_OFFSET + 8))
}

/// Reads the head of account data: the index of the bank if the data is
/// that of a bank, and nothing otherwise. A bank record holds at least its
/// index, so `bank_size` is eight or more.
pub fn read_bank_index(data: &[u8], discriminator: &[u8; 8], bank_size: usize) -> (r: Option<u64>)
    requires
        bank_size >= 8,
    ensures
        r == (if is_bank_account(data@, discriminator@, bank_size as nat) {
            Some(bank_index_of(data@) as u64)
        } else {
            None::<u64>
        }),
        is_bank_account(data@, discriminator@, bank_size as nat) ==> 0 <= bank_index_of(data@)
            <= u64::MAX,
{
    if data.len() < DISCRIMINATOR_LENGTH || data.len() - DISCRIMINATOR_LENGTH < bank_size {
        return None;
    }
    let mut i: usize = 0;
    while i < DISCRIMINATOR_LENGTH
        invariant
            i <= DISCRIMINATOR_LENGTH <= data.len(),
            forall|j: int| 0 <= j < i ==> data@[j] == discriminator@[j],
        decreases DISCRIMINATOR_LENGTH - i,
    {
        if data[i] != discriminator[i] {
            assert(data@.subrange(0, DISCRIMINATOR_LENGTH as int)[i as int] == data@[i as int]);
            return None;
        }
        i = i + 1;
    }
    assert(data@.subrange(0, DISCRIMINATOR_LENGTH as int) =~= discriminator@);
    let ghost bytes = data@.subrange(BANK_INDEX_OFFSET as int, BANK_INDEX_OFFSET + 8);
    assert(forall|j: int| 0 <= j < 8 ==> bytes[j] == data@[BANK_INDEX_OFFSET + j]);
    let b0 = data[BANK_INDEX_OFFSET] as u64;
    let b1 = data[BANK_INDEX_OFFSET + 1] as u64;
    let b2 = data[BANK_INDEX_OFFSET + 2] as u64;
    let b3 = data[BANK_INDEX_OFFSET + 3] as u64;
    let b4 = data[BANK_INDEX_OFFSET + 4] as u64;
    let b5 = data[BANK_INDEX_OFFSET + 5] as u64;
    let b6 = data[BANK_INDEX_OFFSET + 6] as u64;
    let b7 = data[BANK_INDEX_OFFSET + 7] as u64;
    let low: u64 = b0 + 0x100 * b1 + 0x1_0000 * b2 + 0x100_0000 * b3;
    let high: u64 = b4 + 0x100 * b5 + 0x1_0000 * b6 + 0x100_0000 * b7;
    Some(low + 0x1_0000_0000 * high)
}

/// Holds an account to the set of banks that must be writable: a bank in
/// the set that was handed over read-only is refused.
pub fn check_bank_mutability(
    writable_banks: &WritableBanks,
    bank_index: u64,
    is_writable: bool,
) -> (r: Result<(), ErrorCode>)
    ensures
        r == (if writable_banks@.contains(bank_index) && !is_writable {
            Err::<(), ErrorCode>(ErrorCode::BankWrongMutability)
        } else {
            Ok::<(), ErrorCode>(())
        }),
{
    if writable_banks.contains(&bank_index) && !is_writable {
        return Err(ErrorCode::BankWrongMutability);
    }
    Ok(())
}

} // verus!
