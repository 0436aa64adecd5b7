//! What a transaction's changes mean for the host's state database: which
//! accounts are written, with which storage slots, and which are deleted.

use crate::bytes::same_bytes;
use vstd::prelude::*;

verus! {

/// One storage slot of an account as a transaction left it.
#[derive(Clone, Copy, Debug)]
pub struct StorageSlot {
    pub key: [u8; 32],
    pub original_value: [u8; 32],
    pub present_value: [u8; 32],
}

/// One account as a transaction left it.
#[derive(Debug)]
pub struct AccountChange {
    pub address: [u8; 20],
    pub touched: bool,
    pub selfdestructed: bool,
    /// Whether the account's information carries its bytecode.
    pub has_code: bool,
    pub code_hash: [u8; 32],
    pub storage: Vec<StorageSlot>,
}

/// A slot to write: its index and its new value.
#[derive(Clone, Copy, Debug)]
pub struct SlotUpdate {
    pub key: [u8; 32],
    pub value: [u8; 32],
}

/// An account to write.
#[derive(Debug)]
pub struct AccountUpdate {
    pub address: [u8; 20],
    /// The hash of the bytecode to look up before the account is written,
    /// where its information does not carry the bytecode.
    pub fetch_code: Option<[u8; 32]>,
    /// The slots whose value changed, in the order of the account's slots.
    pub slots: Vec<SlotUpdate>,
}

/// What is handed to the host when a transaction is committed.
#[derive(Debug)]
pub struct CommitSet {
    pub updated: Vec<AccountUpdate>,
    pub deleted: Vec<[u8; 20]>,
}

/// Whether an account is deleted by the commit: it was touched and
/// self-destructed.
pub open spec fn spec_is_deleted(change: AccountChange) -> bool {
    change.touched && change.selfdestructed
}

/// Whether an account is written by the commit: it was touched and did not
/// self-destruct.
pub open spec fn spec_is_updated(change: AccountChange) -> bool {
    change.touched && !change.selfdestructed
}

/// The addresses of the deleted accounts, in the order of the changes.
pub open spec fn spec_deleted(changes: Seq<AccountChange>) -> Seq<[u8; 20]>
    decreases changes.len(),
{
    if changes.len() == 0 {
        Seq::empty()
    } else if spec_is_deleted(changes.last()) {
        spec_deleted(changes.drop_last()).push(changes.last().address)
    } else {
        spec_deleted(changes.drop_last())
    }
}

/// The slots whose value after the transaction differs from the one before
/// it, with the value after it, in the order of the slots.
pub open spec fn spec_changed_slots(slots: Seq<StorageSlot>) -> Seq<SlotUpdate>
    decreases slots.len(),
{
    if slots.len() == 0 {
        Seq::empty()
    } else if slots.last().original_value@ != slots.last().present_value@ {
        spec_changed_slots(slots.drop_last()).push(
            SlotUpdate { key: slots.last().key, value: slots.last().present_value },
        )
    } else {
        spec_changed_slots(slots.drop_last())
    }
}

/// What is written for one account: its address, the bytecode to look up,
/// and its changed slots.
pub open spec fn spec_update_of(change: AccountChange) -> ([u8; 20], Option<[u8; 32]>, Seq<
    SlotUpdate,
>) {
    (
        change.address,
        if change.has_code {
            None
        } else {
            Some(change.code_hash)
        },
        spec_changed_slots(change.storage@),
    )
}

/// What is written for the updated accounts, in the order of the changes.
pub open spec fn spec_updated(changes: Seq<AccountChange>) -> Seq<
    ([u8; 20], Option<[u8; 32]>, Seq<SlotUpdate>),
>
    decreases changes.len(),
{
    if changes.len() == 0 {
        Seq::empty()
    } else if spec_is_updated(changes.last()) {
        spec_updated(changes.drop_last()).push(spec_update_of(changes.last()))
    } else {
        spec_updated(changes.drop_last())
    }
}

/// The updates as address, bytecode to look up and slots.
pub open spec fn spec_updates_view(updates: Seq<AccountUpdate>) -> Seq<
    ([u8; 20], Option<[u8; 32]>, Seq<SlotUpdate>),
> {
    Seq::new(
        updates.len(),
        |i: int| (updates[i].address, updates[i].fetch_code, updates[i].slots@),
    )
}

/// Collects the slots whose value changed.
pub fn changed_slots(slots: &Vec<StorageSlot>) -> (updates: Vec<SlotUpdate>)
    ensures
        updates@ == spec_changed_slots(slots@),
{
    let mut updates: Vec<SlotUpdate> = Vec::new();
    let mut i: usize = 0;
    while i < slots.len()
        invariant
            i <= slots@.len(),
            updates@ == spec_changed_slots(slots@.take(i as int)),
        decreases slots@.len() - i,
    {
        let slot: &StorageSlot = &slots[i];
        proof {
            let next = slots@.take(i + 1);
            assert(next.drop_last() =~= slots@.take(i as int));
        }
        if !same_bytes(slot.original_value.as_slice(), slot.present_value.as_slice()) {
            updates.push(SlotUpdate { key: slot.key, value: slot.present_value });
        }
        i += 1;
    }
    assert(slots@.take(slots@.len() as int) =~= slots@);
    updates
}

/// Sorts a transaction's changes into what the host writes and what it
/// deletes. Untouched accounts are left alone; a touched account that
/// self-destructed is deleted; any other touched account is written, with
/// the slots whose value changed.
pub fn commit_set(changes: &Vec<AccountChange>) -> (set: CommitSet)
    ensures
        set.deleted@ == spec_deleted(changes@),
        spec_updates_view(set.updated@) == spec_updated(changes@),
{
    let mut updated: Vec<AccountUpdate> = Vec::new();
    let mut deleted: Vec<[u8; 20]> = Vec::new();
    let mut i: usize = 0;
    while i < changes.len()
        invariant
            i <= changes@.len(),
            deleted@ == spec_deleted(changes@.take(i as int)),
            spec_updates_view(updated@) == spec_updated(changes@.take(i as int)),
        decreases changes@.len() - i,
    {
        let change: &AccountChange = &changes[i];
        proof {
            let next = changes@.take(i + 1);
            assert(next.drop_last() =~= changes@.take(i as int));
        }
        if change.touched {
            if change.selfdestructed {
                deleted.push(change.address);
            } else {
                let update = AccountUpdate {
                    address: change.address,
                    fetch_code: if change.has_code {
                        None
                    } else {
                        Some(change.code_hash)
                    },
                    slots: changed_slots(&change.storage),
                };
                updated.push(update);
            }
        }
        i += 1;
    }
    assert(changes@.take(changes@.len() as int) =~= changes@);
    CommitSet { updated, deleted }
}

/// Every account that the commit writes or deletes was touched, and none is
/// both written and deleted.
pub proof fn lemma_commit_partitions(change: AccountChange)
    ensures
        spec_is_deleted(change) || spec_is_updated(change) <==> change.touched,
        !(spec_is_deleted(change) && spec_is_updated(change)),
{
}

} // verus!
