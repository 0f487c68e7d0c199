//! The lifecycle laws of the store, stated and proved over the transition
//! functions that the operations' contracts are written with
//! ([`create_error`], [`create_ok_post`], [`open_error`], [`open_ok_post`]).

use crate::store::{create_error, create_ok_post, open_error, open_ok_post, StoreView};
use crate::types::{AccountId, Balance, BlockNumber, CapsuleId, Error};
use vstd::prelude::*;

verus! {

/// A creation with a positive duration and a representable unlock block is
/// accepted, and the capsule then found under the returned id carries exactly
/// the sealed record: in particular its unlock block is
/// `current_block + duration`, so `get_capsule` after `create_capsule`
/// returns it.
pub proof fn lemma_create_then_get(
    pre: StoreView,
    caller: AccountId,
    recipient: AccountId,
    message: Seq<u8>,
    current_block: BlockNumber,
    duration: BlockNumber,
    value: Balance,
)
    requires
        duration > 0,
        current_block + duration <= u64::MAX,
    ensures
        create_error(duration, current_block) is None,
        create_ok_post(
            pre,
            caller,
            recipient,
            message,
            current_block,
            duration,
            value,
        ).capsules.contains_key(pre.next_id),
        create_ok_post(pre, caller, recipient, message, current_block, duration, value).capsules[
            pre.next_id
        ] == crate::store::created_capsule(
            caller,
            recipient,
            message,
            current_block,
            duration,
            value,
        ),
        create_ok_post(pre, caller, recipient, message, current_block, duration, value).capsules[
            pre.next_id
        ].unlock_block == current_block + duration,
{
}

/// A zero duration is always refused with `UnlockTimeMustBeInFuture` —
/// `create_capsule`'s contract then leaves the store, its id counter
/// included, exactly as it was.
pub proof fn lemma_zero_duration_rejected(current_block: BlockNumber)
    ensures
        create_error(0, current_block) == Some(Error::UnlockTimeMustBeInFuture),
{
}

/// A creation whose unlock block would pass the end of the time counter is
/// refused with `AdditionOverflow` — `create_capsule`'s contract then leaves
/// the store, its id counter included, exactly as it was.
pub proof fn lemma_overflow_rejected(duration: BlockNumber, current_block: BlockNumber)
    requires
        duration > 0,
        current_block + duration > u64::MAX,
    ensures
        create_error(duration, current_block) == Some(Error::AdditionOverflow),
{
}

/// Before its unlock block a capsule stays shut even for its recipient:
/// the open is refused with `CapsuleIsStillLocked`, whatever the transfer
/// service would have said.
pub proof fn lemma_open_early_rejected(
    pre: StoreView,
    id: CapsuleId,
    current_block: BlockNumber,
    transfer_accepted: bool,
)
    requires
        pre.capsules.contains_key(id),
        current_block < pre.capsules[id].unlock_block,
    ensures
        open_error(pre, id, pre.capsules[id].recipient, current_block, transfer_accepted)
            == Some(Error::CapsuleIsStillLocked),
{
}

/// At or after its unlock block, an open by the recipient succeeds, provided
/// the transfer service accepts the release where value is locked (a capsule
/// with no locked value needs no transfer at all).
pub proof fn lemma_open_mature_succeeds(
    pre: StoreView,
    id: CapsuleId,
    current_block: BlockNumber,
    transfer_accepted: bool,
)
    requires
        pre.capsules.contains_key(id),
        current_block >= pre.capsules[id].unlock_block,
        pre.capsules[id].value_locked > 0 ==> transfer_accepted,
    ensures
        open_error(pre, id, pre.capsules[id].recipient, current_block, transfer_accepted)
            is None,
{
}

/// Nobody but the designated recipient can open a capsule — the creator
/// included — at any time whatever: the open is refused with
/// `NotTheDesignatedRecipient`, and since every refused open leaves the store
/// unchanged, the capsule stays retrievable through `get_capsule`.
pub proof fn lemma_open_wrong_caller_rejected(
    pre: StoreView,
    id: CapsuleId,
    caller: AccountId,
    current_block: BlockNumber,
    transfer_accepted: bool,
)
    requires
        pre.capsules.contains_key(id),
        caller != pre.capsules[id].recipient,
    ensures
        open_error(pre, id, caller, current_block, transfer_accepted)
            == Some(Error::NotTheDesignatedRecipient),
        pre.capsules.contains_key(id),
{
}

/// Opening is one-shot: after a successful open of `id`, no capsule stands
/// under `id` any more — `get_capsule` reports it absent — and any further
/// open of `id`, by anyone, at any time, is refused with `CapsuleNotFound`.
pub proof fn lemma_open_is_one_shot(
    pre: StoreView,
    id: CapsuleId,
    caller: AccountId,
    later_caller: AccountId,
    later_block: BlockNumber,
    later_accepted: bool,
)
    ensures
        !open_ok_post(pre, id, caller).capsules.contains_key(id),
        open_error(open_ok_post(pre, id, caller), id, later_caller, later_block, later_accepted)
            == Some(Error::CapsuleNotFound),
{
}

/// A successful creation advances the id counter by exactly one and a
/// successful open leaves it alone; every refused operation leaves the whole
/// store unchanged. So `get_total_capsules` counts exactly the successful
/// creations, opened capsules included.
pub proof fn lemma_count_tracks_creations(
    pre: StoreView,
    caller: AccountId,
    recipient: AccountId,
    message: Seq<u8>,
    current_block: BlockNumber,
    duration: BlockNumber,
    value: Balance,
    id: CapsuleId,
)
    requires
        pre.next_id < u64::MAX,
    ensures
        create_ok_post(pre, caller, recipient, message, current_block, duration, value).next_id
            == pre.next_id + 1,
        open_ok_post(pre, id, caller).next_id == pre.next_id,
{
}

} // verus!
