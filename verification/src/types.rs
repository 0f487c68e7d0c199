//! The data the store works on: identifiers, the capsule record and its
//! mathematical value, the error taxonomy, and the notifications it emits.

use vstd::prelude::*;

verus! {

/// A unique identifier for each capsule, assigned densely from 0.
pub type CapsuleId = u64;

/// An account identity as the host ledger names it. The store only ever
/// compares identities for equality.
pub type AccountId = u64;

/// A point on the host's monotonic time counter (block height).
pub type BlockNumber = u64;

/// An amount of value held or moved by the host ledger.
pub type Balance = u128;

/// The ambient facts the host supplies with a call: who is calling, the
/// current block height, and the value attached to the call.
#[derive(Clone, Copy, Debug, PartialEq, Eq, Structural)]
pub struct Env {
    pub caller: AccountId,
    pub block_number: BlockNumber,
    pub transferred_value: Balance,
}

/// A time capsule: a message and locked value sealed for `recipient` until
/// block `unlock_block`. Every field is set at creation and never mutated.
pub struct Capsule {
    pub creator: AccountId,
    pub recipient: AccountId,
    pub message: Vec<u8>,
    pub unlock_block: BlockNumber,
    pub value_locked: Balance,
}

/// The mathematical value of a capsule record.
#[verifier::ext_equal]
pub struct CapsuleView {
    pub creator: AccountId,
    pub recipient: AccountId,
    pub message: Seq<u8>,
    pub unlock_block: BlockNumber,
    pub value_locked: Balance,
}

impl View for Capsule {
    type V = CapsuleView;

    open spec fn view(&self) -> CapsuleView {
        CapsuleView {
            creator: self.creator,
            recipient: self.recipient,
            message: self.message@,
            unlock_block: self.unlock_block,
            value_locked: self.value_locked,
        }
    }
}

impl Clone for Capsule {
    fn clone(&self) -> (r: Self)
        ensures
            r@ == self@,
    {
        let message = self.message.clone();
        proof {
            assert forall|i: int| 0 <= i < message@.len() implies message@[i]
                == self.message@[i] by {
                assert(cloned::<u8>(self.message@[i], message@[i]));
            }
            assert(message@ =~= self.message@);
        }
        let r = Capsule {
            creator: self.creator,
            recipient: self.recipient,
            message,
            unlock_block: self.unlock_block,
            value_locked: self.value_locked,
        };
        proof {
            assert(r@ =~= self@);
        }
        r
    }
}

/// Why a mutating operation refused to act.
#[derive(Clone, Copy, Debug, PartialEq, Eq, Structural)]
pub enum Error {
    /// `create_capsule` was given a zero duration.
    UnlockTimeMustBeInFuture,
    /// No capsule with the given id exists (never created, or already opened).
    CapsuleNotFound,
    /// The current block is still before the capsule's unlock block.
    CapsuleIsStillLocked,
    /// The caller is not the capsule's recipient.
    NotTheDesignatedRecipient,
    /// The value-transfer service rejected the release; the capsule is kept.
    TokenTransferFailed,
    /// `current_block + duration` does not fit the time counter.
    AdditionOverflow,
}

/// Notification emitted when a capsule is successfully created.
#[derive(Clone, Copy, Debug, PartialEq, Eq, Structural)]
pub struct CapsuleCreated {
    pub id: CapsuleId,
    pub from: AccountId,
    pub to: AccountId,
    pub unlock_block: BlockNumber,
}

/// Notification emitted when a capsule is successfully opened.
#[derive(Clone, Copy, Debug, PartialEq, Eq, Structural)]
pub struct CapsuleOpened {
    pub id: CapsuleId,
    pub by: AccountId,
}

/// A notification of the store, kept in emission order.
#[derive(Clone, Copy, Debug, PartialEq, Eq, Structural)]
pub enum Event {
    Created(CapsuleCreated),
    Opened(CapsuleOpened),
}

} // verus!
