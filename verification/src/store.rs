//! The capsule store: all capsules ever created, the next id to assign, and
//! the notifications emitted so far, together with the spec-level transition
//! functions its contracts are stated over.

use crate::types::{
    AccountId, Balance, BlockNumber, Capsule, CapsuleCreated, CapsuleId, CapsuleOpened,
    CapsuleView, Env, Error, Event,
};
use vstd::prelude::*;

verus! {

/// The mathematical value of the whole store: the mapping of live capsules,
/// the next id to assign, and the notifications emitted so far.
#[verifier::ext_equal]
pub struct StoreView {
    pub capsules: Map<CapsuleId, CapsuleView>,
    pub next_id: CapsuleId,
    pub events: Seq<Event>,
}

/// Why `create_capsule` refuses, if it does: a zero duration is rejected,
/// and the unlock block must fit the time counter. Checked in this order.
pub open spec fn create_error(duration: BlockNumber, current_block: BlockNumber) -> Option<
    Error,
> {
    if duration == 0 {
        Some(Error::UnlockTimeMustBeInFuture)
    } else if current_block + duration > u64::MAX {
        Some(Error::AdditionOverflow)
    } else {
        None
    }
}

/// The record a successful `create_capsule` seals.
pub open spec fn created_capsule(
    caller: AccountId,
    recipient: AccountId,
    message: Seq<u8>,
    current_block: BlockNumber,
    duration: BlockNumber,
    value: Balance,
) -> CapsuleView {
    CapsuleView {
        creator: caller,
        recipient,
        message,
        unlock_block: (current_block + duration) as BlockNumber,
        value_locked: value,
    }
}

/// The store after a successful `create_capsule`: the new record stands under
/// the old `next_id`, the counter advances by exactly one, and a
/// `CapsuleCreated` notification is appended.
pub open spec fn create_ok_post(
    pre: StoreView,
    caller: AccountId,
    recipient: AccountId,
    message: Seq<u8>,
    current_block: BlockNumber,
    duration: BlockNumber,
    value: Balance,
) -> StoreView {
    StoreView {
        capsules: pre.capsules.insert(
            pre.next_id,
            created_capsule(caller, recipient, message, current_block, duration, value),
        ),
        next_id: (pre.next_id + 1) as CapsuleId,
        events: pre.events.push(
            Event::Created(
                CapsuleCreated {
                    id: pre.next_id,
                    from: caller,
                    to: recipient,
                    unlock_block: (current_block + duration) as BlockNumber,
                },
            ),
        ),
    }
}

/// Why `open_capsule` refuses, if it does, checked in this order: the capsule
/// must exist, the caller must be its recipient, the unlock block must have
/// been reached (the unlock block itself is the first eligible instant), and,
/// where value is locked, the transfer service must have accepted its release.
pub open spec fn open_error(
    pre: StoreView,
    id: CapsuleId,
    caller: AccountId,
    current_block: BlockNumber,
    transfer_accepted: bool,
) -> Option<Error> {
    if !pre.capsules.contains_key(id) {
        Some(Error::CapsuleNotFound)
    } else if pre.capsules[id].recipient != caller {
        Some(Error::NotTheDesignatedRecipient)
    } else if current_block < pre.capsules[id].unlock_block {
        Some(Error::CapsuleIsStillLocked)
    } else if pre.capsules[id].value_locked > 0 && !transfer_accepted {
        Some(Error::TokenTransferFailed)
    } else {
        None
    }
}

/// The store after a successful `open_capsule`: the record is gone, the id
/// counter is untouched, and a `CapsuleOpened` notification is appended.
pub open spec fn open_ok_post(pre: StoreView, id: CapsuleId, caller: AccountId) -> StoreView {
    StoreView {
        capsules: pre.capsules.remove(id),
        next_id: pre.next_id,
        events: pre.events.push(Event::Opened(CapsuleOpened { id, by: caller })),
    }
}

/// The capsule store. Ids are dense: capsule `i` lives at slot `i`, and a
/// slot is cleared when its capsule is opened.
pub struct ChronoCapsule {
    capsules: Vec<Option<Capsule>>,
    next_capsule_id: CapsuleId,
    events: Vec<Event>,
}

impl View for ChronoCapsule {
    type V = StoreView;

    closed spec fn view(&self) -> StoreView {
        StoreView {
            capsules: Map::new(
                |id: CapsuleId| id < self.capsules@.len() && self.capsules@[id as int] is Some,
                |id: CapsuleId| self.capsules@[id as int]->0@,
            ),
            next_id: self.next_capsule_id,
            events: self.events@,
        }
    }
}

impl ChronoCapsule {
    /// Every id below `next_id` has a slot and no other slot exists; `create`
    /// keeps this, so the id it assigns is fresh.
    pub closed spec fn wf(self) -> bool {
        self.next_capsule_id as int == self.capsules@.len()
    }

    /// An empty store: no capsules, ids start at 0, nothing emitted yet.
    pub fn new() -> (store: Self)
        ensures
            store.wf(),
            store@.capsules == Map::<CapsuleId, CapsuleView>::empty(),
            store@.next_id == 0,
            store@.events == Seq::<Event>::empty(),
    {
        let store = ChronoCapsule { capsules: Vec::new(), next_capsule_id: 0, events: Vec::new() };
        proof {
            assert(store@.capsules =~= Map::<CapsuleId, CapsuleView>::empty());
        }
        store
    }

    /// Seals a new capsule for `recipient` with the given message, the value
    /// attached to the call, and an unlock block `duration` blocks after the
    /// current one. A zero duration is rejected, as is an unlock block beyond
    /// the range of the time counter; on success the capsule's id is returned
    /// and a `CapsuleCreated` notification is emitted. The id space is 64 bits
    /// wide; exhausting it is fatal to the store, so a successful creation
    /// demands that at least one id is left.
    pub fn create_capsule(
        &mut self,
        recipient: AccountId,
        message: Vec<u8>,
        duration: BlockNumber,
        env: Env,
    ) -> (r: Result<CapsuleId, Error>)
        requires
            old(self).wf(),
            create_error(duration, env.block_number) is None ==> old(self)@.next_id < u64::MAX,
        ensures
            final(self).wf(),
            (match create_error(duration, env.block_number) {
                Some(e) => r == Err::<CapsuleId, Error>(e) && final(self)@ == old(self)@,
                None => r == Ok::<CapsuleId, Error>(old(self)@.next_id) && final(self)@
                    == create_ok_post(
                    old(self)@,
                    env.caller,
                    recipient,
                    message@,
                    env.block_number,
                    duration,
                    env.transferred_value,
                ),
            }),
            r is Ok ==> final(self)@.next_id == old(self)@.next_id + 1,
            r is Err ==> final(self)@.next_id == old(self)@.next_id,
    {
        let creator = env.caller;
        let current_block = env.block_number;
        let locked_value = env.transferred_value;

        if duration == 0 {
            return Err(Error::UnlockTimeMustBeInFuture);
        }
        let unlock_block = match current_block.checked_add(duration) {
            Some(b) => b,
            None => {
                return Err(Error::AdditionOverflow);
            },
        };

        let capsule = Capsule {
            creator,
            recipient,
            message,
            unlock_block,
            value_locked: locked_value,
        };

        let id = self.next_capsule_id;
        self.capsules.push(Some(capsule));
        self.next_capsule_id = id + 1;
        self.events.push(Event::Created(CapsuleCreated { id, from: creator, to: recipient, unlock_block }));

        proof {
            let post = create_ok_post(
                old(self)@,
                env.caller,
                recipient,
                capsule@.message,
                env.block_number,
                duration,
                env.transferred_value,
            );
            assert(self@.capsules =~= post.capsules);
            assert(self@ =~= post);
        }
        Ok(id)
    }

    /// Opens capsule `id` for the caller, given the verdict of the host's
    /// value-transfer service. The capsule must exist, the caller must be its
    /// recipient, and the unlock block must have been reached; where value is
    /// locked, `transfer_accepted` reports whether the host agreed to move
    /// that value to the caller (it is consulted only then — a capsule with
    /// no locked value opens without any transfer). On success the record is
    /// deleted and a `CapsuleOpened` notification is emitted; on any failure,
    /// a rejected transfer included, the store is left exactly as it was, so
    /// the operation can be retried.
    pub fn open_capsule(&mut self, id: CapsuleId, env: Env, transfer_accepted: bool) -> (r:
        Result<(), Error>)
        requires
            old(self).wf(),
        ensures
            final(self).wf(),
            (match open_error(old(self)@, id, env.caller, env.block_number, transfer_accepted) {
                Some(e) => r == Err::<(), Error>(e) && final(self)@ == old(self)@,
                None => r == Ok::<(), Error>(()) && final(self)@ == open_ok_post(
                    old(self)@,
                    id,
                    env.caller,
                ),
            }),
            final(self)@.next_id == old(self)@.next_id,
    {
        let caller = env.caller;
        let current_block = env.block_number;

        let n = self.capsules.len();
        if id >= n as u64 {
            return Err(Error::CapsuleNotFound);
        }
        let idx = id as usize;
        let (recipient, unlock_block, value_locked) = match &self.capsules[idx] {
            Some(capsule) => (capsule.recipient, capsule.unlock_block, capsule.value_locked),
            None => {
                return Err(Error::CapsuleNotFound);
            },
        };

        if recipient != caller {
            return Err(Error::NotTheDesignatedRecipient);
        }
        if current_block < unlock_block {
            return Err(Error::CapsuleIsStillLocked);
        }
        if value_locked > 0 && !transfer_accepted {
            return Err(Error::TokenTransferFailed);
        }

        self.capsules[idx] = None;
        self.events.push(Event::Opened(CapsuleOpened { id, by: caller }));

        proof {
            let post = open_ok_post(old(self)@, id, caller);
            assert(self@.capsules =~= post.capsules);
            assert(self@ =~= post);
        }
        Ok(())
    }

    /// A read-only lookup: the capsule under `id`, or nothing where no such
    /// capsule exists — because it was never created or because it has
    /// already been opened.
    pub fn get_capsule(&self, id: CapsuleId) -> (r: Option<Capsule>)
        ensures
            (match r {
                Some(c) => self@.capsules.contains_key(id) && c@ == self@.capsules[id],
                None => !self@.capsules.contains_key(id),
            }),
    {
        let n = self.capsules.len();
        if id >= n as u64 {
            return None;
        }
        let idx = id as usize;
        match &self.capsules[idx] {
            Some(capsule) => Some(capsule.clone()),
            None => None,
        }
    }

    /// The first half of an open: validates capsule `id` for the caller at
    /// the current block and, where it would be allowed to open, returns the
    /// amount the host's value-transfer service must move to the caller (0
    /// where the capsule holds no value). A driver performs that transfer and
    /// hands its verdict to `open_capsule`; nothing is mutated here.
    pub fn open_request(&self, id: CapsuleId, env: Env) -> (r: Result<Balance, Error>)
        ensures
            (match open_error(self@, id, env.caller, env.block_number, true) {
                Some(e) => r == Err::<Balance, Error>(e),
                None => r == Ok::<Balance, Error>(self@.capsules[id].value_locked),
            }),
    {
        let n = self.capsules.len();
        if id >= n as u64 {
            return Err(Error::CapsuleNotFound);
        }
        let idx = id as usize;
        let (recipient, unlock_block, value_locked) = match &self.capsules[idx] {
            Some(capsule) => (capsule.recipient, capsule.unlock_block, capsule.value_locked),
            None => {
                return Err(Error::CapsuleNotFound);
            },
        };

        if recipient != env.caller {
            return Err(Error::NotTheDesignatedRecipient);
        }
        if env.block_number < unlock_block {
            return Err(Error::CapsuleIsStillLocked);
        }
        Ok(value_locked)
    }

    /// The total number of capsules ever created, opened ones included.
    pub fn get_total_capsules(&self) -> (r: CapsuleId)
        ensures
            r == self@.next_id,
    {
        self.next_capsule_id
    }

    /// The notifications emitted so far, oldest first.
    pub fn events(&self) -> (r: &Vec<Event>)
        ensures
            r@ == self@.events,
    {
        &self.events
    }
}

/// Every id with a capsule in the mapping lies strictly below `next_id`, so
/// the id a creation assigns is always fresh: no insertion ever collides
/// with a live capsule.
pub proof fn lemma_live_ids_below_next_id(store: &ChronoCapsule)
    requires
        store.wf(),
    ensures
        forall|id: CapsuleId| #[trigger] store@.capsules.contains_key(id) ==> id
            < store@.next_id,
{
}

} // verus!
