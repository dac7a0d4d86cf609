//! The ledger as a mathematical value, and what each call does to it.

use vstd::prelude::*;
use crate::archive::first_position;
use crate::encoding::requesters_bytes;
use crate::hashing::digest_of;
use crate::types::{AccountId, Balance, Config, Digest, Hashing, ProfileView, Requesters};

verus! {

/// Everything the ledger stores.
pub struct State {
    /// The limits the ledger was set up with.
    pub config: Config,
    /// Number of grant requests recorded so far.
    pub profile_count: nat,
    /// Profiles by account.
    pub profiles: Map<AccountId, ProfileView>,
    /// The latest requester record of each account that has one.
    pub requesters: Map<AccountId, Requesters>,
    /// Completed tasks by account, oldest first.
    pub completed_tasks: Map<AccountId, Seq<Digest>>,
}

/// The record written when a grant is requested for `owner` while its free
/// balance is `balance`.
pub open spec fn snapshot(owner: AccountId, balance: Balance) -> Requesters {
    Requesters { owner, balance: Some(balance) }
}

/// The bytes of the identifier of `record`: the digest that `hashing` gives
/// its byte form.
pub open spec fn record_id(hashing: Hashing, record: Requesters) -> Seq<u8> {
    digest_of(hashing, requesters_bytes(record))
}

impl State {
    /// The ledger before any call.
    pub open spec fn empty(config: Config) -> State {
        State {
            config,
            profile_count: 0,
            profiles: Map::empty(),
            requesters: Map::empty(),
            completed_tasks: Map::empty(),
        }
    }

    /// What holds of the ledger at all times: the counter fits in 32 bits,
    /// each requester record is stored under its owner, and no account has
    /// more completed tasks than the bound allows.
    pub open spec fn valid(self) -> bool {
        &&& self.profile_count <= u32::MAX
        &&& forall|who: AccountId| #[trigger]
            self.requesters.contains_key(who) ==> self.requesters[who].owner == who
        &&& forall|who: AccountId| #[trigger]
            self.completed_tasks.contains_key(who) ==> self.completed_tasks[who].len()
                <= self.config.max_completed_tasks_len
    }

    /// The counter can take one more request.
    pub open spec fn can_record(self) -> bool {
        self.profile_count < u32::MAX
    }

    /// The ledger after `record` is written under its owner and counted.
    pub open spec fn record(self, record: Requesters) -> State {
        State {
            profile_count: self.profile_count + 1,
            requesters: self.requesters.insert(record.owner, record),
            ..self
        }
    }

    /// The ledger after a request for `owner` with the observed `balance`:
    /// recorded and counted, or refused and nothing changed.
    pub open spec fn after_request(self, owner: AccountId, balance: Balance) -> State {
        if self.can_record() {
            self.record(snapshot(owner, balance))
        } else {
            self
        }
    }

    /// A request is on record for `owner`.
    pub open spec fn has_requested(self, owner: AccountId) -> bool {
        self.requesters.contains_key(owner)
    }

    /// The completed tasks of `who`, oldest first; empty where none were
    /// ever added.
    pub open spec fn tasks_of(self, who: AccountId) -> Seq<Digest> {
        if self.completed_tasks.contains_key(who) {
            self.completed_tasks[who]
        } else {
            Seq::empty()
        }
    }

    /// The completed tasks of `who` have room for one more.
    pub open spec fn can_append(self, who: AccountId) -> bool {
        self.tasks_of(who).len() < self.config.max_completed_tasks_len
    }

    /// The ledger after `task` is added to the completed tasks of `who`.
    pub open spec fn append(self, who: AccountId, task: Digest) -> State {
        State {
            completed_tasks: self.completed_tasks.insert(who, self.tasks_of(who).push(task)),
            ..self
        }
    }

    /// The ledger after an attempt to add `task` to the completed tasks of
    /// `who`: added, or refused and nothing changed.
    pub open spec fn after_append(self, who: AccountId, task: Digest) -> State {
        if self.can_append(who) {
            self.append(who, task)
        } else {
            self
        }
    }

    /// `task` is among the completed tasks of `who`.
    pub open spec fn can_archive(self, who: AccountId, task: Digest) -> bool {
        self.tasks_of(who).contains(task)
    }

    /// The ledger after the first occurrence of `task` is taken out of the
    /// completed tasks of `who`.
    pub open spec fn archive(self, who: AccountId, task: Digest) -> State {
        State {
            completed_tasks: self.completed_tasks.insert(
                who,
                self.tasks_of(who).remove(first_position(self.tasks_of(who), task)),
            ),
            ..self
        }
    }

    /// The ledger after an attempt to take `task` out of the completed tasks
    /// of `who`: taken out, or refused and nothing changed.
    pub open spec fn after_archive(self, who: AccountId, task: Digest) -> State {
        if self.can_archive(who, task) {
            self.archive(who, task)
        } else {
            self
        }
    }
}

} // verus!
