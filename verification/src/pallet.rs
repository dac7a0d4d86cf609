//! The ledger and its calls.

use vstd::prelude::*;
use crate::account_map::AccountMap;
use crate::archive::CompletedTasks;
use crate::hashing::digest;
use crate::state::{record_id, snapshot, State};
use crate::types::{
    AccountId, Config, CurrencySnapshot, Digest, Error, Event, Pays, Profile, Receipt, Requesters,
};

verus! {

/// The grant-request ledger: a request counter, the requester records, the
/// profiles and the completed tasks of every account.
#[derive(Debug, PartialEq, Eq)]
pub struct Pallet {
    config: Config,
    profile_count: u32,
    profiles: AccountMap<Profile>,
    storage_requesters: AccountMap<Requesters>,
    completed_tasks: AccountMap<CompletedTasks>,
}

impl View for Pallet {
    type V = State;

    closed spec fn view(&self) -> State {
        State {
            config: self.config,
            profile_count: self.profile_count as nat,
            profiles: self.profiles@.map_values(|profile: Profile| profile@),
            requesters: self.storage_requesters@,
            completed_tasks: self.completed_tasks@.map_values(|tasks: CompletedTasks| tasks@),
        }
    }
}

impl Pallet {
    #[verifier::type_invariant]
    spec fn well_formed(self) -> bool {
        &&& forall|who: AccountId| #[trigger]
            self.storage_requesters@.contains_key(who) ==> self.storage_requesters@[who].owner
                == who
        &&& forall|who: AccountId| #[trigger]
            self.completed_tasks@.contains_key(who) ==> {
                &&& self.completed_tasks@[who].limit() == self.config.max_completed_tasks_len
                &&& self.completed_tasks@[who]@.len() <= self.config.max_completed_tasks_len
            }
    }

    /// A well-formed ledger stands for a valid state.
    proof fn lemma_valid(self)
        requires
            self.well_formed(),
        ensures
            self@.valid(),
    {
    }

    /// The ledger before any call, set up with `config`.
    pub fn new(config: Config) -> (pallet: Self)
        ensures
            pallet@ == State::empty(config),
    {
        let pallet = Pallet {
            config,
            profile_count: 0,
            profiles: AccountMap::new(),
            storage_requesters: AccountMap::new(),
            completed_tasks: AccountMap::new(),
        };
        assert(pallet@.profiles =~= Map::empty());
        assert(pallet@.completed_tasks =~= Map::empty());
        pallet
    }

    /// A ledger without records whose counter starts at `profile_count`.
    pub fn with_profile_count(config: Config, profile_count: u32) -> (pallet: Self)
        ensures
            pallet@ == (State { profile_count: profile_count as nat, ..State::empty(config) }),
    {
        let pallet = Pallet {
            config,
            profile_count,
            profiles: AccountMap::new(),
            storage_requesters: AccountMap::new(),
            completed_tasks: AccountMap::new(),
        };
        assert(pallet@.profiles =~= Map::empty());
        assert(pallet@.completed_tasks =~= Map::empty());
        pallet
    }

    /// The limits the ledger was set up with.
    pub fn config(&self) -> (config: Config)
        ensures
            config == self@.config,
            self@.valid(),
    {
        proof {
            use_type_invariant(self);
            self.lemma_valid();
        }
        self.config
    }

    /// Number of grant requests recorded so far.
    pub fn profile_count(&self) -> (count: u32)
        ensures
            count == self@.profile_count,
    {
        self.profile_count
    }

    /// The profile of `who`, if it has one.
    pub fn profiles(&self, who: &AccountId) -> (profile: Option<&Profile>)
        ensures
            match profile {
                Some(found) => self@.profiles.contains_key(*who) && found@ == self@.profiles[*who],
                None => !self@.profiles.contains_key(*who),
            },
    {
        self.profiles.get(who)
    }

    /// The requester record of `who`, if a request is on record for it.
    pub fn storage_requesters(&self, who: &AccountId) -> (record: Option<Requesters>)
        ensures
            record == (if self@.requesters.contains_key(*who) {
                Some(self@.requesters[*who])
            } else {
                None
            }),
    {
        match self.storage_requesters.get(who) {
            Some(record) => Some(*record),
            None => None,
        }
    }

    /// The completed tasks of `who`, if any were ever added.
    pub fn completed_tasks(&self, who: &AccountId) -> (tasks: Option<&CompletedTasks>)
        ensures
            match tasks {
                Some(found) => {
                    &&& self@.completed_tasks.contains_key(*who)
                    &&& found@ == self@.completed_tasks[*who]
                    &&& found.limit() == self@.config.max_completed_tasks_len
                },
                None => !self@.completed_tasks.contains_key(*who),
            },
    {
        proof {
            use_type_invariant(self);
        }
        self.completed_tasks.get(who)
    }

    /// The requester records, by account.
    pub fn requesters(&self) -> (records: &AccountMap<Requesters>)
        ensures
            records@ == self@.requesters,
    {
        &self.storage_requesters
    }

    /// Writes `requesters` under its owner and counts the request, or does
    /// neither: when the counter is at its maximum the ledger stays as it is
    /// and the call fails with `ProfileCountOverflow`. On success the
    /// identifier handed in is handed back.
    pub fn commit_request(&mut self, requesters: Requesters, requesters_id: Digest) -> (outcome:
        Result<Digest, Error>)
        ensures
            final(self)@.valid(),
            old(self)@.can_record() ==> outcome == Ok::<Digest, Error>(requesters_id) && final(self)@
                == old(self)@.record(requesters),
            !old(self)@.can_record() ==> outcome == Err::<Digest, Error>(
                Error::ProfileCountOverflow,
            ) && final(self)@ == old(self)@,
    {
        proof {
            use_type_invariant(&*self);
            self.lemma_valid();
        }
        let new_count = match self.profile_count.checked_add(1) {
            Some(count) => count,
            None => {
                return Err(Error::ProfileCountOverflow);
            },
        };
        let mut records: AccountMap<Requesters> = AccountMap::new();
        std::mem::swap(&mut records, &mut self.storage_requesters);
        records.insert(requesters.owner, requesters);
        self.storage_requesters = records;
        self.profile_count = new_count;
        proof {
            self.lemma_valid();
        }
        Ok(requesters_id)
    }

    /// Records a grant request for `grant_receiver` with the balance that
    /// `currency` shows, and returns the identifier of the record: the
    /// digest of its byte form under the ledger's hash function. Fails,
    /// leaving the ledger as it was, when the counter is at its maximum.
    pub fn generate_requests(&mut self, grant_receiver: &AccountId, currency: CurrencySnapshot) -> (outcome:
        Result<Digest, Error>)
        ensures
            final(self)@.valid(),
            final(self)@ == old(self)@.after_request(*grant_receiver, currency.free_balance),
            match outcome {
                Ok(id) => old(self)@.can_record() && id@ == record_id(
                    old(self)@.config.hashing,
                    snapshot(*grant_receiver, currency.free_balance),
                ),
                Err(error) => !old(self)@.can_record() && error == Error::ProfileCountOverflow,
            },
    {
        let requesters = Requesters { owner: *grant_receiver, balance: Some(currency.free_balance) };
        let bytes = requesters.encode();
        let requesters_id = digest(self.config.hashing, bytes.as_slice());
        self.commit_request(requesters, requesters_id)
    }

    /// The call by which `origin` requests a grant for `grant_requester`.
    /// On success the request is recorded and counted, `GrantRequested` is to
    /// be published, no fee is charged, and the receipt names the record
    /// written. When the counter is at its maximum the call fails with
    /// `ProfileCountOverflow` and the ledger stays as it was.
    pub fn request_grant(
        &mut self,
        origin: AccountId,
        grant_requester: AccountId,
        currency: CurrencySnapshot,
    ) -> (outcome: Result<Receipt, Error>)
        ensures
            final(self)@.valid(),
            final(self)@ == old(self)@.after_request(grant_requester, currency.free_balance),
            match outcome {
                Ok(receipt) => {
                    &&& old(self)@.can_record()
                    &&& receipt.event == (Event::GrantRequested { who: origin })
                    &&& receipt.pays_fee == Pays::No
                    &&& receipt.record_id matches Some(id) && id@ == record_id(
                        old(self)@.config.hashing,
                        snapshot(grant_requester, currency.free_balance),
                    )
                },
                Err(error) => !old(self)@.can_record() && error == Error::ProfileCountOverflow,
            },
    {
        match self.generate_requests(&grant_requester, currency) {
            Ok(id) => Ok(
                Receipt {
                    event: Event::GrantRequested { who: origin },
                    pays_fee: Pays::No,
                    record_id: Some(id),
                },
            ),
            Err(error) => Err(error),
        }
    }

    /// The call by which `origin` declares a winner. It reads and writes
    /// nothing: `WinnerSelected` is to be published and no fee is charged.
    pub fn winner_is(&self, origin: AccountId) -> (outcome: Result<Receipt, Error>)
        ensures
            outcome == Ok::<Receipt, Error>(
                (Receipt {
                    event: (Event::WinnerSelected { who: origin }),
                    pays_fee: Pays::No,
                    record_id: None,
                }),
            ),
    {
        Ok(Receipt { event: Event::WinnerSelected { who: origin }, pays_fee: Pays::No, record_id: None })
    }

    /// Tells whether a request is on record for `owner`: `Ok(true)` if one
    /// is, and the error `RequestAlreadyMade` if none is.
    pub fn has_made_requests(&self, owner: &AccountId) -> (outcome: Result<bool, Error>)
        ensures
            outcome == (if self@.has_requested(*owner) {
                Ok::<bool, Error>(true)
            } else {
                Err::<bool, Error>(Error::RequestAlreadyMade)
            }),
    {
        if self.storage_requesters.contains_key(owner) {
            Ok(true)
        } else {
            Err(Error::RequestAlreadyMade)
        }
    }

    /// Puts `tasks` in place of the completed tasks of `who`.
    fn store_tasks(&mut self, who: AccountId, tasks: CompletedTasks)
        requires
            tasks.limit() == old(self)@.config.max_completed_tasks_len,
            tasks@.len() <= tasks.limit(),
        ensures
            final(self)@.valid(),
            final(self)@ == (State {
                completed_tasks: old(self)@.completed_tasks.insert(who, tasks@),
                ..old(self)@
            }),
    {
        proof {
            use_type_invariant(&*self);
        }
        let ghost before = self.completed_tasks@;
        let mut archives: AccountMap<CompletedTasks> = AccountMap::new();
        std::mem::swap(&mut archives, &mut self.completed_tasks);
        archives.insert(who, tasks);
        proof {
            assert(archives@.map_values(|tasks: CompletedTasks| tasks@) =~= before.map_values(
                |tasks: CompletedTasks| tasks@,
            ).insert(who, tasks@));
        }
        self.completed_tasks = archives;
        proof {
            self.lemma_valid();
        }
    }

    /// Adds `task` to the completed tasks of `who`. When they have reached
    /// the bound the call fails with `CompletedTasksStorageFull` and the
    /// ledger stays as it was; otherwise `TaskCompletedByProfile` is to be
    /// published.
    pub fn append_completed_task(&mut self, who: AccountId, task: Digest) -> (outcome: Result<
        Event,
        Error,
    >)
        ensures
            final(self)@.valid(),
            final(self)@ == old(self)@.after_append(who, task),
            outcome == (if old(self)@.can_append(who) {
                Ok::<Event, Error>((Event::TaskCompletedByProfile { who, task }))
            } else {
                Err::<Event, Error>(Error::CompletedTasksStorageFull)
            }),
    {
        proof {
            use_type_invariant(&*self);
            self.lemma_valid();
        }
        let mut tasks = match self.completed_tasks.get(&who) {
            Some(tasks) => tasks.clone(),
            None => CompletedTasks::new(self.config.max_completed_tasks_len),
        };
        match tasks.try_push(task) {
            Ok(()) => {
                self.store_tasks(who, tasks);
                Ok(Event::TaskCompletedByProfile { who, task })
            },
            Err(error) => Err(error),
        }
    }

    /// Takes the first occurrence of `task` out of the completed tasks of
    /// `who`. When `task` is not among them the call fails with
    /// `NoProfileCreated` and the ledger stays as it was; otherwise
    /// `TaskArchivedFromProfileStorage` is to be published.
    pub fn archive_completed_task(&mut self, who: AccountId, task: Digest) -> (outcome: Result<
        Event,
        Error,
    >)
        ensures
            final(self)@.valid(),
            final(self)@ == old(self)@.after_archive(who, task),
            outcome == (if old(self)@.can_archive(who, task) {
                Ok::<Event, Error>((Event::TaskArchivedFromProfileStorage { who, task }))
            } else {
                Err::<Event, Error>(Error::NoProfileCreated)
            }),
    {
        proof {
            use_type_invariant(&*self);
            self.lemma_valid();
        }
        let mut tasks = match self.completed_tasks.get(&who) {
            Some(tasks) => tasks.clone(),
            None => {
                return Err(Error::NoProfileCreated);
            },
        };
        match tasks.remove(&task) {
            Ok(()) => {
                self.store_tasks(who, tasks);
                Ok(Event::TaskArchivedFromProfileStorage { who, task })
            },
            Err(error) => Err(error),
        }
    }
}

} // verus!
