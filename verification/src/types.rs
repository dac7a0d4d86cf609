//! Plain values that the ledger stores and hands out.

use vstd::prelude::*;

verus! {

/// Opaque identifier of a ledger participant: the 32 bytes of its public key.
pub type AccountId = [u8; 32];

/// Amount of tokens.
pub type Balance = u128;

/// A 256-bit content hash. Task identifiers are digests.
pub type Digest = [u8; 32];

/// Snapshot of an account taken when a grant is requested for it.
#[derive(Clone, Copy, Debug, PartialEq, Eq)]
pub struct Requesters {
    /// The account the grant is requested for.
    pub owner: AccountId,
    /// Free balance of `owner` observed when the request was made.
    pub balance: Option<Balance>,
}

/// What the ledger reports to its observers.
#[derive(Clone, Copy, Debug, PartialEq, Eq)]
pub enum Event {
    /// A grant was issued to `who`.
    GrantIssued { who: AccountId },
    /// `who` asked for a grant to be recorded.
    GrantRequested { who: AccountId },
    /// `who` declared a winner.
    WinnerSelected { who: AccountId },
    /// `task` was added to the completed tasks of `who`.
    TaskCompletedByProfile { who: AccountId, task: Digest },
    /// `task` was taken out of the completed tasks of `who`.
    TaskArchivedFromProfileStorage { who: AccountId, task: Digest },
}

/// Why a call was refused. A refused call leaves the ledger as it was.
#[derive(Clone, Copy, Debug, PartialEq, Eq, Structural)]
pub enum Error {
    /// The request counter is at its maximum.
    ProfileCountOverflow,
    /// Reserved: an account may create a single profile only.
    ProfileAlreadyCreated,
    /// The account holds no such entry. Returned when a task to archive is
    /// not among the completed tasks of the account.
    NoProfileCreated,
    /// The completed tasks of the account have reached their bound.
    CompletedTasksStorageFull,
    /// Reserved: a grant cannot go to the account that gives it.
    CantGrantToSelf,
    /// Reserved: no further funds are available.
    ZeroAmountAvailable,
    /// No request is on record for the account. The name is historical: the
    /// query answers with it when the account has *not* made a request.
    RequestAlreadyMade,
    /// Reserved: only an account with an empty balance may receive tokens.
    NonEmptyBalance,
}

/// Whether a call is charged a fee.
#[derive(Clone, Copy, Debug, PartialEq, Eq, Structural)]
pub enum Pays {
    /// The caller pays the fee of the call.
    Yes,
    /// The call is free of charge.
    No,
}

/// Outcome of a call that went through.
#[derive(Clone, Copy, Debug, PartialEq, Eq)]
pub struct Receipt {
    /// The event to publish.
    pub event: Event,
    /// The fee policy that applies to the call.
    pub pays_fee: Pays,
    /// The identifier of the record the call wrote, if it wrote one.
    pub record_id: Option<Digest>,
}

/// The hash functions a ledger can name its records with.
#[derive(Clone, Copy, Debug, PartialEq, Eq, Structural)]
pub enum Hashing {
    /// BLAKE2b with a 256-bit digest.
    BlakeTwo256,
    /// Keccak with a 256-bit digest.
    Keccak256,
}

/// What the ledger is set up with: its limits and its hash function.
#[derive(Clone, Copy, Debug, PartialEq, Eq, Structural)]
pub struct Config {
    /// Longest name of a profile, in bytes.
    pub max_username_len: u32,
    /// Longest interests field of a profile, in bytes.
    pub max_interests_len: u32,
    /// Longest additional information of a profile, in bytes.
    pub max_additional_information_len: u32,
    /// Largest number of completed tasks kept for one account.
    pub max_completed_tasks_len: u32,
    /// The hash function that names a record by its content.
    pub hashing: Hashing,
}

/// What the currency ledger showed when a call began.
#[derive(Clone, Copy, Debug, PartialEq, Eq)]
pub struct CurrencySnapshot {
    /// Free balance of the account the grant is requested for.
    pub free_balance: Balance,
    /// Tokens in existence.
    pub total_issuance: Balance,
}

/// Profile of an account.
#[derive(Clone, Debug, PartialEq, Eq)]
pub struct Profile {
    pub owner: AccountId,
    pub name: Vec<u8>,
    pub interests: Vec<u8>,
    pub balance: Option<Balance>,
    pub reputation: u32,
    pub available_hours_per_week: u8,
    pub additional_information: Option<Vec<u8>>,
}

/// A profile as a plain value.
pub struct ProfileView {
    pub owner: AccountId,
    pub name: Seq<u8>,
    pub interests: Seq<u8>,
    pub balance: Option<Balance>,
    pub reputation: u32,
    pub available_hours_per_week: u8,
    pub additional_information: Option<Seq<u8>>,
}

impl ProfileView {
    /// The text fields are no longer than `config` allows.
    pub open spec fn within(self, config: Config) -> bool {
        &&& self.name.len() <= config.max_username_len
        &&& self.interests.len() <= config.max_interests_len
        &&& match self.additional_information {
            Some(text) => text.len() <= config.max_additional_information_len,
            None => true,
        }
    }
}

impl View for Profile {
    type V = ProfileView;

    open spec fn view(&self) -> ProfileView {
        ProfileView {
            owner: self.owner,
            name: self.name@,
            interests: self.interests@,
            balance: self.balance,
            reputation: self.reputation,
            available_hours_per_week: self.available_hours_per_week,
            additional_information: match self.additional_information {
                Some(text) => Some(text@),
                None => None,
            },
        }
    }
}

impl Profile {
    /// Tells whether the text fields are no longer than `config` allows.
    pub fn within(&self, config: &Config) -> (ok: bool)
        ensures
            ok == self@.within(*config),
    {
        let extra_ok = match &self.additional_information {
            Some(text) => text.len() <= config.max_additional_information_len as usize,
            None => true,
        };
        self.name.len() <= config.max_username_len as usize && self.interests.len()
            <= config.max_interests_len as usize && extra_ok
    }
}

/// Tells whether two identifiers hold the same bytes.
pub fn same_id(a: &[u8; 32], b: &[u8; 32]) -> (same: bool)
    ensures
        same == (*a == *b),
{
    broadcast use vstd::array::group_array_axioms;

    let mut i: usize = 0;
    while i < 32
        invariant
            i <= 32,
            forall|j: int| 0 <= j < i ==> a[j] == b[j],
        decreases 32 - i,
    {
        if a[i] != b[i] {
            return false;
        }
        i += 1;
    }
    assert(*a =~= *b);
    true
}

} // verus!
