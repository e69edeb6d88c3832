//! Cups: competitions run in rounds, in which participants submit tracks and vote on them.
use vstd::prelude::*;

use crate::model::{flag_of, i64_to_bool};
use crate::model::user::UserId;
use crate::utc::{representable, UtcTime};

verus! {

/// A participant of a cup, who is either still active in it or no longer active.
#[derive(Debug)]
pub enum Participant<U> {
    Active(U),
    Inactive(U),
}

impl<U> Participant<U> {
    /// The participant itself, whether active or not.
    pub open spec fn inner(self) -> U {
        match self {
            Participant::Active(user) => user,
            Participant::Inactive(user) => user,
        }
    }

    /// The participant itself, whether active or not.
    pub fn as_owned(self) -> (r: U)
        ensures
            r == self.inner(),
    {
        match self {
            Self::Active(user) => user,
            Self::Inactive(user) => user,
        }
    }

    /// A reference to the participant itself, whether active or not.
    pub fn as_ref(&self) -> (r: &U)
        ensures
            *r == self.inner(),
    {
        match self {
            Self::Active(user) => user,
            Self::Inactive(user) => user,
        }
    }

    /// Whether the participant is active.
    pub fn is_active(&self) -> (r: bool)
        ensures
            r == (self is Active),
    {
        match self {
            Self::Active(_) => true,
            Self::Inactive(_) => false,
        }
    }

    /// Whether the participant is no longer active.
    pub fn is_inactive(&self) -> (r: bool)
        ensures
            r == (self is Inactive),
    {
        !self.is_active()
    }

    /// The participant `user`, active where the database flag `is_active` is set.
    pub fn from_row(user: U, is_active: i64) -> (r: Self)
        ensures
            r.inner() == user,
            r is Active <==> flag_of(is_active),
    {
        if i64_to_bool(is_active) {
            Participant::Active(user)
        } else {
            Participant::Inactive(user)
        }
    }
}

/// A `u32` that is never zero.
#[derive(Clone, Copy, Debug)]
pub struct PositiveU32(u32);

impl View for PositiveU32 {
    type V = u32;

    closed spec fn view(&self) -> u32 {
        self.0
    }
}

impl PositiveU32 {
    #[verifier::type_invariant]
    closed spec fn nonzero(self) -> bool {
        self.0 > 0
    }

    /// `value`, where it is not zero.
    pub fn new(value: u32) -> (r: Option<Self>)
        ensures
            r is Some <==> value > 0,
            r matches Some(p) ==> p@ == value,
    {
        if value == 0 {
            None
        } else {
            Some(PositiveU32(value))
        }
    }

    /// The value, which is never zero.
    pub fn get(&self) -> (r: u32)
        ensures
            r == self@,
            r > 0,
    {
        proof { use_type_invariant(self); }
        self.0
    }
}

/// What an owner enters to create a cup. The vote allocation, and the cap on players
/// where there is one, are never zero.
#[derive(Debug)]
pub struct CupCreateParams {
    pub cup_name: String,
    pub cup_description: String,
    pub submission_time_ms: i64,
    pub voting_time_ms: i64,
    pub vote_allocation: PositiveU32,
    pub max_players: Option<PositiveU32>,
}

/// What an owner enters to create a round.
#[derive(Debug)]
pub struct RoundCreateParams {
    pub round_name: String,
    pub round_description: String,
}

/// A vote by a participant: how many of their votes they give.
#[derive(Debug)]
pub struct Vote<'u> {
    user_id: UserId<'u>,
    count: u32,
}

/// Where a round stands.
#[derive(Debug)]
pub enum RoundPhase {
    NotStarted,
    Submission,
    Voting,
    Finished,
}

/// A round of a cup.
#[derive(Debug)]
pub struct Round {
    name: String,
    description: String,
    phase: RoundPhase,
}

/// A cup's row, as the database holds it.
#[derive(Debug)]
pub struct CupRecord {
    pub id: i64,
    pub name: String,
    pub description: String,
    pub owner_id: i64,
    pub max_players: Option<i64>,
    pub current_round_number: Option<i64>,
    pub submission_time_ms: i64,
    pub voting_time_ms: i64,
    pub next_action_timestamp_ms: Option<i64>,
    pub vote_allocation: i64,
}

/// A cup.
#[derive(Debug)]
pub struct Cup {
    id: i64,
    name: String,
    description: String,
    owner: UserId<'static>,
    max_players: Option<u32>,
    current_round_number: Option<usize>,
    submission_time_ms: i64,
    voting_time_ms: i64,
    next_action_timestamp: Option<UtcTime>,
    vote_allocation: u32,
}

/// Whether the database's next action timestamp of a cup is one that can be represented.
pub open spec fn valid_next_action(timestamp: Option<i64>) -> bool {
    timestamp matches Some(t) ==> representable(t as int)
}

impl Cup {
    /// The cup that the database row `record` describes. The optional numbers are kept in
    /// the widths the cup uses (`u32` and `usize`), which drop the bits above them.
    pub fn from_record(record: CupRecord) -> (r: Self)
        requires
            valid_next_action(record.next_action_timestamp_ms),
        ensures
            r.spec_id() == record.id,
            r.spec_name() == record.name@,
            r.spec_description() == record.description@,
            r.spec_owner_id() == record.owner_id,
            r.spec_max_players() == (match record.max_players {
                Some(m) => Some(m as u32),
                None => None,
            }),
            r.spec_current_round_number() == (match record.current_round_number {
                Some(n) => Some(n as usize),
                None => None,
            }),
            r.spec_submission_time_ms() == record.submission_time_ms,
            r.spec_voting_time_ms() == record.voting_time_ms,
            r.spec_next_action_timestamp() == (match record.next_action_timestamp_ms {
                Some(t) => Some(t),
                None => None::<i64>,
            }),
            r.spec_vote_allocation() == record.vote_allocation as u32,
    {
        let max_players = match record.max_players {
            Some(m) => Some(m as u32),
            None => None,
        };
        let current_round_number = match record.current_round_number {
            Some(n) => Some(n as usize),
            None => None,
        };
        let next_action_timestamp = match record.next_action_timestamp_ms {
            Some(t) => match UtcTime::from_unix_timestamp(t) {
                Some(time) => Some(time),
                None => vstd::pervasive::unreached(),
            },
            None => None,
        };
        Cup {
            id: record.id,
            name: record.name,
            description: record.description,
            owner: UserId::PrimaryKey(record.owner_id),
            max_players,
            current_round_number,
            submission_time_ms: record.submission_time_ms,
            voting_time_ms: record.voting_time_ms,
            next_action_timestamp,
            vote_allocation: record.vote_allocation as u32,
        }
    }

    /// The cup's id.
    pub closed spec fn spec_id(&self) -> i64 {
        self.id
    }

    /// The cup's name.
    pub closed spec fn spec_name(&self) -> Seq<char> {
        self.name@
    }

    /// The cup's description.
    pub closed spec fn spec_description(&self) -> Seq<char> {
        self.description@
    }

    /// The primary key of the cup's owner.
    pub closed spec fn spec_owner_id(&self) -> i64 {
        match self.owner {
            UserId::PrimaryKey(k) => k,
            _ => 0,
        }
    }

    /// The cap on players, where there is one.
    pub closed spec fn spec_max_players(&self) -> Option<u32> {
        self.max_players
    }

    /// The number of the current round, where one has started.
    pub closed spec fn spec_current_round_number(&self) -> Option<usize> {
        self.current_round_number
    }

    /// How long the submission phase of a round lasts, in milliseconds.
    pub closed spec fn spec_submission_time_ms(&self) -> i64 {
        self.submission_time_ms
    }

    /// How long the voting phase of a round lasts, in milliseconds.
    pub closed spec fn spec_voting_time_ms(&self) -> i64 {
        self.voting_time_ms
    }

    /// The Unix timestamp of the cup's next action, where one is scheduled.
    pub closed spec fn spec_next_action_timestamp(&self) -> Option<i64> {
        match self.next_action_timestamp {
            Some(t) => Some(t@.0),
            None => None,
        }
    }

    /// How many votes each participant has to give in a round.
    pub closed spec fn spec_vote_allocation(&self) -> u32 {
        self.vote_allocation
    }

    /// The cup's id.
    pub fn id(&self) -> (r: i64)
        ensures
            r == self.spec_id(),
    {
        self.id
    }
}

} // verus!
