//! The persistent records of the escrow: the campaign aggregate and the
//! per-contributor ledger entry. The records hold plain values; where they
//! live (on-chain accounts, a database) is the caller's concern.
use vstd::prelude::*;

verus! {

/// The identity of an account: a creator, a contributor, or any other party.
#[derive(Clone, Copy, PartialEq, Eq, Structural, Debug)]
pub struct AccountId {
    pub id: u64,
}

/// The longest campaign name accepted, in bytes.
pub const MAX_NAME_LEN: usize = 32;

/// Mathematical image of a [`Campaign`] record.
#[verifier::ext_equal]
pub struct CampaignView {
    pub creator: AccountId,
    pub name: Seq<u8>,
    pub goal: u64,
    pub raised: u64,
    pub deadline: i64,
    pub claimed: bool,
}

impl CampaignView {
    /// Structural well-formedness: what `create_campaign` establishes and
    /// every operation preserves.
    pub open spec fn wf(self) -> bool {
        &&& self.goal > 0
        &&& self.name.len() <= MAX_NAME_LEN
    }
}

/// The aggregate record of one fundraising campaign, keyed by
/// (`creator`, `name`) so one creator may run several campaigns at once.
#[derive(Debug)]
pub struct Campaign {
    /// The identity allowed to withdraw on success. Immutable after creation.
    pub creator: AccountId,
    /// Human-readable label, at most [`MAX_NAME_LEN`] bytes.
    pub name: Vec<u8>,
    /// Target amount, strictly positive, immutable after creation.
    pub goal: u64,
    /// Sum of all currently outstanding contributions.
    pub raised: u64,
    /// Time at and after which contributions are rejected and settlement opens.
    pub deadline: i64,
    /// Set once the creator has withdrawn; never cleared.
    pub claimed: bool,
}

impl View for Campaign {
    type V = CampaignView;

    open spec fn view(&self) -> CampaignView {
        CampaignView {
            creator: self.creator,
            name: self.name@,
            goal: self.goal,
            raised: self.raised,
            deadline: self.deadline,
            claimed: self.claimed,
        }
    }
}

/// One contributor's outstanding stake in one campaign, keyed by
/// (campaign, contributor): repeated contributions accumulate here rather
/// than creating a second record.
#[derive(Debug)]
pub struct Contribution {
    /// The amount this contributor has deposited and not yet reclaimed.
    pub amount: u64,
}

impl Contribution {
    /// A fresh, empty ledger entry, made on a contributor's first deposit.
    pub fn new() -> (c: Contribution)
        ensures
            c.amount == 0,
    {
        Contribution { amount: 0 }
    }
}

} // verus!
