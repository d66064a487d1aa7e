//! The four escrow operations. Each one validates, updates the records it was
//! handed, and returns the single value transfer the ledger must perform:
//! a [`Deposit`] into the campaign's vault, or a [`Payout`] out of it under a
//! [`VaultAuthority`] scoped to that campaign alone. Every precondition is
//! checked before the transfer is handed out, so a rejected call leaves all
//! records unchanged.
use vstd::prelude::*;

use crate::errors::CrowdfundError;
use crate::state::{AccountId, Campaign, CampaignView, Contribution, MAX_NAME_LEN};

verus! {

/// A transfer the ledger must perform from a contributor into the campaign's
/// vault, authorized by the contributor's own signature.
#[derive(Clone, Copy, PartialEq, Eq, Structural, Debug)]
pub struct Deposit {
    /// The contributor whose balance the value leaves.
    pub from: AccountId,
    /// How much moves.
    pub amount: u64,
}

/// A capability to move value out of exactly one campaign's vault. Only
/// `withdraw` and `refund` issue one, and only for the campaign they settled,
/// so no other campaign's vault can be drained with it.
#[derive(Debug)]
pub struct VaultAuthority {
    creator: AccountId,
    name: Vec<u8>,
}

impl VaultAuthority {
    /// The creator half of the campaign key this capability is bound to.
    pub closed spec fn scoped_creator(&self) -> AccountId {
        self.creator
    }

    /// The name half of the campaign key this capability is bound to.
    pub closed spec fn scoped_name(&self) -> Seq<u8> {
        self.name@
    }

    /// Whether this capability is bound to the vault of the campaign `c`.
    pub open spec fn scoped_to(&self, c: CampaignView) -> bool {
        &&& self.scoped_creator() == c.creator
        &&& self.scoped_name() == c.name
    }

    /// Decides whether this capability is bound to `campaign`'s vault.
    pub fn authorizes(&self, campaign: &Campaign) -> (b: bool)
        ensures
            b == self.scoped_to(campaign@),
    {
        self.creator.id == campaign.creator.id && bytes_eq(&self.name, &campaign.name)
    }
}

/// A transfer the ledger must perform out of a campaign's vault, carrying the
/// authority that permits it.
#[derive(Debug)]
pub struct Payout {
    /// The identity the value goes to.
    pub to: AccountId,
    /// How much moves.
    pub amount: u64,
    /// Permission to move value out of this one campaign's vault.
    pub authority: VaultAuthority,
}

/// Byte-for-byte equality of two byte vectors.
fn bytes_eq(a: &Vec<u8>, b: &Vec<u8>) -> (r: bool)
    ensures
        r == (a@ == b@),
{
    if a.len() != b.len() {
        return false;
    }
    let mut i: usize = 0;
    while i < a.len()
        invariant
            0 <= i <= a.len(),
            a.len() == b.len(),
            forall|j: int| 0 <= j < i ==> a@[j] == b@[j],
        decreases a.len() - i,
    {
        if a[i] != b[i] {
            return false;
        }
        i += 1;
    }
    proof {
        assert(a@ =~= b@);
    }
    true
}

/// A copy of a byte vector.
fn clone_bytes(v: &Vec<u8>) -> (r: Vec<u8>)
    ensures
        r@ == v@,
{
    let mut r: Vec<u8> = Vec::new();
    let mut i: usize = 0;
    while i < v.len()
        invariant
            0 <= i <= v.len(),
            r@ == v@.subrange(0, i as int),
        decreases v.len() - i,
    {
        r.push(v[i]);
        proof {
            assert(r@ =~= v@.subrange(0, i + 1 as int));
        }
        i += 1;
    }
    proof {
        assert(v@.subrange(0, v@.len() as int) =~= v@);
    }
    r
}

/// When `create_campaign` succeeds: the deadline is strictly in the future,
/// the name fits the bound, and the goal is positive.
pub open spec fn create_ok(name: Seq<u8>, goal: u64, deadline: i64, now: i64) -> bool {
    &&& deadline > now
    &&& name.len() <= MAX_NAME_LEN
    &&& goal > 0
}

/// Which rejection `create_campaign` returns, checked in this order.
pub open spec fn create_error(name: Seq<u8>, goal: u64, deadline: i64, now: i64) -> CrowdfundError {
    if deadline <= now {
        CrowdfundError::InvalidDeadline
    } else if name.len() > MAX_NAME_LEN {
        CrowdfundError::NameTooLong
    } else {
        CrowdfundError::InvalidGoal
    }
}

/// The record a successful `create_campaign` produces: nothing raised,
/// nothing claimed.
pub open spec fn created_campaign(
    creator: AccountId,
    name: Seq<u8>,
    goal: u64,
    deadline: i64,
) -> CampaignView {
    CampaignView { creator, name, goal, raised: 0, deadline, claimed: false }
}

/// Opens a campaign: given a creator identity, a name of at most
/// [`MAX_NAME_LEN`] bytes, a positive goal and a deadline strictly after
/// `now`, returns the fresh record with nothing raised and nothing claimed.
/// No value moves.
pub fn create_campaign(
    creator: AccountId,
    name: Vec<u8>,
    goal: u64,
    deadline: i64,
    now: i64,
) -> (r: Result<Campaign, CrowdfundError>)
    ensures
        r is Ok == create_ok(name@, goal, deadline, now),
        r matches Ok(c) ==> c@ == created_campaign(creator, name@, goal, deadline) && c@.wf(),
        r matches Err(e) ==> e == create_error(name@, goal, deadline, now),
{
    if deadline <= now {
        return Err(CrowdfundError::InvalidDeadline);
    }
    if name.len() > MAX_NAME_LEN {
        return Err(CrowdfundError::NameTooLong);
    }
    if goal == 0 {
        return Err(CrowdfundError::InvalidGoal);
    }
    Ok(Campaign { creator, name, goal, raised: 0, deadline, claimed: false })
}

/// When `contribute` succeeds: the amount is positive, the deadline has not
/// passed, and neither running total would wrap. `k` is the contributor's
/// outstanding stake before the call.
pub open spec fn contribute_ok(c: CampaignView, k: u64, amount: u64, now: i64) -> bool {
    &&& amount > 0
    &&& now < c.deadline
    &&& c.raised + amount <= u64::MAX
    &&& k + amount <= u64::MAX
}

/// Which rejection `contribute` returns, checked in this order.
pub open spec fn contribute_error(c: CampaignView, k: u64, amount: u64, now: i64) -> CrowdfundError {
    if amount == 0 {
        CrowdfundError::InvalidAmount
    } else if now >= c.deadline {
        CrowdfundError::CampaignEnded
    } else {
        CrowdfundError::ArithmeticOverflow
    }
}

/// The campaign after a successful contribution of `amount`.
pub open spec fn campaign_after_contribute(c: CampaignView, amount: u64) -> CampaignView {
    CampaignView { raised: (c.raised + amount) as u64, ..c }
}

/// Deposits `amount` into the campaign: checks every precondition, then
/// raises both the campaign total and the contributor's stake by `amount`
/// and returns the deposit the ledger must perform, donor to vault. The
/// capacity of both totals is validated before the transfer is handed out,
/// so a rejected call changes nothing and moves nothing.
pub fn contribute(
    campaign: &mut Campaign,
    contribution: &mut Contribution,
    donor: AccountId,
    amount: u64,
    now: i64,
) -> (r: Result<Deposit, CrowdfundError>)
    ensures
        r is Ok == contribute_ok(old(campaign)@, old(contribution).amount, amount, now),
        r matches Ok(d) ==> {
            &&& final(campaign)@ == campaign_after_contribute(old(campaign)@, amount)
            &&& final(contribution).amount == old(contribution).amount + amount
            &&& d == (Deposit { from: donor, amount })
        },
        r matches Err(e) ==> {
            &&& e == contribute_error(old(campaign)@, old(contribution).amount, amount, now)
            &&& final(campaign)@ == old(campaign)@
            &&& final(contribution).amount == old(contribution).amount
        },
{
    if amount == 0 {
        return Err(CrowdfundError::InvalidAmount);
    }
    if now >= campaign.deadline {
        return Err(CrowdfundError::CampaignEnded);
    }
    if campaign.raised > u64::MAX - amount || contribution.amount > u64::MAX - amount {
        return Err(CrowdfundError::ArithmeticOverflow);
    }
    campaign.raised = campaign.raised + amount;
    contribution.amount = contribution.amount + amount;
    Ok(Deposit { from: donor, amount })
}

/// When `withdraw` succeeds: the caller is the creator, the goal was met,
/// the deadline has passed, and nothing was claimed before.
pub open spec fn withdraw_ok(c: CampaignView, caller: AccountId, now: i64) -> bool {
    &&& caller == c.creator
    &&& c.raised >= c.goal
    &&& now >= c.deadline
    &&& !c.claimed
}

/// Which rejection `withdraw` returns, checked in this order.
pub open spec fn withdraw_error(c: CampaignView, caller: AccountId, now: i64) -> CrowdfundError {
    if caller != c.creator {
        CrowdfundError::NotAuthorized
    } else if c.raised < c.goal {
        CrowdfundError::GoalNotMet
    } else if now < c.deadline {
        CrowdfundError::CampaignNotEnded
    } else {
        CrowdfundError::AlreadyClaimed
    }
}

/// The campaign after a successful withdrawal: only `claimed` flips.
pub open spec fn campaign_after_withdraw(c: CampaignView) -> CampaignView {
    CampaignView { claimed: true, ..c }
}

/// Settles a successful campaign: callable only by the creator, only at or
/// after the deadline, only once, and only if the goal was met. Marks the
/// campaign claimed and returns the payout the ledger must perform: the
/// vault's entire current balance (sweeping any dust) to the creator, under
/// an authority scoped to this campaign's vault. `vault_balance` is the
/// balance the ledger reports at the moment of the call.
pub fn withdraw(
    campaign: &mut Campaign,
    caller: AccountId,
    vault_balance: u64,
    now: i64,
) -> (r: Result<Payout, CrowdfundError>)
    ensures
        r is Ok == withdraw_ok(old(campaign)@, caller, now),
        r matches Ok(p) ==> {
            &&& final(campaign)@ == campaign_after_withdraw(old(campaign)@)
            &&& p.to == caller
            &&& p.amount == vault_balance
            &&& p.authority.scoped_to(old(campaign)@)
        },
        r matches Err(e) ==> {
            &&& e == withdraw_error(old(campaign)@, caller, now)
            &&& final(campaign)@ == old(campaign)@
        },
{
    if caller.id != campaign.creator.id {
        return Err(CrowdfundError::NotAuthorized);
    }
    if campaign.raised < campaign.goal {
        return Err(CrowdfundError::GoalNotMet);
    }
    if now < campaign.deadline {
        return Err(CrowdfundError::CampaignNotEnded);
    }
    if campaign.claimed {
        return Err(CrowdfundError::AlreadyClaimed);
    }
    let authority = VaultAuthority {
        creator: campaign.creator,
        name: clone_bytes(&campaign.name),
    };
    campaign.claimed = true;
    Ok(Payout { to: caller, amount: vault_balance, authority })
}

/// When `refund` succeeds: the deadline has passed, nothing was claimed, the
/// goal was missed, and the contributor's stake `k` is positive and covered
/// by the raised total.
pub open spec fn refund_ok(c: CampaignView, k: u64, now: i64) -> bool {
    &&& now >= c.deadline
    &&& !c.claimed
    &&& c.raised < c.goal
    &&& k > 0
    &&& k <= c.raised
}

/// Which rejection `refund` returns, checked in this order.
pub open spec fn refund_error(c: CampaignView, k: u64, now: i64) -> CrowdfundError {
    if now < c.deadline {
        CrowdfundError::CampaignNotEnded
    } else if c.claimed {
        CrowdfundError::AlreadyClaimed
    } else if c.raised >= c.goal {
        CrowdfundError::GoalMetCannotRefund
    } else if k == 0 {
        CrowdfundError::InsufficientContribution
    } else {
        CrowdfundError::ArithmeticOverflow
    }
}

/// How much a successful refund pays out: the contributor's whole stake `k`;
/// except that the last refund — the one that takes the raised total to
/// zero — pays the vault's entire balance, sweeping to that contributor any
/// dust a third party injected past the bookkeeping.
pub open spec fn refund_payout_amount(c: CampaignView, k: u64, vault_balance: u64) -> u64 {
    if k == c.raised {
        vault_balance
    } else {
        k
    }
}

/// The campaign after a successful refund of a stake of `k`.
pub open spec fn campaign_after_refund(c: CampaignView, k: u64) -> CampaignView {
    CampaignView { raised: (c.raised - k) as u64, ..c }
}

/// Refunds a contributor of a failed campaign: only at or after the deadline,
/// only while nothing was claimed, only if the goal was missed, and only for
/// a positive outstanding stake. Lowers the raised total by the whole stake,
/// empties the contribution record (the caller destroys the emptied record),
/// and returns the payout the ledger must perform, vault to contributor,
/// under an authority scoped to this campaign's vault. `vault_balance` is the
/// balance the ledger reports at the moment of the call; the last refund pays
/// it out whole (see [`refund_payout_amount`]).
pub fn refund(
    campaign: &mut Campaign,
    contribution: &mut Contribution,
    donor: AccountId,
    vault_balance: u64,
    now: i64,
) -> (r: Result<Payout, CrowdfundError>)
    ensures
        r is Ok == refund_ok(old(campaign)@, old(contribution).amount, now),
        r matches Ok(p) ==> {
            &&& final(campaign)@ == campaign_after_refund(old(campaign)@, old(contribution).amount)
            &&& final(contribution).amount == 0
            &&& p.to == donor
            &&& p.amount == refund_payout_amount(
                old(campaign)@,
                old(contribution).amount,
                vault_balance,
            )
            &&& p.authority.scoped_to(old(campaign)@)
        },
        r matches Err(e) ==> {
            &&& e == refund_error(old(campaign)@, old(contribution).amount, now)
            &&& final(campaign)@ == old(campaign)@
            &&& final(contribution).amount == old(contribution).amount
        },
{
    if now < campaign.deadline {
        return Err(CrowdfundError::CampaignNotEnded);
    }
    if campaign.claimed {
        return Err(CrowdfundError::AlreadyClaimed);
    }
    if campaign.raised >= campaign.goal {
        return Err(CrowdfundError::GoalMetCannotRefund);
    }
    let amount = contribution.amount;
    if amount == 0 {
        return Err(CrowdfundError::InsufficientContribution);
    }
    if amount > campaign.raised {
        return Err(CrowdfundError::ArithmeticOverflow);
    }
    let transfer_amount = if campaign.raised == amount {
        vault_balance
    } else {
        amount
    };
    let authority = VaultAuthority {
        creator: campaign.creator,
        name: clone_bytes(&campaign.name),
    };
    campaign.raised = campaign.raised - amount;
    contribution.amount = 0;
    Ok(Payout { to: donor, amount: transfer_amount, authority })
}

} // verus!
