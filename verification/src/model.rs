//! The escrow state machine as a whole: one campaign, every live
//! contribution record, and the vault's balance on the ledger. The operations
//! in [`crate::ops`] each touch one campaign and at most one contribution
//! record; the transition relations here say what one such call, together
//! with its transfer applied to the vault, does to the whole state. They are
//! written over the very spec functions the operations' contracts use
//! (`contribute_ok`, `campaign_after_contribute`, and so on), so a step here
//! is exactly a successful call plus its transfer.
//!
//! The lemmas prove the global invariants: the raised total always equals the
//! sum of the live stakes, the vault covers the raised total until the
//! creator withdraws, one contributor never holds two records, and a
//! withdrawal is terminal.
use vstd::prelude::*;

use crate::errors::CrowdfundError;
use crate::ops::{
    campaign_after_contribute, campaign_after_refund, campaign_after_withdraw, contribute_ok,
    create_ok, created_campaign, refund_error, refund_ok, withdraw_error, withdraw_ok,
};
use crate::state::{AccountId, CampaignView};

verus! {

/// One live per-contributor ledger entry, as the state machine sees it.
pub struct Entry {
    pub donor: AccountId,
    pub amount: u64,
}

/// Everything one campaign's escrow consists of: the campaign record, the
/// live contribution records (one per contributor), and the balance the
/// ledger holds in the campaign's vault.
#[verifier::ext_equal]
pub struct EscrowState {
    pub campaign: CampaignView,
    pub entries: Seq<Entry>,
    pub vault: int,
}

/// The sum of the outstanding stakes.
pub open spec fn sum(entries: Seq<Entry>) -> int
    decreases entries.len(),
{
    if entries.len() == 0 {
        0
    } else {
        sum(entries.drop_last()) + entries.last().amount
    }
}

/// Whether `donor` holds a live entry.
pub open spec fn has_entry(entries: Seq<Entry>, donor: AccountId) -> bool {
    exists|i: int| 0 <= i < entries.len() && entries[i].donor == donor
}

/// The position of `donor`'s entry (meaningful only when `has_entry`).
pub open spec fn entry_index(entries: Seq<Entry>, donor: AccountId) -> int {
    choose|i: int| 0 <= i < entries.len() && entries[i].donor == donor
}

/// `donor`'s outstanding stake: the amount of their entry, or zero if they
/// hold none.
pub open spec fn amount_of(entries: Seq<Entry>, donor: AccountId) -> u64 {
    if has_entry(entries, donor) {
        entries[entry_index(entries, donor)].amount
    } else {
        0
    }
}

/// The per-contributor ledger is well formed: every live entry is positive
/// (an emptied record is destroyed), and no contributor holds two entries.
pub open spec fn entries_wf(entries: Seq<Entry>) -> bool {
    &&& forall|i: int| 0 <= i < entries.len() ==> 0 < #[trigger] entries[i].amount
    &&& forall|i: int, j: int|
        #![trigger entries[i], entries[j]]
        0 <= i < j < entries.len() ==> entries[i].donor != entries[j].donor
}

/// The global invariant, holding in every reachable state between operations:
/// the campaign is well formed, the raised total equals the sum of the live
/// stakes, the ledger of stakes is well formed, and — until the creator has
/// withdrawn — the vault covers the raised total.
pub open spec fn inv(s: EscrowState) -> bool {
    &&& s.campaign.wf()
    &&& s.campaign.raised == sum(s.entries)
    &&& entries_wf(s.entries)
    &&& s.vault >= 0
    &&& (!s.campaign.claimed ==> s.campaign.raised <= s.vault)
}

/// What a successful contribution does to the ledger of stakes: the donor's
/// entry grows by `amount`, or a fresh entry appears if they held none.
pub open spec fn entries_after_contribute(
    entries: Seq<Entry>,
    donor: AccountId,
    amount: u64,
) -> Seq<Entry> {
    if has_entry(entries, donor) {
        let i = entry_index(entries, donor);
        entries.update(i, Entry { donor, amount: (entries[i].amount + amount) as u64 })
    } else {
        entries.push(Entry { donor, amount })
    }
}

/// A successful `create_campaign` call: the fresh record, no stakes, an
/// empty vault.
pub open spec fn create_step(
    creator: AccountId,
    name: Seq<u8>,
    goal: u64,
    deadline: i64,
    now: i64,
    post: EscrowState,
) -> bool {
    &&& create_ok(name, goal, deadline, now)
    &&& post.campaign == created_campaign(creator, name, goal, deadline)
    &&& post.entries == Seq::<Entry>::empty()
    &&& post.vault == 0
}

/// A successful `contribute` call together with its deposit: both totals
/// grow by `amount`, and so does the vault.
pub open spec fn contribute_step(
    pre: EscrowState,
    donor: AccountId,
    amount: u64,
    now: i64,
    post: EscrowState,
) -> bool {
    &&& contribute_ok(pre.campaign, amount_of(pre.entries, donor), amount, now)
    &&& post.campaign == campaign_after_contribute(pre.campaign, amount)
    &&& post.entries == entries_after_contribute(pre.entries, donor, amount)
    &&& post.vault == pre.vault + amount
}

/// A successful `withdraw` call together with its payout: the campaign is
/// marked claimed and the vault is swept empty. The stakes stay as they are;
/// no refund will ever touch them again (see [`lemma_withdraw_is_terminal`]).
pub open spec fn withdraw_step(
    pre: EscrowState,
    caller: AccountId,
    now: i64,
    post: EscrowState,
) -> bool {
    &&& withdraw_ok(pre.campaign, caller, now)
    &&& post.campaign == campaign_after_withdraw(pre.campaign)
    &&& post.entries == pre.entries
    &&& post.vault == 0
}

/// A successful `refund` call together with its payout: the donor's whole
/// stake leaves both the raised total and the ledger of stakes, and the
/// vault drops by the amount paid out — the stake, or the whole balance when
/// this was the last stake (the dust sweep).
pub open spec fn refund_step(
    pre: EscrowState,
    donor: AccountId,
    now: i64,
    post: EscrowState,
) -> bool {
    let k = amount_of(pre.entries, donor);
    &&& refund_ok(pre.campaign, k, now)
    &&& post.campaign == campaign_after_refund(pre.campaign, k)
    &&& post.entries == pre.entries.remove(entry_index(pre.entries, donor))
    &&& post.vault == if k == pre.campaign.raised {
        0int
    } else {
        pre.vault - k
    }
}

/// A third party deposits value straight into the vault, bypassing the
/// bookkeeping: dust. The records do not move.
pub open spec fn dust_step(pre: EscrowState, dust: int, post: EscrowState) -> bool {
    &&& dust > 0
    &&& post.campaign == pre.campaign
    &&& post.entries == pre.entries
    &&& post.vault == pre.vault + dust
}

proof fn lemma_sum_nonneg(entries: Seq<Entry>)
    ensures
        sum(entries) >= 0,
    decreases entries.len(),
{
    if entries.len() > 0 {
        lemma_sum_nonneg(entries.drop_last());
    }
}

proof fn lemma_sum_push(entries: Seq<Entry>, e: Entry)
    ensures
        sum(entries.push(e)) == sum(entries) + e.amount,
{
    assert(entries.push(e).drop_last() =~= entries);
}

proof fn lemma_sum_update(entries: Seq<Entry>, i: int, e: Entry)
    requires
        0 <= i < entries.len(),
    ensures
        sum(entries.update(i, e)) == sum(entries) - entries[i].amount + e.amount,
    decreases entries.len(),
{
    let u = entries.update(i, e);
    if i == entries.len() - 1 {
        assert(u.drop_last() =~= entries.drop_last());
    } else {
        assert(u.drop_last() =~= entries.drop_last().update(i, e));
        lemma_sum_update(entries.drop_last(), i, e);
        assert(u.last() == entries.last());
    }
}

proof fn lemma_sum_remove(entries: Seq<Entry>, i: int)
    requires
        0 <= i < entries.len(),
    ensures
        sum(entries.remove(i)) == sum(entries) - entries[i].amount,
    decreases entries.len(),
{
    let u = entries.remove(i);
    if i == entries.len() - 1 {
        assert(u =~= entries.drop_last());
    } else {
        assert(u.drop_last() =~= entries.drop_last().remove(i));
        lemma_sum_remove(entries.drop_last(), i);
        assert(u.last() == entries.last());
    }
}

/// No single stake exceeds the sum of all of them.
proof fn lemma_entry_le_sum(entries: Seq<Entry>, i: int)
    requires
        0 <= i < entries.len(),
    ensures
        entries[i].amount <= sum(entries),
    decreases entries.len(),
{
    if i == entries.len() - 1 {
        lemma_sum_nonneg(entries.drop_last());
    } else {
        lemma_entry_le_sum(entries.drop_last(), i);
        assert(entries.drop_last()[i] == entries[i]);
    }
}

/// Creation establishes the invariant, with the vault exactly covering the
/// (empty) raised total.
pub proof fn lemma_create_establishes_inv(
    creator: AccountId,
    name: Seq<u8>,
    goal: u64,
    deadline: i64,
    now: i64,
    post: EscrowState,
)
    requires
        create_step(creator, name, goal, deadline, now, post),
    ensures
        inv(post),
        post.vault == post.campaign.raised,
{
}

/// A contribution preserves the invariant; the donor ends with exactly one
/// entry, grown by `amount`; and a vault that exactly covered the raised
/// total still does (a deposit carries its own backing).
pub proof fn lemma_contribute_preserves_inv(
    pre: EscrowState,
    donor: AccountId,
    amount: u64,
    now: i64,
    post: EscrowState,
)
    requires
        inv(pre),
        contribute_step(pre, donor, amount, now, post),
    ensures
        inv(post),
        has_entry(post.entries, donor),
        amount_of(post.entries, donor) == amount_of(pre.entries, donor) + amount,
        pre.vault == pre.campaign.raised ==> post.vault == post.campaign.raised,
{
    if has_entry(pre.entries, donor) {
        let i = entry_index(pre.entries, donor);
        assert(0 <= i < pre.entries.len() && pre.entries[i].donor == donor);
        let e = Entry { donor, amount: (pre.entries[i].amount + amount) as u64 };
        lemma_sum_update(pre.entries, i, e);
        assert forall|j: int| 0 <= j < post.entries.len() implies 0 < #[trigger] post.entries[j].amount by {
            if j != i {
                assert(post.entries[j] == pre.entries[j]);
            }
        }
        assert forall|p: int, q: int|
            #![trigger post.entries[p], post.entries[q]]
            0 <= p < q < post.entries.len() implies post.entries[p].donor
            != post.entries[q].donor by {
            assert(post.entries[p].donor == pre.entries[p].donor);
            assert(post.entries[q].donor == pre.entries[q].donor);
        }
        assert(post.entries[i].donor == donor);
        assert(has_entry(post.entries, donor));
        let j = entry_index(post.entries, donor);
        assert(0 <= j < post.entries.len() && post.entries[j].donor == donor);
        if j != i {
            assert(pre.entries[j].donor == donor);
            assert(false);
        }
    } else {
        let e = Entry { donor, amount };
        lemma_sum_push(pre.entries, e);
        let n = pre.entries.len() as int;
        assert forall|j: int| 0 <= j < post.entries.len() implies 0 < #[trigger] post.entries[j].amount by {
            if j < n {
                assert(post.entries[j] == pre.entries[j]);
            }
        }
        assert forall|p: int, q: int|
            #![trigger post.entries[p], post.entries[q]]
            0 <= p < q < post.entries.len() implies post.entries[p].donor
            != post.entries[q].donor by {
            if q < n {
                assert(post.entries[p] == pre.entries[p]);
                assert(post.entries[q] == pre.entries[q]);
            } else {
                assert(post.entries[q].donor == donor);
                assert(post.entries[p] == pre.entries[p]);
                if pre.entries[p].donor == donor {
                    assert(has_entry(pre.entries, donor));
                    assert(false);
                }
            }
        }
        assert(post.entries[n].donor == donor);
        assert(has_entry(post.entries, donor));
        let j = entry_index(post.entries, donor);
        assert(0 <= j < post.entries.len() && post.entries[j].donor == donor);
        if j != n {
            assert(pre.entries[j].donor == donor);
            assert(has_entry(pre.entries, donor));
            assert(false);
        }
    }
}

/// A withdrawal preserves the invariant, marks the campaign claimed, and
/// leaves the vault empty.
pub proof fn lemma_withdraw_preserves_inv(
    pre: EscrowState,
    caller: AccountId,
    now: i64,
    post: EscrowState,
)
    requires
        inv(pre),
        withdraw_step(pre, caller, now, post),
    ensures
        inv(post),
        post.campaign.claimed,
        post.vault == 0,
{
}

/// A refund preserves the invariant; the donor's entry is gone afterwards;
/// a vault that exactly covered the raised total still does; and the last
/// refund — the one that empties the raised total — leaves both the raised
/// total and the vault at zero, dust and all.
pub proof fn lemma_refund_preserves_inv(
    pre: EscrowState,
    donor: AccountId,
    now: i64,
    post: EscrowState,
)
    requires
        inv(pre),
        refund_step(pre, donor, now, post),
    ensures
        inv(post),
        !has_entry(post.entries, donor),
        pre.vault == pre.campaign.raised ==> post.vault == post.campaign.raised,
        amount_of(pre.entries, donor) == pre.campaign.raised ==> post.vault == 0
            && post.campaign.raised == 0,
{
    let k = amount_of(pre.entries, donor);
    assert(has_entry(pre.entries, donor));
    let i = entry_index(pre.entries, donor);
    assert(0 <= i < pre.entries.len() && pre.entries[i].donor == donor);
    lemma_sum_remove(pre.entries, i);
    let n = pre.entries.len() as int;
    assert forall|j: int| 0 <= j < post.entries.len() implies 0 < #[trigger] post.entries[j].amount by {
        if j < i {
            assert(post.entries[j] == pre.entries[j]);
        } else {
            assert(post.entries[j] == pre.entries[j + 1]);
        }
    }
    assert forall|p: int, q: int|
        #![trigger post.entries[p], post.entries[q]]
        0 <= p < q < post.entries.len() implies post.entries[p].donor
        != post.entries[q].donor by {
        if p < i {
            assert(post.entries[p] == pre.entries[p]);
        } else {
            assert(post.entries[p] == pre.entries[p + 1]);
        }
        if q < i {
            assert(post.entries[q] == pre.entries[q]);
        } else {
            assert(post.entries[q] == pre.entries[q + 1]);
        }
    }
    assert forall|j: int| 0 <= j < post.entries.len() implies #[trigger] post.entries[j].donor
        != donor by {
        if j < i {
            assert(post.entries[j] == pre.entries[j]);
        } else {
            assert(post.entries[j] == pre.entries[j + 1]);
        }
    }
    if has_entry(post.entries, donor) {
        let j = entry_index(post.entries, donor);
        assert(0 <= j < post.entries.len() && post.entries[j].donor == donor);
        assert(false);
    }
}

/// Dust injected by a third party preserves the invariant: the vault only
/// grows past the raised total.
pub proof fn lemma_dust_preserves_inv(pre: EscrowState, dust: int, post: EscrowState)
    requires
        inv(pre),
        dust_step(pre, dust, post),
    ensures
        inv(post),
        post.vault > pre.vault,
{
}

/// Two contributions by the same contributor accumulate in a single entry,
/// never two: afterwards the donor's stake carries both amounts, and any two
/// positions holding that donor's entry are one and the same.
pub proof fn lemma_contribute_accumulates(
    s0: EscrowState,
    donor: AccountId,
    first_amount: u64,
    first_now: i64,
    s1: EscrowState,
    second_amount: u64,
    second_now: i64,
    s2: EscrowState,
)
    requires
        inv(s0),
        contribute_step(s0, donor, first_amount, first_now, s1),
        contribute_step(s1, donor, second_amount, second_now, s2),
    ensures
        inv(s2),
        has_entry(s2.entries, donor),
        amount_of(s2.entries, donor) == amount_of(s0.entries, donor) + first_amount
            + second_amount,
        forall|i: int, j: int|
            #![trigger s2.entries[i], s2.entries[j]]
            0 <= i < s2.entries.len() && 0 <= j < s2.entries.len() && s2.entries[i].donor == donor
                && s2.entries[j].donor == donor ==> i == j,
{
    lemma_contribute_preserves_inv(s0, donor, first_amount, first_now, s1);
    lemma_contribute_preserves_inv(s1, donor, second_amount, second_now, s2);
    assert forall|i: int, j: int|
        #![trigger s2.entries[i], s2.entries[j]]
        0 <= i < s2.entries.len() && 0 <= j < s2.entries.len() && s2.entries[i].donor == donor
            && s2.entries[j].donor == donor implies i == j by {
        if i < j {
            assert(s2.entries[i].donor != s2.entries[j].donor);
        } else if j < i {
            assert(s2.entries[j].donor != s2.entries[i].donor);
        }
    }
}

/// A withdrawal is terminal: on the state it leaves, at any later time, a
/// second withdrawal by the creator and a refund for any stake whatsoever
/// are both refused with `AlreadyClaimed`.
pub proof fn lemma_withdraw_is_terminal(
    pre: EscrowState,
    caller: AccountId,
    withdraw_now: i64,
    post: EscrowState,
    later: i64,
)
    requires
        inv(pre),
        withdraw_step(pre, caller, withdraw_now, post),
        later >= withdraw_now,
    ensures
        !withdraw_ok(post.campaign, caller, later),
        withdraw_error(post.campaign, caller, later) == CrowdfundError::AlreadyClaimed,
        forall|d: AccountId| !refund_ok(post.campaign, #[trigger] amount_of(post.entries, d), later),
        forall|k: u64| #[trigger] refund_error(post.campaign, k, later)
            == CrowdfundError::AlreadyClaimed,
{
}

/// Under the invariant, a live stake never exceeds the raised total: the
/// checked subtraction inside `refund` cannot be the reason a refund of a
/// live stake fails.
pub proof fn lemma_stake_covered(s: EscrowState, donor: AccountId)
    requires
        inv(s),
        has_entry(s.entries, donor),
    ensures
        amount_of(s.entries, donor) <= s.campaign.raised,
{
    let i = entry_index(s.entries, donor);
    assert(0 <= i < s.entries.len() && s.entries[i].donor == donor);
    lemma_entry_le_sum(s.entries, i);
}

} // verus!
