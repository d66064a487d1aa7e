use crowdfund_escrow::{
    contribute, create_campaign, refund, withdraw, AccountId, Campaign, Contribution,
    CrowdfundError,
};

fn creator() -> AccountId {
    AccountId { id: 1 }
}

fn donor_x() -> AccountId {
    AccountId { id: 2 }
}

fn donor_y() -> AccountId {
    AccountId { id: 3 }
}

fn stranger() -> AccountId {
    AccountId { id: 9 }
}

/// A campaign with goal 1000 and deadline 100, created at time 0.
fn open_campaign() -> Campaign {
    create_campaign(creator(), b"save the bees".to_vec(), 1000, 100, 0).unwrap()
}

#[test]
fn create_fills_the_record() {
    let c = open_campaign();
    assert_eq!(c.creator, creator());
    assert_eq!(c.name, b"save the bees".to_vec());
    assert_eq!(c.goal, 1000);
    assert_eq!(c.raised, 0);
    assert_eq!(c.deadline, 100);
    assert!(!c.claimed);
}

#[test]
fn create_rejects_past_deadline() {
    let r = create_campaign(creator(), b"late".to_vec(), 1000, 50, 50);
    assert_eq!(r.unwrap_err(), CrowdfundError::InvalidDeadline);
    let r = create_campaign(creator(), b"later".to_vec(), 1000, 40, 50);
    assert_eq!(r.unwrap_err(), CrowdfundError::InvalidDeadline);
}

#[test]
fn create_rejects_long_name() {
    let name = vec![b'x'; 33];
    let r = create_campaign(creator(), name, 1000, 100, 0);
    assert_eq!(r.unwrap_err(), CrowdfundError::NameTooLong);
    let name = vec![b'x'; 32];
    assert!(create_campaign(creator(), name, 1000, 100, 0).is_ok());
}

#[test]
fn create_rejects_zero_goal() {
    let r = create_campaign(creator(), b"zero".to_vec(), 0, 100, 0);
    assert_eq!(r.unwrap_err(), CrowdfundError::InvalidGoal);
}

#[test]
fn scenario_goal_met_creator_withdraws() {
    let mut c = open_campaign();
    let mut kx = Contribution::new();
    let mut ky = Contribution::new();
    let mut vault: u64 = 0;

    let d = contribute(&mut c, &mut kx, donor_x(), 600, 10).unwrap();
    assert_eq!(d.from, donor_x());
    assert_eq!(d.amount, 600);
    vault += d.amount;

    let d = contribute(&mut c, &mut ky, donor_y(), 400, 10).unwrap();
    assert_eq!(d.amount, 400);
    vault += d.amount;

    assert_eq!(c.raised, 1000);
    assert_eq!(c.raised, c.goal);
    assert_eq!(c.raised, kx.amount + ky.amount);
    assert_eq!(vault, 1000);

    let p = withdraw(&mut c, creator(), vault, 100).unwrap();
    assert_eq!(p.to, creator());
    assert_eq!(p.amount, vault);
    assert!(p.authority.authorizes(&c));
    vault -= p.amount;

    assert_eq!(vault, 0);
    assert!(c.claimed);
}

#[test]
fn scenario_goal_missed_contributor_refunded() {
    let mut c = open_campaign();
    let mut kx = Contribution::new();
    let mut vault: u64 = 0;

    vault += contribute(&mut c, &mut kx, donor_x(), 300, 10).unwrap().amount;
    assert_eq!(c.raised, 300);

    let p = refund(&mut c, &mut kx, donor_x(), vault, 101).unwrap();
    assert_eq!(p.to, donor_x());
    assert_eq!(p.amount, 300);
    assert!(p.authority.authorizes(&c));
    vault -= p.amount;

    // The emptied record is what the caller destroys.
    assert_eq!(kx.amount, 0);
    assert_eq!(c.raised, 0);
    assert_eq!(vault, 0);
}

#[test]
fn scenario_last_refund_sweeps_dust() {
    let mut c = open_campaign();
    let mut kx = Contribution::new();
    let mut vault: u64 = 0;

    vault += contribute(&mut c, &mut kx, donor_x(), 300, 10).unwrap().amount;

    // A third party drops 5 units straight into the vault.
    vault += 5;

    let p = refund(&mut c, &mut kx, donor_x(), vault, 101).unwrap();
    assert_eq!(p.amount, 305);
    vault -= p.amount;
    assert_eq!(vault, 0);
    assert_eq!(c.raised, 0);
}

#[test]
fn non_final_refund_leaves_dust_in_the_vault() {
    let mut c = open_campaign();
    let mut kx = Contribution::new();
    let mut ky = Contribution::new();
    let mut vault: u64 = 0;

    vault += contribute(&mut c, &mut kx, donor_x(), 300, 10).unwrap().amount;
    vault += contribute(&mut c, &mut ky, donor_y(), 200, 10).unwrap().amount;
    vault += 5; // dust

    // X is not the last outstanding contributor: exactly the stake comes back.
    let p = refund(&mut c, &mut kx, donor_x(), vault, 101).unwrap();
    assert_eq!(p.amount, 300);
    vault -= p.amount;
    assert_eq!(c.raised, 200);
    assert_eq!(vault, 205);

    // Y's refund is the last one: it sweeps the dust.
    let p = refund(&mut c, &mut ky, donor_y(), vault, 101).unwrap();
    assert_eq!(p.amount, 205);
    vault -= p.amount;
    assert_eq!(c.raised, 0);
    assert_eq!(vault, 0);
}

#[test]
fn scenario_zero_contribution_rejected() {
    let mut c = open_campaign();
    let mut kx = Contribution::new();
    let r = contribute(&mut c, &mut kx, donor_x(), 0, 10);
    assert_eq!(r.unwrap_err(), CrowdfundError::InvalidAmount);
    assert_eq!(c.raised, 0);
    assert_eq!(kx.amount, 0);
}

#[test]
fn scenario_contribution_after_deadline_rejected() {
    let mut c = open_campaign();
    let mut kx = Contribution::new();
    // Exactly at the deadline counts as ended.
    let r = contribute(&mut c, &mut kx, donor_x(), 50, 100);
    assert_eq!(r.unwrap_err(), CrowdfundError::CampaignEnded);
    let r = contribute(&mut c, &mut kx, donor_x(), 50, 200);
    assert_eq!(r.unwrap_err(), CrowdfundError::CampaignEnded);
    assert_eq!(c.raised, 0);
    assert_eq!(kx.amount, 0);
}

#[test]
fn scenario_withdraw_by_stranger_rejected() {
    let mut c = open_campaign();
    let mut kx = Contribution::new();
    let mut vault: u64 = 0;
    vault += contribute(&mut c, &mut kx, donor_x(), 1000, 10).unwrap().amount;

    let r = withdraw(&mut c, stranger(), vault, 100);
    assert_eq!(r.unwrap_err(), CrowdfundError::NotAuthorized);
    // No payout came back, so the vault did not move.
    assert_eq!(vault, 1000);
    assert!(!c.claimed);
}

#[test]
fn repeated_contributions_accumulate_in_one_record() {
    let mut c = open_campaign();
    let mut kx = Contribution::new();
    contribute(&mut c, &mut kx, donor_x(), 250, 10).unwrap();
    contribute(&mut c, &mut kx, donor_x(), 350, 20).unwrap();
    assert_eq!(kx.amount, 600);
    assert_eq!(c.raised, 600);
}

#[test]
fn raised_total_tracks_the_sum_of_stakes() {
    let mut c = open_campaign();
    let mut kx = Contribution::new();
    let mut ky = Contribution::new();
    contribute(&mut c, &mut kx, donor_x(), 100, 10).unwrap();
    assert_eq!(c.raised, kx.amount + ky.amount);
    contribute(&mut c, &mut ky, donor_y(), 200, 11).unwrap();
    assert_eq!(c.raised, kx.amount + ky.amount);
    contribute(&mut c, &mut kx, donor_x(), 50, 12).unwrap();
    assert_eq!(c.raised, kx.amount + ky.amount);
    let _ = refund(&mut c, &mut kx, donor_x(), 350, 101).unwrap();
    assert_eq!(c.raised, kx.amount + ky.amount);
}

#[test]
fn contribution_overflow_rejected_before_any_transfer() {
    let mut c = open_campaign();
    let mut kx = Contribution::new();
    contribute(&mut c, &mut kx, donor_x(), u64::MAX - 10, 10).unwrap();
    let r = contribute(&mut c, &mut kx, donor_x(), 11, 10);
    assert_eq!(r.unwrap_err(), CrowdfundError::ArithmeticOverflow);
    assert_eq!(c.raised, u64::MAX - 10);
    assert_eq!(kx.amount, u64::MAX - 10);
}

#[test]
fn stake_overflow_rejected_even_when_total_fits() {
    // Two campaigns share nothing, but one record can still be near the cap:
    // build the state directly to drive the per-record check.
    let mut c = Campaign {
        creator: creator(),
        name: b"edge".to_vec(),
        goal: 10,
        raised: 5,
        deadline: 100,
        claimed: false,
    };
    let mut kx = Contribution { amount: u64::MAX - 2 };
    let r = contribute(&mut c, &mut kx, donor_x(), 3, 10);
    assert_eq!(r.unwrap_err(), CrowdfundError::ArithmeticOverflow);
    assert_eq!(c.raised, 5);
    assert_eq!(kx.amount, u64::MAX - 2);
}

#[test]
fn withdraw_before_goal_rejected() {
    let mut c = open_campaign();
    let mut kx = Contribution::new();
    contribute(&mut c, &mut kx, donor_x(), 999, 10).unwrap();
    let r = withdraw(&mut c, creator(), 999, 100);
    assert_eq!(r.unwrap_err(), CrowdfundError::GoalNotMet);
    assert!(!c.claimed);
}

#[test]
fn withdraw_before_deadline_rejected() {
    let mut c = open_campaign();
    let mut kx = Contribution::new();
    contribute(&mut c, &mut kx, donor_x(), 1000, 10).unwrap();
    let r = withdraw(&mut c, creator(), 1000, 99);
    assert_eq!(r.unwrap_err(), CrowdfundError::CampaignNotEnded);
    assert!(!c.claimed);
}

#[test]
fn second_withdraw_rejected_as_already_claimed() {
    let mut c = open_campaign();
    let mut kx = Contribution::new();
    let mut vault: u64 = 0;
    vault += contribute(&mut c, &mut kx, donor_x(), 1000, 10).unwrap().amount;

    let p = withdraw(&mut c, creator(), vault, 100).unwrap();
    vault -= p.amount;

    let r = withdraw(&mut c, creator(), vault, 150);
    assert_eq!(r.unwrap_err(), CrowdfundError::AlreadyClaimed);
}

#[test]
fn refund_after_withdraw_rejected_as_already_claimed() {
    let mut c = open_campaign();
    let mut kx = Contribution::new();
    let mut vault: u64 = 0;
    vault += contribute(&mut c, &mut kx, donor_x(), 1000, 10).unwrap().amount;

    let p = withdraw(&mut c, creator(), vault, 100).unwrap();
    vault -= p.amount;

    let r = refund(&mut c, &mut kx, donor_x(), vault, 150);
    assert_eq!(r.unwrap_err(), CrowdfundError::AlreadyClaimed);
    assert_eq!(kx.amount, 1000);
}

#[test]
fn refund_before_deadline_rejected() {
    let mut c = open_campaign();
    let mut kx = Contribution::new();
    contribute(&mut c, &mut kx, donor_x(), 300, 10).unwrap();
    let r = refund(&mut c, &mut kx, donor_x(), 300, 99);
    assert_eq!(r.unwrap_err(), CrowdfundError::CampaignNotEnded);
    assert_eq!(c.raised, 300);
    assert_eq!(kx.amount, 300);
}

#[test]
fn refund_on_successful_campaign_rejected() {
    let mut c = open_campaign();
    let mut kx = Contribution::new();
    contribute(&mut c, &mut kx, donor_x(), 1000, 10).unwrap();
    let r = refund(&mut c, &mut kx, donor_x(), 1000, 101);
    assert_eq!(r.unwrap_err(), CrowdfundError::GoalMetCannotRefund);
    assert_eq!(kx.amount, 1000);
}

#[test]
fn refund_of_empty_stake_rejected() {
    let mut c = open_campaign();
    let mut kx = Contribution::new();
    let mut ky = Contribution::new();
    contribute(&mut c, &mut kx, donor_x(), 300, 10).unwrap();
    let r = refund(&mut c, &mut ky, donor_y(), 300, 101);
    assert_eq!(r.unwrap_err(), CrowdfundError::InsufficientContribution);
    assert_eq!(c.raised, 300);
}

#[test]
fn refund_underflow_rejected() {
    // A stake larger than the raised total cannot arise through the
    // operations; built directly, the checked subtraction refuses it.
    let mut c = Campaign {
        creator: creator(),
        name: b"edge".to_vec(),
        goal: 10,
        raised: 5,
        deadline: 100,
        claimed: false,
    };
    let mut kx = Contribution { amount: 7 };
    let r = refund(&mut c, &mut kx, donor_x(), 5, 101);
    assert_eq!(r.unwrap_err(), CrowdfundError::ArithmeticOverflow);
    assert_eq!(c.raised, 5);
    assert_eq!(kx.amount, 7);
}

#[test]
fn authority_is_scoped_to_its_own_campaign() {
    let mut c = open_campaign();
    let other =
        create_campaign(creator(), b"save the wasps".to_vec(), 1000, 100, 0).unwrap();
    let foreign = create_campaign(stranger(), b"save the bees".to_vec(), 500, 100, 0).unwrap();
    let mut kx = Contribution::new();
    let mut vault: u64 = 0;
    vault += contribute(&mut c, &mut kx, donor_x(), 1000, 10).unwrap().amount;

    let p = withdraw(&mut c, creator(), vault, 100).unwrap();
    assert!(p.authority.authorizes(&c));
    // Same creator, different name: a different vault.
    assert!(!p.authority.authorizes(&other));
    // Same name, different creator: a different vault.
    assert!(!p.authority.authorizes(&foreign));
}

#[test]
fn refund_authority_is_scoped_too() {
    let mut c = open_campaign();
    let other = create_campaign(creator(), b"save the ants".to_vec(), 800, 100, 0).unwrap();
    let mut kx = Contribution::new();
    let mut vault: u64 = 0;
    vault += contribute(&mut c, &mut kx, donor_x(), 300, 10).unwrap().amount;

    let p = refund(&mut c, &mut kx, donor_x(), vault, 101).unwrap();
    assert!(p.authority.authorizes(&c));
    assert!(!p.authority.authorizes(&other));
}

#[test]
fn errors_describe_themselves() {
    assert_eq!(
        CrowdfundError::InvalidDeadline.describe(),
        "deadline must be in the future"
    );
    assert_eq!(CrowdfundError::ArithmeticOverflow.describe(), "arithmetic overflow");
}

#[test]
fn zero_amount_outranks_ended_campaign() {
    // Both rejections apply; the amount is checked first.
    let mut c = open_campaign();
    let mut kx = Contribution::new();
    let r = contribute(&mut c, &mut kx, donor_x(), 0, 200);
    assert_eq!(r.unwrap_err(), CrowdfundError::InvalidAmount);
}

#[test]
fn withdraw_sweeps_the_whole_vault() {
    let mut c = open_campaign();
    let mut kx = Contribution::new();
    let mut vault: u64 = 0;
    vault += contribute(&mut c, &mut kx, donor_x(), 1000, 10).unwrap().amount;
    vault += 5; // dust past the bookkeeping

    let p = withdraw(&mut c, creator(), vault, 100).unwrap();
    assert_eq!(p.amount, 1005);
    vault -= p.amount;
    assert_eq!(vault, 0);
    // The raised total is bookkeeping only; withdrawal does not clear it.
    assert_eq!(c.raised, 1000);
}
