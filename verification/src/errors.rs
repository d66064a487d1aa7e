//! The ways an escrow operation can reject a call. Every rejection is
//! terminal for that one call and leaves all records unchanged.
use vstd::prelude::*;

verus! {

/// Why an operation was refused. Each variant is produced by exactly the
/// condition its name states; the operations' contracts say which variant
/// comes back on which input.
#[derive(Clone, Copy, PartialEq, Eq, Structural, Debug)]
pub enum CrowdfundError {
    /// The deadline handed to `create_campaign` was not strictly in the future.
    InvalidDeadline,
    /// The campaign name handed to `create_campaign` exceeds the length bound.
    NameTooLong,
    /// The goal handed to `create_campaign` was zero.
    InvalidGoal,
    /// The amount handed to `contribute` was zero.
    InvalidAmount,
    /// A contribution arrived at or after the campaign's deadline.
    CampaignEnded,
    /// A withdrawal was attempted though the raised total is below the goal.
    GoalNotMet,
    /// A settlement was attempted before the campaign's deadline.
    CampaignNotEnded,
    /// The creator has already withdrawn; the campaign is terminal.
    AlreadyClaimed,
    /// A withdrawal was attempted by an identity other than the creator.
    NotAuthorized,
    /// A refund was attempted though the campaign reached its goal.
    GoalMetCannotRefund,
    /// A refund was attempted by a contributor with no outstanding stake.
    InsufficientContribution,
    /// A checked add or subtract on a running total would wrap.
    ArithmeticOverflow,
}

impl CrowdfundError {
    /// A human-readable description of the rejection.
    pub fn describe(&self) -> String {
        match self {
            CrowdfundError::InvalidDeadline => "deadline must be in the future".to_string(),
            CrowdfundError::NameTooLong => "campaign name is too long".to_string(),
            CrowdfundError::InvalidGoal => "goal must be greater than zero".to_string(),
            CrowdfundError::InvalidAmount => "contribution amount must be greater than zero".to_string(),
            CrowdfundError::CampaignEnded => "campaign has ended".to_string(),
            CrowdfundError::GoalNotMet => "goal not met".to_string(),
            CrowdfundError::CampaignNotEnded => "campaign has not ended yet".to_string(),
            CrowdfundError::AlreadyClaimed => "funds already claimed".to_string(),
            CrowdfundError::NotAuthorized => "not the campaign creator".to_string(),
            CrowdfundError::GoalMetCannotRefund => "goal met, cannot refund".to_string(),
            CrowdfundError::InsufficientContribution => "no outstanding contribution".to_string(),
            CrowdfundError::ArithmeticOverflow => "arithmetic overflow".to_string(),
        }
    }
}

} // verus!
