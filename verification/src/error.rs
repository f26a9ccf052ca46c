use vstd::prelude::*;

verus! {

/// Every way an operation of the launchpad can be turned down.
///
/// Each rule that an operation checks has a variant of its own, so the variant
/// alone tells which rule was broken.
#[derive(Clone, Copy, Debug, PartialEq, Eq, Hash, Structural)]
pub enum LaunchpadError {
    /// The funding goal of a new project is zero.
    InvalidGoalAmount,
    /// The duration of a new project is zero or negative.
    InvalidDuration,
    /// The name of a new project takes more than 32 bytes.
    NameTooLong,
    /// The description of a new project takes more than 200 bytes.
    DescriptionTooLong,
    /// The project has been closed by a withdrawal: it takes no pledge and
    /// pays out no more.
    ProjectNotActive,
    /// The deadline of the project has been reached.
    ProjectEnded,
    /// A contribution of zero units was offered.
    InvalidContributionAmount,
    /// A sum does not fit the integer that holds it.
    Overflow,
    /// The caller is not the owner of the project.
    Unauthorized,
    /// The owner asked for the funds of a project that missed its goal.
    GoalNotReached,
    /// The deadline of the project has not been reached yet.
    ProjectNotEnded,
    /// A refund was asked from a project that reached its goal.
    GoalReached,
    /// The contribution has been refunded before.
    AlreadyWithdrawn,
    /// The paying holder has fewer units than the transfer moves.
    InsufficientFunds,
    /// The runtime gave no clock reading.
    ClockUnavailable,
}

/// The text that goes with each error.
pub open spec fn message_of(error: LaunchpadError) -> Seq<char> {
    match error {
        LaunchpadError::InvalidGoalAmount => "Invalid goal amount"@,
        LaunchpadError::InvalidDuration => "Invalid duration"@,
        LaunchpadError::NameTooLong => "Name too long"@,
        LaunchpadError::DescriptionTooLong => "Description too long"@,
        LaunchpadError::ProjectNotActive => "Project is not active"@,
        LaunchpadError::ProjectEnded => "Project has ended"@,
        LaunchpadError::InvalidContributionAmount => "Invalid contribution amount"@,
        LaunchpadError::Overflow => "Arithmetic overflow"@,
        LaunchpadError::Unauthorized => "Unauthorized"@,
        LaunchpadError::GoalNotReached => "Goal not reached"@,
        LaunchpadError::ProjectNotEnded => "Project not ended"@,
        LaunchpadError::GoalReached => "Goal already reached"@,
        LaunchpadError::AlreadyWithdrawn => "Already withdrawn"@,
        LaunchpadError::InsufficientFunds => "Insufficient funds"@,
        LaunchpadError::ClockUnavailable => "Clock unavailable"@,
    }
}

impl LaunchpadError {
    /// The message shown to whoever made the failing call.
    pub fn message(&self) -> (text: &'static str)
        ensures
            text@ == message_of(*self),
    {
        match self {
            LaunchpadError::InvalidGoalAmount => "Invalid goal amount",
            LaunchpadError::InvalidDuration => "Invalid duration",
            LaunchpadError::NameTooLong => "Name too long",
            LaunchpadError::DescriptionTooLong => "Description too long",
            LaunchpadError::ProjectNotActive => "Project is not active",
            LaunchpadError::ProjectEnded => "Project has ended",
            LaunchpadError::InvalidContributionAmount => "Invalid contribution amount",
            LaunchpadError::Overflow => "Arithmetic overflow",
            LaunchpadError::Unauthorized => "Unauthorized",
            LaunchpadError::GoalNotReached => "Goal not reached",
            LaunchpadError::ProjectNotEnded => "Project not ended",
            LaunchpadError::GoalReached => "Goal already reached",
            LaunchpadError::AlreadyWithdrawn => "Already withdrawn",
            LaunchpadError::InsufficientFunds => "Insufficient funds",
            LaunchpadError::ClockUnavailable => "Clock unavailable",
        }
    }
}

} // verus!
