use crate::contribution::ContributionView;
use crate::error::LaunchpadError;
use crate::escrow::transfer_outcome;
use crate::project::{stored_len, ProjectView, MAX_DESCRIPTION_LEN, MAX_NAME_LEN};
use anchor_lang::prelude::Pubkey;
use vstd::prelude::*;

verus! {

/// All that a call of `contribute` leaves behind: the project, the two
/// balances, and what the call returns.
pub struct Contributed {
    pub project: ProjectView,
    pub contributor_balance: nat,
    pub vault: nat,
    pub result: Result<ContributionView, LaunchpadError>,
}

/// All that a call of `withdraw_funds` leaves behind: the project, the two
/// balances, and what the call returns.
pub struct Withdrawn {
    pub project: ProjectView,
    pub vault: nat,
    pub owner_balance: nat,
    pub result: Result<(), LaunchpadError>,
}

/// All that a call of `claim_refund` leaves behind: the contribution, the two
/// balances, and what the call returns.
pub struct Refunded {
    pub contribution: ContributionView,
    pub vault: nat,
    pub contributor_balance: nat,
    pub result: Result<(), LaunchpadError>,
}

/// Carries a result over to the view of what it holds.
pub open spec fn viewed<T: View>(r: Result<T, LaunchpadError>) -> Result<T::V, LaunchpadError> {
    match r {
        Ok(value) => Ok(value@),
        Err(e) => Err(e),
    }
}

/// Carries a result that holds seconds over to the integers.
pub open spec fn in_seconds(r: Result<i64, LaunchpadError>) -> Result<int, LaunchpadError> {
    match r {
        Ok(seconds) => Ok(seconds as int),
        Err(e) => Err(e),
    }
}

/// Registration at time `now`. The goal, the duration, the name and the
/// description are checked in this order; then the deadline must fit 64 bits.
pub open spec fn initialize_outcome(
    owner: Pubkey,
    name: Seq<char>,
    description: Seq<char>,
    goal_amount: nat,
    duration: int,
    now: int,
) -> Result<ProjectView, LaunchpadError> {
    if goal_amount == 0 {
        Err(LaunchpadError::InvalidGoalAmount)
    } else if duration <= 0 {
        Err(LaunchpadError::InvalidDuration)
    } else if stored_len(name) > MAX_NAME_LEN {
        Err(LaunchpadError::NameTooLong)
    } else if stored_len(description) > MAX_DESCRIPTION_LEN {
        Err(LaunchpadError::DescriptionTooLong)
    } else if now + duration > i64::MAX {
        Err(LaunchpadError::Overflow)
    } else {
        Ok(
            ProjectView {
                owner,
                name,
                description,
                goal_amount,
                current_amount: 0,
                start_time: now,
                end_time: now + duration,
                is_active: true,
                goal_reached: false,
            },
        )
    }
}

/// Whether the project takes a pledge of `amount` at time `now`: the project
/// must be active, the deadline must lie ahead and the amount must not be
/// zero, in this order; then the sum of the pledges must fit 64 bits.
pub open spec fn may_contribute(project: ProjectView, amount: nat, now: int) -> Result<
    (),
    LaunchpadError,
> {
    if !project.is_active {
        Err(LaunchpadError::ProjectNotActive)
    } else if now >= project.end_time {
        Err(LaunchpadError::ProjectEnded)
    } else if amount == 0 {
        Err(LaunchpadError::InvalidContributionAmount)
    } else if project.current_amount + amount > u64::MAX {
        Err(LaunchpadError::Overflow)
    } else {
        Ok(())
    }
}

/// The project with `amount` more pledged: the goal flag is set once the
/// pledges reach the goal, and a flag that is set stays set.
pub open spec fn with_pledge(project: ProjectView, amount: nat) -> ProjectView {
    ProjectView {
        current_amount: project.current_amount + amount,
        goal_reached: project.goal_reached || project.current_amount + amount
            >= project.goal_amount,
        ..project
    }
}

/// A contribution of `amount` at time `now`. Where the project takes the
/// pledge and the amount can move from the contributor to the vault, it moves,
/// is added to the project and is recorded. Else nothing changes.
pub open spec fn contribute_outcome(
    project: ProjectView,
    contributor: Pubkey,
    amount: nat,
    contributor_balance: nat,
    vault: nat,
    now: int,
) -> Contributed {
    let moved = match may_contribute(project, amount, now) {
        Err(e) => Err(e),
        Ok(()) => transfer_outcome(contributor_balance, vault, amount),
    };
    match moved {
        Err(e) => Contributed { project, contributor_balance, vault, result: Err(e) },
        Ok((contributor_after, vault_after)) => Contributed {
            project: with_pledge(project, amount),
            contributor_balance: contributor_after,
            vault: vault_after,
            result: Ok(ContributionView { contributor, amount, withdrawn: false }),
        },
    }
}

/// Whether `caller` may withdraw the funds of the project at time `now`: the
/// caller must be the owner, the goal must be reached, the deadline must have
/// come and the project must still be active, in this order. The last rule
/// makes a withdrawal a thing that happens once: the first one closes the
/// project, and a closed project pays out no more.
pub open spec fn may_withdraw(project: ProjectView, caller: Pubkey, now: int) -> Result<
    (),
    LaunchpadError,
> {
    if caller != project.owner {
        Err(LaunchpadError::Unauthorized)
    } else if !project.goal_reached {
        Err(LaunchpadError::GoalNotReached)
    } else if now < project.end_time {
        Err(LaunchpadError::ProjectNotEnded)
    } else if !project.is_active {
        Err(LaunchpadError::ProjectNotActive)
    } else {
        Ok(())
    }
}

/// A withdrawal by `caller` at time `now`. Where the caller may withdraw and
/// all that the vault holds can move to the owner, it moves and the project is
/// closed. Else nothing changes: what reaches the vault of a closed project
/// stays there.
pub open spec fn withdraw_outcome(
    project: ProjectView,
    caller: Pubkey,
    vault: nat,
    owner_balance: nat,
    now: int,
) -> Withdrawn {
    let moved = match may_withdraw(project, caller, now) {
        Err(e) => Err(e),
        Ok(()) => transfer_outcome(vault, owner_balance, vault),
    };
    match moved {
        Err(e) => Withdrawn { project, vault, owner_balance, result: Err(e) },
        Ok((vault_after, owner_after)) => Withdrawn {
            project: ProjectView { is_active: false, ..project },
            vault: vault_after,
            owner_balance: owner_after,
            result: Ok(()),
        },
    }
}

/// Whether the contribution may be refunded at time `now`: the goal must have
/// been missed, the deadline must have come and the contribution must not have
/// been refunded before, in this order.
pub open spec fn may_refund(
    project: ProjectView,
    contribution: ContributionView,
    now: int,
) -> Result<(), LaunchpadError> {
    if project.goal_reached {
        Err(LaunchpadError::GoalReached)
    } else if now < project.end_time {
        Err(LaunchpadError::ProjectNotEnded)
    } else if contribution.withdrawn {
        Err(LaunchpadError::AlreadyWithdrawn)
    } else {
        Ok(())
    }
}

/// A refund at time `now`. Where the contribution may be refunded and its
/// amount can move from the vault to the contributor, it moves and the
/// contribution is marked. Else nothing changes.
pub open spec fn refund_outcome(
    project: ProjectView,
    contribution: ContributionView,
    vault: nat,
    contributor_balance: nat,
    now: int,
) -> Refunded {
    let moved = match may_refund(project, contribution, now) {
        Err(e) => Err(e),
        Ok(()) => transfer_outcome(vault, contributor_balance, contribution.amount),
    };
    match moved {
        Err(e) => Refunded { contribution, vault, contributor_balance, result: Err(e) },
        Ok((vault_after, contributor_after)) => Refunded {
            contribution: ContributionView { withdrawn: true, ..contribution },
            vault: vault_after,
            contributor_balance: contributor_after,
            result: Ok(()),
        },
    }
}

/// The seconds left at time `now` until the deadline, none from the deadline
/// on. A span that does not fit 64 bits is an overflow.
pub open spec fn remaining_time_outcome(project: ProjectView, now: int) -> Result<
    int,
    LaunchpadError,
> {
    if now >= project.end_time {
        Ok(0)
    } else if project.end_time - now > i64::MAX {
        Err(LaunchpadError::Overflow)
    } else {
        Ok(project.end_time - now)
    }
}

} // verus!
