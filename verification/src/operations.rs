use crate::chain::unix_timestamp;
use crate::contribution::Contribution;
use crate::error::LaunchpadError;
use crate::escrow::transfer;
use crate::project::{stored_len, Project, ProjectView, MAX_DESCRIPTION_LEN, MAX_NAME_LEN};
use crate::rules::{
    contribute_outcome, in_seconds, initialize_outcome, refund_outcome, remaining_time_outcome,
    viewed, withdraw_outcome, Contributed, Refunded, Withdrawn,
};
use anchor_lang::prelude::Pubkey;
use vstd::prelude::*;

verus! {

/// The number of bytes that a text takes when it is stored.
fn bytes_taken(text: &String) -> (n: usize)
    ensures
        n == stored_len(text@),
{
    text.as_str().as_bytes().len()
}

/// Registers a project at time `now`: `owner` asks for `goal_amount` units
/// within `duration` seconds.
///
/// The new project is active, has nothing pledged and has not reached its
/// goal; its deadline is `now + duration`.
pub fn initialize_project_at(
    owner: Pubkey,
    name: String,
    description: String,
    goal_amount: u64,
    duration: i64,
    now: i64,
) -> (r: Result<Project, LaunchpadError>)
    ensures
        viewed(r) == initialize_outcome(
            owner,
            name@,
            description@,
            goal_amount as nat,
            duration as int,
            now as int,
        ),
        r matches Ok(project) ==> project@.well_formed(),
{
    if goal_amount == 0 {
        return Err(LaunchpadError::InvalidGoalAmount);
    }
    if duration <= 0 {
        return Err(LaunchpadError::InvalidDuration);
    }
    if bytes_taken(&name) > MAX_NAME_LEN {
        return Err(LaunchpadError::NameTooLong);
    }
    if bytes_taken(&description) > MAX_DESCRIPTION_LEN {
        return Err(LaunchpadError::DescriptionTooLong);
    }
    let end_time: i64 = match now.checked_add(duration) {
        Some(deadline) => deadline,
        None => {
            return Err(LaunchpadError::Overflow);
        },
    };
    Ok(
        Project {
            owner,
            name,
            description,
            goal_amount,
            current_amount: 0,
            start_time: now,
            end_time,
            is_active: true,
            goal_reached: false,
        },
    )
}

/// Registers a project at the time that the runtime's clock shows. The clock
/// is read before anything is checked.
pub fn initialize_project(
    owner: Pubkey,
    name: String,
    description: String,
    goal_amount: u64,
    duration: i64,
) -> (r: Result<Project, LaunchpadError>)
    ensures
        ({
            ||| viewed(r) == Err::<ProjectView, LaunchpadError>(LaunchpadError::ClockUnavailable)
            ||| exists|now: i64|
                viewed(r) == initialize_outcome(
                    owner,
                    name@,
                    description@,
                    goal_amount as nat,
                    duration as int,
                    now as int,
                )
        }),
        r matches Ok(project) ==> project@.well_formed(),
{
    match unix_timestamp() {
        Ok(now) => initialize_project_at(owner, name, description, goal_amount, duration, now),
        Err(_) => Err(LaunchpadError::ClockUnavailable),
    }
}

/// Takes a pledge of `amount` units from `contributor` at time `now`.
///
/// An accepted pledge moves from the contributor's balance to the vault, is
/// added to the project, sets the goal flag once the pledges reach the goal,
/// and comes back as a record. The move is the last step that can fail, so a
/// rejected pledge changes nothing.
pub fn contribute_at(
    project: &mut Project,
    contributor: Pubkey,
    amount: u64,
    contributor_balance: &mut u64,
    vault: &mut u64,
    now: i64,
) -> (r: Result<Contribution, LaunchpadError>)
    ensures
        (Contributed {
            project: final(project)@,
            contributor_balance: *final(contributor_balance) as nat,
            vault: *final(vault) as nat,
            result: viewed(r),
        }) == contribute_outcome(
            old(project)@,
            contributor,
            amount as nat,
            *old(contributor_balance) as nat,
            *old(vault) as nat,
            now as int,
        ),
        old(project)@.well_formed() ==> final(project)@.well_formed(),
        old(project).goal_reached ==> final(project).goal_reached,
        r matches Ok(contribution) ==> contribution@.well_formed(),
        *final(contributor_balance) + *final(vault) == *old(contributor_balance) + *old(vault),
{
    if !project.is_active {
        return Err(LaunchpadError::ProjectNotActive);
    }
    if now >= project.end_time {
        return Err(LaunchpadError::ProjectEnded);
    }
    if amount == 0 {
        return Err(LaunchpadError::InvalidContributionAmount);
    }
    let raised: u64 = match project.current_amount.checked_add(amount) {
        Some(sum) => sum,
        None => {
            return Err(LaunchpadError::Overflow);
        },
    };
    transfer(contributor_balance, vault, amount)?;
    project.current_amount = raised;
    if raised >= project.goal_amount {
        project.goal_reached = true;
    }
    Ok(Contribution { contributor, amount, withdrawn: false })
}

/// Takes a pledge of `amount` units from `contributor` at the time that the
/// runtime's clock shows. Without a clock reading nothing changes.
pub fn contribute(
    project: &mut Project,
    contributor: Pubkey,
    amount: u64,
    contributor_balance: &mut u64,
    vault: &mut u64,
) -> (r: Result<Contribution, LaunchpadError>)
    ensures
        ({
            let after = Contributed {
                project: final(project)@,
                contributor_balance: *final(contributor_balance) as nat,
                vault: *final(vault) as nat,
                result: viewed(r),
            };
            ||| after == Contributed {
                project: old(project)@,
                contributor_balance: *old(contributor_balance) as nat,
                vault: *old(vault) as nat,
                result: Err(LaunchpadError::ClockUnavailable),
            }
            ||| exists|now: i64|
                after == contribute_outcome(
                    old(project)@,
                    contributor,
                    amount as nat,
                    *old(contributor_balance) as nat,
                    *old(vault) as nat,
                    now as int,
                )
        }),
        old(project)@.well_formed() ==> final(project)@.well_formed(),
        old(project).goal_reached ==> final(project).goal_reached,
        r matches Ok(contribution) ==> contribution@.well_formed(),
        *final(contributor_balance) + *final(vault) == *old(contributor_balance) + *old(vault),
{
    match unix_timestamp() {
        Ok(now) => contribute_at(project, contributor, amount, contributor_balance, vault, now),
        Err(_) => Err(LaunchpadError::ClockUnavailable),
    }
}

/// Hands the funds of a project to its owner at time `now`.
///
/// Only the owner may ask, only for a project that reached its goal, only
/// from the deadline on, and only once: all that the vault holds then moves
/// to the owner's balance, and the project is closed. A later call finds the
/// project closed and fails. A rejected call changes nothing.
pub fn withdraw_funds_at(
    project: &mut Project,
    caller: Pubkey,
    vault: &mut u64,
    owner_balance: &mut u64,
    now: i64,
) -> (r: Result<(), LaunchpadError>)
    ensures
        (Withdrawn {
            project: final(project)@,
            vault: *final(vault) as nat,
            owner_balance: *final(owner_balance) as nat,
            result: r,
        }) == withdraw_outcome(
            old(project)@,
            caller,
            *old(vault) as nat,
            *old(owner_balance) as nat,
            now as int,
        ),
        old(project)@.well_formed() ==> final(project)@.well_formed(),
        *final(vault) + *final(owner_balance) == *old(vault) + *old(owner_balance),
{
    if !(project.owner == caller) {
        return Err(LaunchpadError::Unauthorized);
    }
    if !project.goal_reached {
        return Err(LaunchpadError::GoalNotReached);
    }
    if now < project.end_time {
        return Err(LaunchpadError::ProjectNotEnded);
    }
    if !project.is_active {
        return Err(LaunchpadError::ProjectNotActive);
    }
    let vault_balance: u64 = *vault;
    transfer(vault, owner_balance, vault_balance)?;
    project.is_active = false;
    Ok(())
}

/// Hands the funds of a project to its owner at the time that the runtime's
/// clock shows. Without a clock reading nothing changes.
pub fn withdraw_funds(
    project: &mut Project,
    caller: Pubkey,
    vault: &mut u64,
    owner_balance: &mut u64,
) -> (r: Result<(), LaunchpadError>)
    ensures
        ({
            let after = Withdrawn {
                project: final(project)@,
                vault: *final(vault) as nat,
                owner_balance: *final(owner_balance) as nat,
                result: r,
            };
            ||| after == Withdrawn {
                project: old(project)@,
                vault: *old(vault) as nat,
                owner_balance: *old(owner_balance) as nat,
                result: Err(LaunchpadError::ClockUnavailable),
            }
            ||| exists|now: i64|
                after == withdraw_outcome(
                    old(project)@,
                    caller,
                    *old(vault) as nat,
                    *old(owner_balance) as nat,
                    now as int,
                )
        }),
        old(project)@.well_formed() ==> final(project)@.well_formed(),
        *final(vault) + *final(owner_balance) == *old(vault) + *old(owner_balance),
{
    match unix_timestamp() {
        Ok(now) => withdraw_funds_at(project, caller, vault, owner_balance, now),
        Err(_) => Err(LaunchpadError::ClockUnavailable),
    }
}

/// Gives a contribution back at time `now`.
///
/// Only a project that missed its goal refunds, only from the deadline on,
/// and each contribution only once. The amount of the contribution then moves
/// from the vault to the contributor's balance, and the contribution is
/// marked. The project is not touched. A rejected call changes nothing.
pub fn claim_refund_at(
    project: &Project,
    contribution: &mut Contribution,
    vault: &mut u64,
    contributor_balance: &mut u64,
    now: i64,
) -> (r: Result<(), LaunchpadError>)
    ensures
        (Refunded {
            contribution: final(contribution)@,
            vault: *final(vault) as nat,
            contributor_balance: *final(contributor_balance) as nat,
            result: r,
        }) == refund_outcome(
            project@,
            old(contribution)@,
            *old(vault) as nat,
            *old(contributor_balance) as nat,
            now as int,
        ),
        r is Ok ==> *final(contributor_balance) == *old(contributor_balance) + old(
            contribution,
        ).amount,
        *final(vault) + *final(contributor_balance) == *old(vault) + *old(contributor_balance),
{
    if project.goal_reached {
        return Err(LaunchpadError::GoalReached);
    }
    if now < project.end_time {
        return Err(LaunchpadError::ProjectNotEnded);
    }
    if contribution.withdrawn {
        return Err(LaunchpadError::AlreadyWithdrawn);
    }
    transfer(vault, contributor_balance, contribution.amount)?;
    contribution.withdrawn = true;
    Ok(())
}

/// Gives a contribution back at the time that the runtime's clock shows.
/// Without a clock reading nothing changes.
pub fn claim_refund(
    project: &Project,
    contribution: &mut Contribution,
    vault: &mut u64,
    contributor_balance: &mut u64,
) -> (r: Result<(), LaunchpadError>)
    ensures
        ({
            let after = Refunded {
                contribution: final(contribution)@,
                vault: *final(vault) as nat,
                contributor_balance: *final(contributor_balance) as nat,
                result: r,
            };
            ||| after == Refunded {
                contribution: old(contribution)@,
                vault: *old(vault) as nat,
                contributor_balance: *old(contributor_balance) as nat,
                result: Err(LaunchpadError::ClockUnavailable),
            }
            ||| exists|now: i64|
                after == refund_outcome(
                    project@,
                    old(contribution)@,
                    *old(vault) as nat,
                    *old(contributor_balance) as nat,
                    now as int,
                )
        }),
        r is Ok ==> *final(contributor_balance) == *old(contributor_balance) + old(
            contribution,
        ).amount,
        *final(vault) + *final(contributor_balance) == *old(vault) + *old(contributor_balance),
{
    match unix_timestamp() {
        Ok(now) => claim_refund_at(project, contribution, vault, contributor_balance, now),
        Err(_) => Err(LaunchpadError::ClockUnavailable),
    }
}

/// The seconds left at time `now` until the deadline of the project: none
/// from the deadline on.
pub fn get_remaining_time_at(project: &Project, now: i64) -> (r: Result<i64, LaunchpadError>)
    ensures
        in_seconds(r) == remaining_time_outcome(project@, now as int),
        r matches Ok(seconds) ==> seconds >= 0,
{
    if now >= project.end_time {
        return Ok(0);
    }
    match project.end_time.checked_sub(now) {
        Some(seconds) => Ok(seconds),
        None => Err(LaunchpadError::Overflow),
    }
}

/// The seconds left until the deadline of the project at the time that the
/// runtime's clock shows.
pub fn get_remaining_time(project: &Project) -> (r: Result<i64, LaunchpadError>)
    ensures
        ({
            ||| r == Err::<i64, LaunchpadError>(LaunchpadError::ClockUnavailable)
            ||| exists|now: i64| in_seconds(r) == remaining_time_outcome(project@, now as int)
        }),
        r matches Ok(seconds) ==> seconds >= 0,
{
    match unix_timestamp() {
        Ok(now) => get_remaining_time_at(project, now),
        Err(_) => Err(LaunchpadError::ClockUnavailable),
    }
}

} // verus!
