use crate::campaign::{any_refunded, in_order, offered, owed, pledged, time_of, Call, Campaign};
use crate::contribution::ContributionView;
use crate::error::LaunchpadError;
use crate::project::{stored_len, ProjectView, MAX_DESCRIPTION_LEN, MAX_NAME_LEN};
use crate::rules::{
    contribute_outcome, initialize_outcome, may_refund, may_withdraw, refund_outcome,
    remaining_time_outcome, withdraw_outcome,
};
use anchor_lang::prelude::Pubkey;
use vstd::prelude::*;

verus! {

/// Registration succeeds on every valid input whose duration and deadline fit
/// 64 bits: the new project has nothing pledged, is active, has not reached
/// its goal, and ends `duration` seconds after it started.
pub proof fn valid_registration_succeeds(
    owner: Pubkey,
    name: Seq<char>,
    description: Seq<char>,
    goal_amount: nat,
    duration: int,
    now: int,
)
    requires
        goal_amount > 0,
        duration > 0,
        stored_len(name) <= MAX_NAME_LEN,
        stored_len(description) <= MAX_DESCRIPTION_LEN,
        duration <= i64::MAX,
        now + duration <= i64::MAX,
    ensures
        initialize_outcome(owner, name, description, goal_amount, duration, now) matches Ok(project)
            && project.owner == owner && project.name == name && project.description
            == description && project.goal_amount == goal_amount && project.current_amount == 0
            && project.is_active && !project.goal_reached && project.start_time == now
            && project.end_time == project.start_time + duration && project.well_formed(),
{
}

/// Registration fails on every invalid input, with the error of the first
/// rule that the input breaks: goal, duration, name, description.
pub proof fn invalid_registration_fails(
    owner: Pubkey,
    name: Seq<char>,
    description: Seq<char>,
    goal_amount: nat,
    duration: int,
    now: int,
)
    requires
        goal_amount == 0 || duration <= 0 || stored_len(name) > MAX_NAME_LEN || stored_len(
            description,
        ) > MAX_DESCRIPTION_LEN,
    ensures
        initialize_outcome(owner, name, description, goal_amount, duration, now) is Err,
        goal_amount == 0 ==> initialize_outcome(
            owner,
            name,
            description,
            goal_amount,
            duration,
            now,
        ) == Err::<ProjectView, LaunchpadError>(LaunchpadError::InvalidGoalAmount),
        goal_amount > 0 && duration <= 0 ==> initialize_outcome(
            owner,
            name,
            description,
            goal_amount,
            duration,
            now,
        ) == Err::<ProjectView, LaunchpadError>(LaunchpadError::InvalidDuration),
        goal_amount > 0 && duration > 0 && stored_len(name) > MAX_NAME_LEN ==> initialize_outcome(
            owner,
            name,
            description,
            goal_amount,
            duration,
            now,
        ) == Err::<ProjectView, LaunchpadError>(LaunchpadError::NameTooLong),
        goal_amount > 0 && duration > 0 && stored_len(name) <= MAX_NAME_LEN && stored_len(
            description,
        ) > MAX_DESCRIPTION_LEN ==> initialize_outcome(
            owner,
            name,
            description,
            goal_amount,
            duration,
            now,
        ) == Err::<ProjectView, LaunchpadError>(LaunchpadError::DescriptionTooLong),
{
}

/// A campaign is sound from the registration of its project on, whatever the
/// vault holds by then. The duration and the balance are taken to fit 64 bits.
pub proof fn registered_campaign_is_sound(
    owner: Pubkey,
    name: Seq<char>,
    description: Seq<char>,
    goal_amount: nat,
    duration: int,
    now: int,
    vault: nat,
)
    requires
        initialize_outcome(owner, name, description, goal_amount, duration, now) is Ok,
        duration <= i64::MAX,
        vault <= u64::MAX,
    ensures
        Campaign::fresh(
            initialize_outcome(owner, name, description, goal_amount, duration, now)->Ok_0,
            vault,
        ).sound(),
{
}

/// Adding a contribution adds its amount to what is pledged and what it is due
/// to what is owed.
proof fn sums_after_push(contributions: Seq<ContributionView>, added: ContributionView)
    ensures
        pledged(contributions.push(added)) == pledged(contributions) + added.amount,
        owed(contributions.push(added)) == owed(contributions) + added.due(),
{
    assert(contributions.push(added).drop_last() =~= contributions);
}

/// Replacing a contribution replaces its part of what is pledged and of what
/// is owed.
proof fn sums_after_update(
    contributions: Seq<ContributionView>,
    index: int,
    replacement: ContributionView,
)
    requires
        0 <= index < contributions.len(),
    ensures
        pledged(contributions.update(index, replacement)) + contributions[index].amount == pledged(
            contributions,
        ) + replacement.amount,
        owed(contributions.update(index, replacement)) + contributions[index].due() == owed(
            contributions,
        ) + replacement.due(),
        owed(contributions) >= contributions[index].due(),
    decreases contributions.len(),
{
    let updated = contributions.update(index, replacement);
    if index == contributions.len() - 1 {
        assert(updated.drop_last() =~= contributions.drop_last());
    } else {
        assert(updated.drop_last() =~= contributions.drop_last().update(index, replacement));
        sums_after_update(contributions.drop_last(), index, replacement);
    }
}

/// One call keeps a sound campaign sound.
proof fn call_keeps_sound(campaign: Campaign, call: Call)
    requires
        campaign.sound(),
    ensures
        campaign.after(call).sound(),
{
    match call {
        Call::Contribute { contributor, amount, .. } => {
            sums_after_push(
                campaign.contributions,
                ContributionView { contributor, amount, withdrawn: false },
            );
        },
        Call::Refund { index, .. } => {
            if campaign.accepts(call) {
                sums_after_update(
                    campaign.contributions,
                    index,
                    ContributionView { withdrawn: true, ..campaign.contributions[index] },
                );
            }
        },
        _ => {},
    }
}

/// Every run of calls keeps a sound campaign sound. So the project has always
/// raised the exact sum of the contributions made to it, and until the owner
/// withdraws the vault holds at least what has been pledged and not refunded.
pub proof fn calls_keep_a_campaign_sound(campaign: Campaign, calls: Seq<Call>)
    requires
        campaign.sound(),
    ensures
        campaign.after_all(calls).sound(),
        campaign.after_all(calls).project.current_amount == pledged(
            campaign.after_all(calls).contributions,
        ),
        campaign.after_all(calls).project.is_active ==> campaign.after_all(calls).vault >= owed(
            campaign.after_all(calls).contributions,
        ),
    decreases calls.len(),
{
    if calls.len() > 0 {
        calls_keep_a_campaign_sound(campaign, calls.drop_last());
        call_keeps_sound(campaign.after_all(calls.drop_last()), calls.last());
    }
}

/// The goal flag is a latch: once it is set, or once the pledges of a
/// well-formed project have reached the goal, no run of calls clears it.
pub proof fn goal_flag_is_a_latch(campaign: Campaign, calls: Seq<Call>)
    requires
        campaign.project.goal_reached || (campaign.project.well_formed()
            && campaign.project.current_amount >= campaign.project.goal_amount),
    ensures
        campaign.after_all(calls).project.goal_reached,
    decreases calls.len(),
{
    if calls.len() > 0 {
        goal_flag_is_a_latch(campaign, calls.drop_last());
    }
}

/// No run of calls lowers what has been pledged, and none changes the owner,
/// the goal, the texts, the start or the deadline. Contributions are added at
/// the end and never dropped.
pub proof fn only_pledges_and_flags_change(campaign: Campaign, calls: Seq<Call>)
    ensures
        campaign.after_all(calls).project.current_amount >= campaign.project.current_amount,
        campaign.after_all(calls).project.owner == campaign.project.owner,
        campaign.after_all(calls).project.goal_amount == campaign.project.goal_amount,
        campaign.after_all(calls).project.name == campaign.project.name,
        campaign.after_all(calls).project.description == campaign.project.description,
        campaign.after_all(calls).project.start_time == campaign.project.start_time,
        campaign.after_all(calls).project.end_time == campaign.project.end_time,
        campaign.after_all(calls).contributions.len() >= campaign.contributions.len(),
    decreases calls.len(),
{
    if calls.len() > 0 {
        only_pledges_and_flags_change(campaign, calls.drop_last());
    }
}

/// Conservation: after a run of calls that all succeed the project has raised
/// what it had raised before and the exact sum of the amounts that the
/// contributions of the run offered.
pub proof fn accepted_pledges_add_up(campaign: Campaign, calls: Seq<Call>)
    requires
        campaign.accepts_all(calls),
    ensures
        campaign.after_all(calls).project.current_amount == campaign.project.current_amount
            + offered(calls),
    decreases calls.len(),
{
    if calls.len() > 0 {
        accepted_pledges_add_up(campaign, calls.drop_last());
    }
}

/// An accepted contribution is recorded with the amount that was offered, not
/// yet refunded, adds that amount to the project and moves it from the
/// contributor to the vault.
pub proof fn accepted_pledge_is_recorded(
    project: ProjectView,
    contributor: Pubkey,
    amount: nat,
    contributor_balance: nat,
    vault: nat,
    now: int,
)
    requires
        contribute_outcome(project, contributor, amount, contributor_balance, vault, now).result
            is Ok,
    ensures
        ({
            let done = contribute_outcome(
                project,
                contributor,
                amount,
                contributor_balance,
                vault,
                now,
            );
            &&& done.result == Ok::<ContributionView, LaunchpadError>(
                ContributionView { contributor, amount, withdrawn: false },
            )
            &&& amount > 0
            &&& done.project.current_amount == project.current_amount + amount
            &&& done.vault == vault + amount
            &&& done.contributor_balance + amount == contributor_balance
        }),
{
}

/// What is recorded of a pledge stays: no run of calls changes the contributor
/// or the amount of a contribution, and none takes back a refund.
pub proof fn recorded_pledges_stay(campaign: Campaign, calls: Seq<Call>, index: int)
    requires
        0 <= index < campaign.contributions.len(),
    ensures
        index < campaign.after_all(calls).contributions.len(),
        campaign.after_all(calls).contributions[index].contributor
            == campaign.contributions[index].contributor,
        campaign.after_all(calls).contributions[index].amount
            == campaign.contributions[index].amount,
        campaign.contributions[index].withdrawn ==> campaign.after_all(
            calls,
        ).contributions[index].withdrawn,
    decreases calls.len(),
{
    if calls.len() > 0 {
        recorded_pledges_stay(campaign, calls.drop_last(), index);
    }
}

/// A closed project stays as it is, whatever is called.
pub proof fn closed_project_is_final(campaign: Campaign, calls: Seq<Call>)
    requires
        !campaign.project.is_active,
    ensures
        campaign.after_all(calls).project == campaign.project,
    decreases calls.len(),
{
    if calls.len() > 0 {
        closed_project_is_final(campaign, calls.drop_last());
    }
}

/// A project that missed its goal stays as it is from its deadline on,
/// whatever is called.
pub proof fn expired_project_is_final(campaign: Campaign, calls: Seq<Call>)
    requires
        !campaign.project.goal_reached,
        forall|i: int|
            0 <= i < calls.len() ==> time_of(#[trigger] calls[i]) >= campaign.project.end_time,
    ensures
        campaign.after_all(calls).project == campaign.project,
    decreases calls.len(),
{
    if calls.len() > 0 {
        expired_project_is_final(campaign, calls.drop_last());
    }
}

/// The time left is known of every well-formed project from its start on:
/// it is never negative, never more than the project's duration, and nothing
/// overflows.
pub proof fn remaining_time_is_known(project: ProjectView, now: int)
    requires
        project.well_formed(),
        now >= project.start_time,
    ensures
        remaining_time_outcome(project, now) matches Ok(seconds) && 0 <= seconds
            <= project.end_time - project.start_time && (seconds == 0 <==> now
            >= project.end_time),
{
}

/// The two ways out exclude each other: funds are withdrawn only from a
/// project that reached its goal, a contribution is refunded only by one that
/// did not, so no state of a project allows both.
pub proof fn withdrawal_and_refund_exclude_each_other(
    project: ProjectView,
    caller: Pubkey,
    vault: nat,
    owner_balance: nat,
    withdrawal_time: int,
    contribution: ContributionView,
    refund_vault: nat,
    contributor_balance: nat,
    refund_time: int,
)
    ensures
        withdraw_outcome(project, caller, vault, owner_balance, withdrawal_time).result is Ok
            ==> project.goal_reached,
        refund_outcome(project, contribution, refund_vault, contributor_balance, refund_time).result
            is Ok ==> !project.goal_reached,
        !(withdraw_outcome(project, caller, vault, owner_balance, withdrawal_time).result is Ok
            && refund_outcome(
            project,
            contribution,
            refund_vault,
            contributor_balance,
            refund_time,
        ).result is Ok),
{
}

/// From the deadline on the goal flag alone says which way out there is: the
/// owner may withdraw if the goal was reached and the funds have not been
/// withdrawn yet, and a contribution that has not been refunded may be
/// refunded if the goal was missed. So exactly one way is open on an active
/// project, and none on a closed one that is well-formed.
pub proof fn one_way_out_after_the_deadline(
    project: ProjectView,
    contribution: ContributionView,
    now: int,
)
    requires
        now >= project.end_time,
        !contribution.withdrawn,
    ensures
        may_withdraw(project, project.owner, now) is Ok <==> project.goal_reached
            && project.is_active,
        may_refund(project, contribution, now) is Ok <==> !project.goal_reached,
        project.is_active ==> may_withdraw(project, project.owner, now) is Ok != may_refund(
            project,
            contribution,
            now,
        ) is Ok,
        project.well_formed() && !project.is_active ==> may_withdraw(
            project,
            project.owner,
            now,
        ) is Err && may_refund(project, contribution, now) is Err,
{
}

/// A contribution is refunded exactly once: the first refund pays the
/// contributor the amount of the contribution out of the vault, and every
/// later call for the same contribution fails, changes nothing and, made no
/// earlier than the first, fails because the contribution has been refunded.
pub proof fn refund_happens_once(
    project: ProjectView,
    contribution: ContributionView,
    vault: nat,
    contributor_balance: nat,
    now: int,
    later_vault: nat,
    later_balance: nat,
    later: int,
)
    requires
        refund_outcome(project, contribution, vault, contributor_balance, now).result is Ok,
    ensures
        ({
            let first = refund_outcome(project, contribution, vault, contributor_balance, now);
            let second = refund_outcome(
                project,
                first.contribution,
                later_vault,
                later_balance,
                later,
            );
            &&& first.contributor_balance == contributor_balance + contribution.amount
            &&& first.vault + contribution.amount == vault
            &&& first.contribution == ContributionView { withdrawn: true, ..contribution }
            &&& second.result is Err
            &&& second.contribution == first.contribution
            &&& second.vault == later_vault
            &&& second.contributor_balance == later_balance
            &&& later >= now ==> second.result == Err::<(), LaunchpadError>(
                LaunchpadError::AlreadyWithdrawn,
            )
        }),
{
}

/// What is pledged is what comes back: the refund of a contribution pays the
/// amount that moved to the vault when the contribution was made.
pub proof fn refund_pays_the_pledge(
    pledged_to: ProjectView,
    contributor: Pubkey,
    amount: nat,
    balance_then: nat,
    vault_then: nat,
    pledged_at: int,
    project: ProjectView,
    vault: nat,
    contributor_balance: nat,
    now: int,
)
    requires
        contribute_outcome(
            pledged_to,
            contributor,
            amount,
            balance_then,
            vault_then,
            pledged_at,
        ).result is Ok,
        refund_outcome(
            project,
            contribute_outcome(
                pledged_to,
                contributor,
                amount,
                balance_then,
                vault_then,
                pledged_at,
            ).result->Ok_0,
            vault,
            contributor_balance,
            now,
        ).result is Ok,
    ensures
        ({
            let made = contribute_outcome(
                pledged_to,
                contributor,
                amount,
                balance_then,
                vault_then,
                pledged_at,
            );
            let paid = refund_outcome(project, made.result->Ok_0, vault, contributor_balance, now);
            &&& made.vault == vault_then + amount
            &&& made.contributor_balance + amount == balance_then
            &&& paid.contributor_balance == contributor_balance + amount
            &&& paid.vault + amount == vault
        }),
{
}

/// The vault of a sound campaign covers every refund: once a project has
/// missed its goal, the refund of a contribution that has not been refunded
/// succeeds from the deadline on, unless the receiver's balance would no
/// longer fit 64 bits.
pub proof fn refund_is_covered(campaign: Campaign, index: int, balance: nat, now: int)
    requires
        campaign.sound(),
        0 <= index < campaign.contributions.len(),
        !campaign.contributions[index].withdrawn,
        !campaign.project.goal_reached,
        now >= campaign.project.end_time,
        balance + campaign.contributions[index].amount <= u64::MAX,
    ensures
        campaign.accepts(Call::Refund { index, balance, now }),
{
    sums_after_update(campaign.contributions, index, campaign.contributions[index]);
}

/// Where nothing has been refunded, all that has been pledged is owed.
proof fn all_is_owed(contributions: Seq<ContributionView>)
    requires
        !any_refunded(contributions),
    ensures
        owed(contributions) == pledged(contributions),
    decreases contributions.len(),
{
    if contributions.len() > 0 {
        all_is_owed(contributions.drop_last());
    }
}

/// Until the first refund a sound campaign has raised exactly the sum of the
/// contributions that have not been refunded, and while the project is active
/// the vault holds no less.
pub proof fn raised_is_owed_until_a_refund(campaign: Campaign)
    requires
        campaign.sound(),
        !any_refunded(campaign.contributions),
    ensures
        campaign.project.current_amount == owed(campaign.contributions),
        campaign.project.is_active ==> campaign.vault >= campaign.project.current_amount,
{
    all_is_owed(campaign.contributions);
}

/// The withdrawal from a sound campaign without refunds empties the vault
/// into the owner's balance, and pays no less than what the project has
/// raised, which is no less than its goal.
pub proof fn withdrawal_pays_what_was_raised(
    campaign: Campaign,
    caller: Pubkey,
    owner_balance: nat,
    now: int,
)
    requires
        campaign.sound(),
        !any_refunded(campaign.contributions),
        campaign.accepts(Call::Withdraw { caller, owner_balance, now }),
    ensures
        ({
            let done = withdraw_outcome(
                campaign.project,
                caller,
                campaign.vault,
                owner_balance,
                now,
            );
            &&& caller == campaign.project.owner
            &&& done.vault == 0
            &&& done.owner_balance == owner_balance + campaign.vault
            &&& campaign.vault >= campaign.project.current_amount
            &&& campaign.project.current_amount >= campaign.project.goal_amount
            &&& !done.project.is_active
        }),
{
    raised_is_owed_until_a_refund(campaign);
}

/// A withdrawal happens once: it leaves the vault empty and the project
/// closed, and every later call fails and moves nothing, whoever makes it,
/// whenever, and whatever the vault and the owner hold by then. Made by the
/// same caller and no earlier than the first, it fails because the project is
/// no longer active.
pub proof fn withdrawal_has_effect_once(
    project: ProjectView,
    caller: Pubkey,
    vault: nat,
    owner_balance: nat,
    now: int,
    later_caller: Pubkey,
    later_vault: nat,
    later_balance: nat,
    later: int,
)
    requires
        withdraw_outcome(project, caller, vault, owner_balance, now).result is Ok,
    ensures
        ({
            let first = withdraw_outcome(project, caller, vault, owner_balance, now);
            let second = withdraw_outcome(
                first.project,
                later_caller,
                later_vault,
                later_balance,
                later,
            );
            &&& first.vault == 0
            &&& first.owner_balance == owner_balance + vault
            &&& !first.project.is_active
            &&& second.result is Err
            &&& second.project == first.project
            &&& second.vault == later_vault
            &&& second.owner_balance == later_balance
            &&& later_caller == caller && later >= now ==> second.result == Err::<
                (),
                LaunchpadError,
            >(LaunchpadError::ProjectNotActive)
        }),
{
}

/// A closed project pays out no more: where the project of a campaign is
/// well-formed and closed, no run of calls takes anything out of the vault,
/// and none changes the project or a contribution.
pub proof fn closed_campaign_pays_no_more(campaign: Campaign, calls: Seq<Call>)
    requires
        campaign.project.well_formed(),
        !campaign.project.is_active,
    ensures
        campaign.after_all(calls).vault >= campaign.vault,
        campaign.after_all(calls).project == campaign.project,
        campaign.after_all(calls).contributions == campaign.contributions,
    decreases calls.len(),
{
    if calls.len() > 0 {
        closed_campaign_pays_no_more(campaign, calls.drop_last());
    }
}

/// Where the clock never runs backwards, a contribution is never refunded by a
/// project that reached its goal: if a run of calls on a campaign without
/// refunds leaves a refunded contribution, the project has missed its goal.
pub proof fn refunded_means_goal_missed(campaign: Campaign, calls: Seq<Call>)
    requires
        !any_refunded(campaign.contributions),
        in_order(calls),
    ensures
        any_refunded(campaign.after_all(calls).contributions) ==> !campaign.after_all(
            calls,
        ).project.goal_reached && calls.len() > 0 && time_of(calls.last())
            >= campaign.project.end_time,
    decreases calls.len(),
{
    if calls.len() > 0 {
        refunded_means_goal_missed(campaign, calls.drop_last());
        only_pledges_and_flags_change(campaign, calls.drop_last());
    }
}

} // verus!
