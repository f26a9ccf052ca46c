use crate::contribution::ContributionView;
use crate::project::ProjectView;
use crate::rules::{contribute_outcome, refund_outcome, withdraw_outcome};
use anchor_lang::prelude::Pubkey;
use vstd::prelude::*;

verus! {

/// A project together with the contributions made to it, in the order in
/// which they were made, and the balance of the vault that holds them.
pub struct Campaign {
    pub project: ProjectView,
    pub contributions: Seq<ContributionView>,
    pub vault: nat,
}

/// One thing that can happen to a campaign. Balances of holders other than
/// the vault are those that the call finds.
pub enum Call {
    /// `contributor`, who holds `balance`, offers `amount`.
    Contribute { contributor: Pubkey, amount: nat, balance: nat, now: int },
    /// `caller` asks for the funds; the owner holds `owner_balance`.
    Withdraw { caller: Pubkey, owner_balance: nat, now: int },
    /// The refund of the contribution at `index` is asked for; its receiver
    /// holds `balance`.
    Refund { index: int, balance: nat, now: int },
    /// `amount` reaches the vault from outside the launchpad.
    Deposit { amount: nat, now: int },
}

/// The time at which a call is made.
pub open spec fn time_of(call: Call) -> int {
    match call {
        Call::Contribute { now, .. } => now,
        Call::Withdraw { now, .. } => now,
        Call::Refund { now, .. } => now,
        Call::Deposit { now, .. } => now,
    }
}

/// What a call offers to pledge: the amount of a contribution, nothing for
/// any other call.
pub open spec fn offer_of(call: Call) -> nat {
    match call {
        Call::Contribute { amount, .. } => amount,
        _ => 0,
    }
}

/// The sum of what the calls of a run offer to pledge.
pub open spec fn offered(calls: Seq<Call>) -> nat
    decreases calls.len(),
{
    if calls.len() == 0 {
        0
    } else {
        offered(calls.drop_last()) + offer_of(calls.last())
    }
}

/// Whether the calls of a run come in the order of their times: the clock
/// never runs backwards.
pub open spec fn in_order(calls: Seq<Call>) -> bool {
    forall|i: int, j: int|
        0 <= i <= j < calls.len() ==> time_of(#[trigger] calls[i]) <= time_of(#[trigger] calls[j])
}

/// The sum of the amounts of the contributions, refunded or not.
pub open spec fn pledged(contributions: Seq<ContributionView>) -> nat
    decreases contributions.len(),
{
    if contributions.len() == 0 {
        0
    } else {
        pledged(contributions.drop_last()) + contributions.last().amount
    }
}

/// The sum of the amounts of the contributions that have not been refunded.
pub open spec fn owed(contributions: Seq<ContributionView>) -> nat
    decreases contributions.len(),
{
    if contributions.len() == 0 {
        0
    } else {
        owed(contributions.drop_last()) + contributions.last().due()
    }
}

/// Whether one of the contributions has been refunded.
pub open spec fn any_refunded(contributions: Seq<ContributionView>) -> bool {
    exists|i: int| 0 <= i < contributions.len() && (#[trigger] contributions[i]).withdrawn
}

impl Campaign {
    /// A campaign whose project has just been registered.
    pub open spec fn fresh(project: ProjectView, vault: nat) -> Campaign {
        Campaign { project, contributions: Seq::empty(), vault }
    }

    /// Whether the call succeeds on the campaign.
    pub open spec fn accepts(self, call: Call) -> bool {
        match call {
            Call::Contribute { contributor, amount, balance, now } => contribute_outcome(
                self.project,
                contributor,
                amount,
                balance,
                self.vault,
                now,
            ).result is Ok,
            Call::Withdraw { caller, owner_balance, now } => withdraw_outcome(
                self.project,
                caller,
                self.vault,
                owner_balance,
                now,
            ).result is Ok,
            Call::Refund { index, balance, now } => 0 <= index < self.contributions.len()
                && refund_outcome(
                self.project,
                self.contributions[index],
                self.vault,
                balance,
                now,
            ).result is Ok,
            Call::Deposit { amount, .. } => self.vault + amount <= u64::MAX,
        }
    }

    /// The campaign after one call. A call that fails leaves it as it was.
    pub open spec fn after(self, call: Call) -> Campaign {
        match call {
            Call::Contribute { contributor, amount, balance, now } => {
                let done = contribute_outcome(
                    self.project,
                    contributor,
                    amount,
                    balance,
                    self.vault,
                    now,
                );
                match done.result {
                    Ok(contribution) => Campaign {
                        project: done.project,
                        contributions: self.contributions.push(contribution),
                        vault: done.vault,
                    },
                    Err(_) => self,
                }
            },
            Call::Withdraw { caller, owner_balance, now } => {
                let done = withdraw_outcome(self.project, caller, self.vault, owner_balance, now);
                Campaign { project: done.project, vault: done.vault, ..self }
            },
            Call::Refund { index, balance, now } => if self.accepts(call) {
                let done = refund_outcome(
                    self.project,
                    self.contributions[index],
                    self.vault,
                    balance,
                    now,
                );
                Campaign {
                    contributions: self.contributions.update(index, done.contribution),
                    vault: done.vault,
                    ..self
                }
            } else {
                self
            },
            Call::Deposit { amount, .. } => if self.accepts(call) {
                Campaign { vault: self.vault + amount, ..self }
            } else {
                self
            },
        }
    }

    /// The campaign after a run of calls, made one after the other.
    pub open spec fn after_all(self, calls: Seq<Call>) -> Campaign
        decreases calls.len(),
    {
        if calls.len() == 0 {
            self
        } else {
            self.after_all(calls.drop_last()).after(calls.last())
        }
    }

    /// Whether every call of the run succeeds on the campaign as the calls
    /// before it left it.
    pub open spec fn accepts_all(self, calls: Seq<Call>) -> bool
        decreases calls.len(),
    {
        calls.len() > 0 ==> self.accepts_all(calls.drop_last()) && self.after_all(
            calls.drop_last(),
        ).accepts(calls.last())
    }

    /// What holds of a campaign from the registration of its project on: the
    /// project and the contributions are well-formed, the project has raised
    /// what the contributions pledge, both balances fit 64 bits, and until
    /// the owner withdraws the vault covers every contribution that has not
    /// been refunded.
    pub open spec fn sound(self) -> bool {
        &&& self.project.well_formed()
        &&& forall|i: int|
            0 <= i < self.contributions.len() ==> (#[trigger] self.contributions[i]).well_formed()
        &&& self.project.current_amount == pledged(self.contributions)
        &&& self.project.current_amount <= u64::MAX
        &&& self.vault <= u64::MAX
        &&& self.project.is_active ==> self.vault >= owed(self.contributions)
    }
}

} // verus!
