use anchor_lang::prelude::Pubkey;
use vstd::prelude::*;

verus! {

/// One pledge of one contributor to one project.
#[derive(Clone, Copy, Debug, PartialEq, Eq)]
pub struct Contribution {
    /// Who pledged.
    pub contributor: Pubkey,
    /// How much was pledged.
    pub amount: u64,
    /// Set once the pledge has been refunded.
    pub withdrawn: bool,
}

/// A contribution as the rules see it.
pub struct ContributionView {
    pub contributor: Pubkey,
    pub amount: nat,
    pub withdrawn: bool,
}

impl View for Contribution {
    type V = ContributionView;

    open spec fn view(&self) -> ContributionView {
        ContributionView {
            contributor: self.contributor,
            amount: self.amount as nat,
            withdrawn: self.withdrawn,
        }
    }
}

impl ContributionView {
    /// A pledge is never of nothing.
    pub open spec fn well_formed(self) -> bool {
        self.amount > 0
    }

    /// What the vault owes for the pledge: its amount until it is refunded,
    /// nothing afterwards.
    pub open spec fn due(self) -> nat {
        if self.withdrawn {
            0
        } else {
            self.amount
        }
    }
}

} // verus!
