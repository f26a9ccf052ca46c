use anchor_lang::prelude::Pubkey;
use vstd::prelude::*;
use vstd::utf8::encode_utf8;

verus! {

/// The most bytes a project's name may take.
pub const MAX_NAME_LEN: usize = 32;

/// The most bytes a project's description may take.
pub const MAX_DESCRIPTION_LEN: usize = 200;

/// A project that asks for funding: who runs it, what it asks for, by when,
/// and how much has been pledged so far.
#[derive(Debug, PartialEq, Eq)]
pub struct Project {
    /// Who registered the project, and who alone may withdraw its funds.
    pub owner: Pubkey,
    pub name: String,
    pub description: String,
    /// The amount that has to be pledged for the project to succeed.
    pub goal_amount: u64,
    /// The sum of everything pledged so far. Refunds do not lower it.
    pub current_amount: u64,
    /// When the project was registered, in seconds.
    pub start_time: i64,
    /// The deadline, in seconds: pledges are taken strictly before it, funds
    /// are released from it on.
    pub end_time: i64,
    /// Set from registration until the owner has withdrawn the funds. Once
    /// cleared it stays cleared, and nothing more is pledged or withdrawn.
    pub is_active: bool,
    /// Set once the pledges have reached the goal, and never cleared.
    pub goal_reached: bool,
}

/// A project as the rules see it: amounts are natural numbers, times are
/// integers, texts are sequences of characters.
pub struct ProjectView {
    pub owner: Pubkey,
    pub name: Seq<char>,
    pub description: Seq<char>,
    pub goal_amount: nat,
    pub current_amount: nat,
    pub start_time: int,
    pub end_time: int,
    pub is_active: bool,
    pub goal_reached: bool,
}

/// The number of bytes that a text takes when it is stored, which is what its
/// length limit counts.
pub open spec fn stored_len(text: Seq<char>) -> nat {
    encode_utf8(text).len()
}

impl View for Project {
    type V = ProjectView;

    open spec fn view(&self) -> ProjectView {
        ProjectView {
            owner: self.owner,
            name: self.name@,
            description: self.description@,
            goal_amount: self.goal_amount as nat,
            current_amount: self.current_amount as nat,
            start_time: self.start_time as int,
            end_time: self.end_time as int,
            is_active: self.is_active,
            goal_reached: self.goal_reached,
        }
    }
}

impl Clone for Project {
    fn clone(&self) -> (copy: Project)
        ensures
            copy == *self,
    {
        Project {
            owner: self.owner,
            name: self.name.clone(),
            description: self.description.clone(),
            goal_amount: self.goal_amount,
            current_amount: self.current_amount,
            start_time: self.start_time,
            end_time: self.end_time,
            is_active: self.is_active,
            goal_reached: self.goal_reached,
        }
    }
}

impl ProjectView {
    /// What holds of every project that was registered by the launchpad and
    /// changed by its operations only: the limits checked at registration,
    /// a deadline after the start and no more than 64 bits of seconds after
    /// it, a goal flag that says whether the pledges have reached the goal,
    /// and funds withdrawn only from a project that reached it.
    pub open spec fn well_formed(self) -> bool {
        &&& self.goal_amount > 0
        &&& stored_len(self.name) <= MAX_NAME_LEN
        &&& stored_len(self.description) <= MAX_DESCRIPTION_LEN
        &&& self.start_time < self.end_time <= self.start_time + i64::MAX
        &&& self.goal_reached <==> self.current_amount >= self.goal_amount
        &&& !self.is_active ==> self.goal_reached
    }
}

} // verus!
