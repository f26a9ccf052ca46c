//! A crowdfunding launchpad: the rules of an escrow between the owner of a
//! project and those who pledge to it.
//!
//! An owner registers a project with a goal and a deadline. Until the
//! deadline contributors pledge, and the pledges are held in a vault. From
//! the deadline on the outcome is fixed: if the pledges reached the goal the
//! owner withdraws what the vault holds, once, which closes the project; if
//! not each contribution is refunded, once.
//!
//! * [`project`] and [`contribution`] hold the two records and their views.
//! * [`rules`] states, over the views, what every operation does.
//! * [`operations`] holds the operations themselves, each in two forms: one
//!   that is told the time, and one that reads the clock of the runtime.
//! * [`escrow`] moves amounts between balances.
//! * [`campaign`] puts a project, its contributions and its vault together,
//!   and [`laws`] proves what holds of every run of operations on them.
//! * [`chain`] names what the library takes from the runtime.

pub mod campaign;
pub mod chain;
pub mod contribution;
pub mod error;
pub mod escrow;
pub mod laws;
pub mod operations;
pub mod project;
pub mod rules;

pub use contribution::Contribution;
pub use error::LaunchpadError;
pub use escrow::transfer;
pub use operations::{
    claim_refund, claim_refund_at, contribute, contribute_at, get_remaining_time,
    get_remaining_time_at, initialize_project, initialize_project_at, withdraw_funds,
    withdraw_funds_at,
};
pub use project::{Project, MAX_DESCRIPTION_LEN, MAX_NAME_LEN};
