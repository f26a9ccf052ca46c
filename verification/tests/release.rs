use anchor_lang::prelude::Pubkey;
use launchpad::{
    claim_refund_at, transfer, withdraw_funds_at, Contribution, LaunchpadError, Project,
};

fn key(seed: u8) -> Pubkey {
    Pubkey::new_from_array([seed; 32])
}

fn owner() -> Pubkey {
    key(1)
}

fn project(goal_amount: u64, current_amount: u64) -> Project {
    Project {
        owner: owner(),
        name: String::from("Press"),
        description: String::from("A press for the print shop"),
        goal_amount,
        current_amount,
        start_time: 1_000,
        end_time: 2_000,
        is_active: true,
        goal_reached: current_amount >= goal_amount,
    }
}

fn pledge(seed: u8, amount: u64) -> Contribution {
    Contribution { contributor: key(seed), amount, withdrawn: false }
}

#[test]
fn owner_withdraws_everything_once_the_goal_is_met() {
    let mut p = project(1_000, 1_100);
    let (mut vault, mut owner_balance) = (1_100u64, 25u64);
    assert_eq!(withdraw_funds_at(&mut p, owner(), &mut vault, &mut owner_balance, 2_000), Ok(()));
    assert_eq!((vault, owner_balance), (0, 1_125));
    assert_eq!(p, Project { is_active: false, ..project(1_000, 1_100) });
}

#[test]
fn withdrawal_sweeps_what_the_vault_holds_not_what_was_pledged() {
    let mut p = project(1_000, 1_100);
    let (mut vault, mut owner_balance) = (1_150u64, 0u64);
    assert_eq!(withdraw_funds_at(&mut p, owner(), &mut vault, &mut owner_balance, 3_000), Ok(()));
    assert_eq!((vault, owner_balance), (0, 1_150));
    assert_eq!(p.current_amount, 1_100);
}

#[test]
fn stranger_cannot_withdraw() {
    let mut p = project(1_000, 1_100);
    let before = p.clone();
    let (mut vault, mut balance) = (1_100u64, 0u64);
    assert_eq!(
        withdraw_funds_at(&mut p, key(2), &mut vault, &mut balance, 2_000),
        Err(LaunchpadError::Unauthorized)
    );
    assert_eq!(p, before);
    assert_eq!((vault, balance), (1_100, 0));
}

#[test]
fn addresses_are_told_apart_by_every_byte() {
    let mut bytes = [1u8; 32];
    bytes[31] = 2;
    let near_owner = Pubkey::new_from_array(bytes);
    let mut p = project(1_000, 1_100);
    let (mut vault, mut balance) = (1_100u64, 0u64);
    assert_eq!(
        withdraw_funds_at(&mut p, near_owner, &mut vault, &mut balance, 2_000),
        Err(LaunchpadError::Unauthorized)
    );
    assert_eq!(
        withdraw_funds_at(&mut p, key(1), &mut vault, &mut balance, 2_000),
        Ok(())
    );
}

#[test]
fn no_withdrawal_when_the_goal_was_missed() {
    let mut p = project(1_000, 999);
    let (mut vault, mut balance) = (999u64, 0u64);
    assert_eq!(
        withdraw_funds_at(&mut p, owner(), &mut vault, &mut balance, 2_000),
        Err(LaunchpadError::GoalNotReached)
    );
    assert_eq!((vault, balance), (999, 0));
    assert!(p.is_active);
}

#[test]
fn no_withdrawal_before_the_deadline() {
    let mut p = project(1_000, 1_000);
    let (mut vault, mut balance) = (1_000u64, 0u64);
    assert_eq!(
        withdraw_funds_at(&mut p, owner(), &mut vault, &mut balance, 1_999),
        Err(LaunchpadError::ProjectNotEnded)
    );
    assert_eq!((vault, balance), (1_000, 0));
    assert!(p.is_active);
}

#[test]
fn rules_of_a_withdrawal_are_checked_in_order() {
    let mut p = project(1_000, 0);
    let (mut vault, mut balance) = (u64::MAX, u64::MAX);
    assert_eq!(
        withdraw_funds_at(&mut p, key(2), &mut vault, &mut balance, 0),
        Err(LaunchpadError::Unauthorized)
    );
    assert_eq!(
        withdraw_funds_at(&mut p, owner(), &mut vault, &mut balance, 0),
        Err(LaunchpadError::GoalNotReached)
    );
    let mut p = project(1_000, 1_000);
    assert_eq!(
        withdraw_funds_at(&mut p, owner(), &mut vault, &mut balance, 0),
        Err(LaunchpadError::ProjectNotEnded)
    );
    assert_eq!(
        withdraw_funds_at(&mut p, owner(), &mut vault, &mut balance, 2_000),
        Err(LaunchpadError::Overflow)
    );
}

#[test]
fn withdrawal_that_overflows_the_owner_changes_nothing() {
    let mut p = project(1_000, 1_000);
    let before = p.clone();
    let (mut vault, mut balance) = (1_000u64, u64::MAX - 999);
    assert_eq!(
        withdraw_funds_at(&mut p, owner(), &mut vault, &mut balance, 2_000),
        Err(LaunchpadError::Overflow)
    );
    assert_eq!(p, before);
    assert_eq!((vault, balance), (1_000, u64::MAX - 999));
    balance -= 1;
    assert_eq!(withdraw_funds_at(&mut p, owner(), &mut vault, &mut balance, 2_000), Ok(()));
    assert_eq!((vault, balance), (0, u64::MAX));
}

#[test]
fn second_withdrawal_is_rejected() {
    let mut p = project(1_000, 1_000);
    let (mut vault, mut balance) = (1_000u64, 0u64);
    assert_eq!(withdraw_funds_at(&mut p, owner(), &mut vault, &mut balance, 2_000), Ok(()));
    let closed = p.clone();
    assert_eq!(
        withdraw_funds_at(&mut p, owner(), &mut vault, &mut balance, 2_000),
        Err(LaunchpadError::ProjectNotActive)
    );
    assert_eq!(
        withdraw_funds_at(&mut p, owner(), &mut vault, &mut balance, 2_001),
        Err(LaunchpadError::ProjectNotActive)
    );
    assert_eq!((vault, balance), (0, 1_000));
    assert_eq!(p, closed);
    assert!(!p.is_active);
}

#[test]
fn funds_that_reach_a_closed_project_stay_in_the_vault() {
    let mut p = project(10, 10);
    let (mut vault, mut balance) = (10u64, 0u64);
    assert_eq!(withdraw_funds_at(&mut p, owner(), &mut vault, &mut balance, 2_000), Ok(()));
    assert_eq!((vault, balance), (0, 10));
    let closed = p.clone();

    vault += 7;
    assert_eq!(
        withdraw_funds_at(&mut p, owner(), &mut vault, &mut balance, 2_500),
        Err(LaunchpadError::ProjectNotActive)
    );
    assert_eq!((vault, balance), (7, 10));
    assert_eq!(p, closed);

    vault = u64::MAX;
    assert_eq!(
        withdraw_funds_at(&mut p, owner(), &mut vault, &mut balance, i64::MAX),
        Err(LaunchpadError::ProjectNotActive)
    );
    assert_eq!((vault, balance), (u64::MAX, 10));
    assert_eq!(p, closed);
}

#[test]
fn closed_project_is_the_last_rule_of_a_withdrawal() {
    let closed = Project { is_active: false, ..project(1_000, 1_000) };
    let (mut vault, mut balance) = (u64::MAX, u64::MAX);

    let mut p = closed.clone();
    assert_eq!(
        withdraw_funds_at(&mut p, key(2), &mut vault, &mut balance, 2_000),
        Err(LaunchpadError::Unauthorized)
    );
    assert_eq!(
        withdraw_funds_at(&mut p, owner(), &mut vault, &mut balance, 1_999),
        Err(LaunchpadError::ProjectNotEnded)
    );
    assert_eq!(
        withdraw_funds_at(&mut p, owner(), &mut vault, &mut balance, 2_000),
        Err(LaunchpadError::ProjectNotActive)
    );
    let mut missed = Project { is_active: false, ..project(1_000, 999) };
    assert_eq!(
        withdraw_funds_at(&mut missed, owner(), &mut vault, &mut balance, 2_000),
        Err(LaunchpadError::GoalNotReached)
    );
    assert_eq!(p, closed);
    assert_eq!((vault, balance), (u64::MAX, u64::MAX));
}

#[test]
fn closed_project_neither_pays_out_nor_refunds() {
    let mut p = project(1_000, 1_000);
    let (mut vault, mut owner_balance, mut balance) = (1_000u64, 0u64, 0u64);
    assert_eq!(withdraw_funds_at(&mut p, owner(), &mut vault, &mut owner_balance, 2_000), Ok(()));
    vault += 400;
    let mut c = pledge(7, 400);
    assert_eq!(
        claim_refund_at(&p, &mut c, &mut vault, &mut balance, 2_100),
        Err(LaunchpadError::GoalReached)
    );
    assert_eq!(
        withdraw_funds_at(&mut p, owner(), &mut vault, &mut owner_balance, 2_100),
        Err(LaunchpadError::ProjectNotActive)
    );
    assert_eq!((vault, owner_balance, balance), (400, 1_000, 0));
    assert!(!c.withdrawn);
}

#[test]
fn refund_pays_back_the_pledge() {
    let p = project(1_000, 500);
    let mut c = pledge(7, 300);
    let (mut vault, mut balance) = (500u64, 12u64);
    assert_eq!(claim_refund_at(&p, &mut c, &mut vault, &mut balance, 2_000), Ok(()));
    assert_eq!(c, Contribution { contributor: key(7), amount: 300, withdrawn: true });
    assert_eq!((vault, balance), (200, 312));
}

#[test]
fn refund_is_paid_exactly_once() {
    let p = project(1_000, 500);
    let mut c = pledge(7, 300);
    let (mut vault, mut balance) = (500u64, 0u64);
    assert_eq!(claim_refund_at(&p, &mut c, &mut vault, &mut balance, 2_000), Ok(()));
    assert_eq!(
        claim_refund_at(&p, &mut c, &mut vault, &mut balance, 2_000),
        Err(LaunchpadError::AlreadyWithdrawn)
    );
    assert_eq!(
        claim_refund_at(&p, &mut c, &mut vault, &mut balance, 9_000),
        Err(LaunchpadError::AlreadyWithdrawn)
    );
    assert_eq!((vault, balance), (200, 300));
    assert!(c.withdrawn);
}

#[test]
fn refunds_come_in_any_order() {
    let p = project(1_000, 600);
    let mut pledges = [pledge(2, 100), pledge(3, 200), pledge(4, 300)];
    let mut balances = [0u64; 3];
    let mut vault = 600u64;
    for i in [2usize, 0, 1] {
        assert_eq!(
            claim_refund_at(&p, &mut pledges[i], &mut vault, &mut balances[i], 2_500),
            Ok(())
        );
    }
    assert_eq!(balances, [100, 200, 300]);
    assert_eq!(vault, 0);
    assert_eq!(p.current_amount, 600);
}

#[test]
fn no_refund_when_the_goal_was_reached() {
    let p = project(1_000, 1_000);
    let mut c = pledge(7, 300);
    let (mut vault, mut balance) = (1_000u64, 0u64);
    assert_eq!(
        claim_refund_at(&p, &mut c, &mut vault, &mut balance, 2_000),
        Err(LaunchpadError::GoalReached)
    );
    assert_eq!(c, pledge(7, 300));
    assert_eq!((vault, balance), (1_000, 0));
}

#[test]
fn no_refund_before_the_deadline() {
    let p = project(1_000, 500);
    let mut c = pledge(7, 300);
    let (mut vault, mut balance) = (500u64, 0u64);
    assert_eq!(
        claim_refund_at(&p, &mut c, &mut vault, &mut balance, 1_999),
        Err(LaunchpadError::ProjectNotEnded)
    );
    assert_eq!(c, pledge(7, 300));
    assert_eq!((vault, balance), (500, 0));
}

#[test]
fn rules_of_a_refund_are_checked_in_order() {
    let mut refunded = Contribution { withdrawn: true, ..pledge(7, 300) };
    let (mut vault, mut balance) = (0u64, u64::MAX);
    assert_eq!(
        claim_refund_at(&project(1_000, 1_000), &mut refunded, &mut vault, &mut balance, 0),
        Err(LaunchpadError::GoalReached)
    );
    assert_eq!(
        claim_refund_at(&project(1_000, 0), &mut refunded, &mut vault, &mut balance, 0),
        Err(LaunchpadError::ProjectNotEnded)
    );
    assert_eq!(
        claim_refund_at(&project(1_000, 0), &mut refunded, &mut vault, &mut balance, 2_000),
        Err(LaunchpadError::AlreadyWithdrawn)
    );
    let mut open = pledge(7, 300);
    assert_eq!(
        claim_refund_at(&project(1_000, 0), &mut open, &mut vault, &mut balance, 2_000),
        Err(LaunchpadError::InsufficientFunds)
    );
}

#[test]
fn refund_from_a_short_vault_changes_nothing() {
    let p = project(1_000, 500);
    let mut c = pledge(7, 300);
    let (mut vault, mut balance) = (299u64, 5u64);
    assert_eq!(
        claim_refund_at(&p, &mut c, &mut vault, &mut balance, 2_000),
        Err(LaunchpadError::InsufficientFunds)
    );
    assert_eq!(c, pledge(7, 300));
    assert_eq!((vault, balance), (299, 5));
}

#[test]
fn refund_that_overflows_the_contributor_changes_nothing() {
    let p = project(1_000, 500);
    let mut c = pledge(7, 300);
    let (mut vault, mut balance) = (500u64, u64::MAX - 299);
    assert_eq!(
        claim_refund_at(&p, &mut c, &mut vault, &mut balance, 2_000),
        Err(LaunchpadError::Overflow)
    );
    assert_eq!(c, pledge(7, 300));
    assert_eq!((vault, balance), (500, u64::MAX - 299));
}

#[test]
fn only_one_way_out_is_open_after_the_deadline() {
    for current_amount in [0u64, 999, 1_000, 5_000] {
        let mut p = project(1_000, current_amount);
        let mut c = pledge(7, 100);
        let (mut vault, mut owner_balance, mut balance) = (10_000u64, 0u64, 0u64);
        let refund = claim_refund_at(&p, &mut c, &mut vault, &mut balance, 2_000);
        let withdrawal = withdraw_funds_at(&mut p, owner(), &mut vault, &mut owner_balance, 2_000);
        assert_ne!(refund.is_ok(), withdrawal.is_ok());
        assert_eq!(withdrawal.is_ok(), current_amount >= 1_000);
    }
}

#[test]
fn transfer_moves_the_amount() {
    let (mut from, mut to) = (10u64, 5u64);
    assert_eq!(transfer(&mut from, &mut to, 4), Ok(()));
    assert_eq!((from, to), (6, 9));
    assert_eq!(transfer(&mut from, &mut to, 6), Ok(()));
    assert_eq!((from, to), (0, 15));
    assert_eq!(transfer(&mut from, &mut to, 0), Ok(()));
    assert_eq!((from, to), (0, 15));
}

#[test]
fn transfer_fails_without_funds() {
    let (mut from, mut to) = (10u64, 5u64);
    assert_eq!(transfer(&mut from, &mut to, 11), Err(LaunchpadError::InsufficientFunds));
    assert_eq!((from, to), (10, 5));
}

#[test]
fn transfer_fails_when_the_receiver_is_full() {
    let (mut from, mut to) = (10u64, u64::MAX - 3);
    assert_eq!(transfer(&mut from, &mut to, 4), Err(LaunchpadError::Overflow));
    assert_eq!((from, to), (10, u64::MAX - 3));
    assert_eq!(transfer(&mut from, &mut to, 3), Ok(()));
    assert_eq!((from, to), (7, u64::MAX));
    assert_eq!(transfer(&mut from, &mut to, 100), Err(LaunchpadError::InsufficientFunds));
}
