use anchor_lang::prelude::Pubkey;
use launchpad::{
    claim_refund_at, contribute_at, get_remaining_time_at, initialize_project_at,
    withdraw_funds_at, LaunchpadError, Project,
};

fn key(seed: u8) -> Pubkey {
    Pubkey::new_from_array([seed; 32])
}

fn campaign(goal_amount: u64, duration: i64, now: i64) -> Project {
    initialize_project_at(
        key(1),
        String::from("Solar kiln"),
        String::from("A kiln that fires on sunlight"),
        goal_amount,
        duration,
        now,
    )
    .unwrap()
}

#[test]
fn goal_is_reached_by_the_second_pledge() {
    let mut project = campaign(1000, 100, 50_000);
    let mut vault: u64 = 0;
    let (mut first_balance, mut second_balance) = (2_000u64, 2_000u64);

    let first =
        contribute_at(&mut project, key(2), 400, &mut first_balance, &mut vault, 50_010).unwrap();
    assert_eq!(first.amount, 400);
    assert_eq!(project.current_amount, 400);
    assert!(!project.goal_reached);

    let second =
        contribute_at(&mut project, key(3), 700, &mut second_balance, &mut vault, 50_020).unwrap();
    assert_eq!(second.amount, 700);
    assert_eq!(project.current_amount, 1100);
    assert!(project.goal_reached);
    assert_eq!(vault, 1100);
    assert_eq!((first_balance, second_balance), (1_600, 1_300));

    let progress = (project.current_amount as f64 / project.goal_amount as f64) * 100.0;
    assert!((progress - 110.0).abs() < 1e-9);

    let mut owner_balance: u64 = 0;
    assert_eq!(
        claim_refund_at(&project, &mut first.clone(), &mut vault, &mut first_balance, 50_100),
        Err(LaunchpadError::GoalReached)
    );
    assert_eq!(
        withdraw_funds_at(&mut project, key(1), &mut vault, &mut owner_balance, 50_100),
        Ok(())
    );
    assert_eq!((vault, owner_balance), (0, 1100));
    assert!(!project.is_active);
}

#[test]
fn missed_goal_refunds_every_contributor() {
    let mut project = campaign(1000, 100, 50_000);
    let mut vault: u64 = 0;
    let (mut first_balance, mut second_balance) = (200u64, 307u64);
    let mut first =
        contribute_at(&mut project, key(2), 200, &mut first_balance, &mut vault, 50_001).unwrap();
    let mut second =
        contribute_at(&mut project, key(3), 300, &mut second_balance, &mut vault, 50_002).unwrap();
    assert_eq!(project.current_amount, 500);
    assert_eq!((first_balance, second_balance, vault), (0, 7, 500));

    let deadline = project.end_time;
    let mut owner_balance: u64 = 10;
    let before = project.clone();
    assert_eq!(
        withdraw_funds_at(&mut project, key(1), &mut vault, &mut owner_balance, deadline),
        Err(LaunchpadError::GoalNotReached)
    );
    assert_eq!(project, before);
    assert_eq!((vault, owner_balance), (500, 10));

    assert_eq!(
        claim_refund_at(&project, &mut second, &mut vault, &mut second_balance, deadline + 5),
        Ok(())
    );
    assert_eq!(second_balance, 307);
    assert_eq!(vault, 200);
    assert!(second.withdrawn);

    assert_eq!(
        claim_refund_at(&project, &mut first, &mut vault, &mut first_balance, deadline + 9),
        Ok(())
    );
    assert_eq!(first_balance, 200);
    assert_eq!(vault, 0);
    assert!(first.withdrawn);

    assert_eq!(project, before);
    assert_eq!(project.current_amount, 500);
}

#[test]
fn pledge_of_nothing_is_rejected() {
    let mut project = campaign(1000, 100, 50_000);
    let (mut balance, mut vault) = (900u64, 0u64);
    contribute_at(&mut project, key(2), 250, &mut balance, &mut vault, 50_001).unwrap();
    let before = project.clone();

    let rejected = contribute_at(&mut project, key(2), 0, &mut balance, &mut vault, 50_002);
    assert_eq!(rejected, Err(LaunchpadError::InvalidContributionAmount));
    assert_eq!(project, before);
    assert_eq!(project.current_amount, 250);
    assert_eq!((balance, vault), (650, 250));
}

#[test]
fn remaining_time_at_and_before_the_deadline() {
    let project = campaign(1000, 100, 50_000);
    assert_eq!(project.end_time, 50_100);
    assert_eq!(get_remaining_time_at(&project, 50_100), Ok(0));
    assert_eq!(get_remaining_time_at(&project, 50_099), Ok(1));
}

#[test]
fn withdrawal_happens_once_whatever_arrives_later() {
    let mut project = initialize_project_at(
        key(1),
        String::from("Kite"),
        String::from("A kite for the fair"),
        10,
        5,
        1_000,
    )
    .unwrap();
    let (mut vault, mut contributor_balance, mut owner_balance) = (0u64, 10u64, 0u64);
    contribute_at(&mut project, key(2), 10, &mut contributor_balance, &mut vault, 1_001).unwrap();
    assert!(project.goal_reached);

    assert_eq!(
        withdraw_funds_at(&mut project, key(1), &mut vault, &mut owner_balance, 1_005),
        Ok(())
    );
    assert_eq!((vault, owner_balance), (0, 10));
    assert!(!project.is_active);
    let closed = project.clone();

    vault += 7;
    assert_eq!(
        withdraw_funds_at(&mut project, key(1), &mut vault, &mut owner_balance, 1_006),
        Err(LaunchpadError::ProjectNotActive)
    );
    assert_eq!((vault, owner_balance), (7, 10));
    assert_eq!(project, closed);

    assert_eq!(
        contribute_at(&mut project, key(2), 1, &mut contributor_balance, &mut vault, 1_002),
        Err(LaunchpadError::ProjectNotActive)
    );
    assert_eq!(project, closed);
}
