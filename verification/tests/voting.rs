use see3_dao::dao::See3Dao;
use see3_dao::state::VoteType;

const DEPLOYER: u64 = 1;
const ACCOUNT_A: u64 = 2;
const ACCOUNT_B: u64 = 3;
const K1: u64 = 11;
const K2: u64 = 12;
const K3: u64 = 13;
const K4: u64 = 14;

#[test]
fn change_keeper_full_cycle() {
    let mut dao = See3Dao::new(DEPLOYER, 1000, [K1, K2, K3]);
    assert!(dao.transfer(DEPLOYER, ACCOUNT_A, 600).is_ok());
    assert!(dao
        .initialize_vote(10, VoteType::ChangeKeeper(K1, K4))
        .is_ok());
    assert_eq!(dao.vote_end_block(), 1010);
    assert_eq!(dao.earliest_next_vote_block(), 2010);
    assert!(dao.cast_vote(ACCOUNT_A, 20, true).is_ok());
    assert_eq!(dao.casted_votes(), 600);
    dao.finalize_vote(1011);
    // 600 > 1000 / 2, so the keeper was replaced and the slot cleared.
    assert_eq!(dao.keepers(), [K4, K2, K3]);
    assert!(!dao.is_vote_active());
    assert_eq!(dao.casted_votes(), 0);
}

#[test]
fn initialize_while_active_changes_nothing() {
    let mut dao = See3Dao::new(DEPLOYER, 1000, [K1, K2, K3]);
    assert!(dao
        .initialize_vote(10, VoteType::ChangeKeeper(K1, K4))
        .is_ok());
    assert!(dao.cast_vote(DEPLOYER, 20, true).is_ok());
    // A second initialization is a silent no-op: deadline, tally and the
    // pending action all stay.
    assert!(dao
        .initialize_vote(50, VoteType::ChangeKeeper(K2, K4))
        .is_ok());
    assert_eq!(dao.vote_end_block(), 1010);
    assert_eq!(dao.earliest_next_vote_block(), 2010);
    assert_eq!(dao.casted_votes(), 1000);
    dao.finalize_vote(1011);
    // The first action, not the second, was the one applied.
    assert_eq!(dao.keepers(), [K4, K2, K3]);
}

#[test]
fn expired_unfinalized_vote_blocks_new_votes() {
    let mut dao = See3Dao::new(DEPLOYER, 1000, [K1, K2, K3]);
    assert!(dao
        .initialize_vote(10, VoteType::ChangeKeeper(K1, K4))
        .is_ok());
    // Far past the deadline, but never finalized: still blocking.
    assert!(dao
        .initialize_vote(5000, VoteType::ChangeKeeper(K2, K4))
        .is_ok());
    assert!(dao.is_vote_active());
    assert_eq!(dao.vote_end_block(), 1010);
}

#[test]
fn cooldown_gates_next_vote() {
    let mut dao = See3Dao::new(DEPLOYER, 1000, [K1, K2, K3]);
    assert!(dao
        .initialize_vote(10, VoteType::ChangeKeeper(K1, K4))
        .is_ok());
    dao.finalize_vote(1011);
    assert!(!dao.is_vote_active());
    // The cooldown block persists after finalization: at or before block
    // 2010 nothing opens; strictly past it, a new vote does.
    assert!(dao
        .initialize_vote(2010, VoteType::ChangeKeeper(K2, K4))
        .is_ok());
    assert!(!dao.is_vote_active());
    assert!(dao
        .initialize_vote(2011, VoteType::ChangeKeeper(K2, K4))
        .is_ok());
    assert!(dao.is_vote_active());
    assert_eq!(dao.vote_end_block(), 3011);
}

#[test]
fn double_vote_changes_tally_at_most_once() {
    let mut dao = See3Dao::new(DEPLOYER, 1000, [K1, K2, K3]);
    assert!(dao.transfer(DEPLOYER, ACCOUNT_A, 600).is_ok());
    assert!(dao
        .initialize_vote(10, VoteType::ChangeKeeper(K1, K4))
        .is_ok());
    assert!(dao.cast_vote(ACCOUNT_A, 20, true).is_ok());
    assert_eq!(dao.casted_votes(), 600);
    assert!(dao.cast_vote(ACCOUNT_A, 21, true).is_ok());
    assert_eq!(dao.casted_votes(), 600);
}

#[test]
fn against_vote_records_voter_without_tally() {
    let mut dao = See3Dao::new(DEPLOYER, 1000, [K1, K2, K3]);
    assert!(dao
        .initialize_vote(10, VoteType::ChangeKeeper(K1, K4))
        .is_ok());
    assert!(dao.cast_vote(DEPLOYER, 20, false).is_ok());
    assert_eq!(dao.casted_votes(), 0);
    assert!(dao.has_voted(DEPLOYER));
    // The recorded voter cannot change their ballot afterwards.
    assert!(dao.cast_vote(DEPLOYER, 21, true).is_ok());
    assert_eq!(dao.casted_votes(), 0);
}

#[test]
fn cast_at_or_past_deadline_is_no_op() {
    let mut dao = See3Dao::new(DEPLOYER, 1000, [K1, K2, K3]);
    assert!(dao
        .initialize_vote(10, VoteType::ChangeKeeper(K1, K4))
        .is_ok());
    assert!(dao.cast_vote(DEPLOYER, 1010, true).is_ok());
    assert_eq!(dao.casted_votes(), 0);
    assert!(!dao.has_voted(DEPLOYER));
    assert!(dao.cast_vote(DEPLOYER, 1009, true).is_ok());
    assert_eq!(dao.casted_votes(), 1000);
}

#[test]
fn finalize_before_deadline_is_no_op() {
    let mut dao = See3Dao::new(DEPLOYER, 1000, [K1, K2, K3]);
    assert!(dao
        .initialize_vote(10, VoteType::ChangeKeeper(K1, K4))
        .is_ok());
    assert!(dao.cast_vote(DEPLOYER, 20, true).is_ok());
    dao.finalize_vote(500);
    assert!(dao.is_vote_active());
    assert_eq!(dao.casted_votes(), 1000);
    // The deadline block itself is still too early: strictly after only.
    dao.finalize_vote(1010);
    assert!(dao.is_vote_active());
    assert_eq!(dao.keepers(), [K1, K2, K3]);
}

#[test]
fn finalize_without_active_vote_is_no_op() {
    let mut dao = See3Dao::new(DEPLOYER, 1000, [K1, K2, K3]);
    dao.finalize_vote(5000);
    assert!(!dao.is_vote_active());
    assert_eq!(dao.keepers(), [K1, K2, K3]);
}

#[test]
fn failed_quorum_still_clears_vote_state() {
    let mut dao = See3Dao::new(DEPLOYER, 1000, [K1, K2, K3]);
    assert!(dao
        .initialize_vote(10, VoteType::ChangeKeeper(K1, K4))
        .is_ok());
    dao.finalize_vote(1011);
    assert!(!dao.is_vote_active());
    assert_eq!(dao.casted_votes(), 0);
    assert_eq!(dao.keepers(), [K1, K2, K3]);
}

#[test]
fn quorum_needs_strictly_more_than_half() {
    // Tally exactly half the supply: 500 > 1000 / 2 is false, no effect.
    let mut dao = See3Dao::new(DEPLOYER, 1000, [K1, K2, K3]);
    assert!(dao.transfer(DEPLOYER, ACCOUNT_A, 500).is_ok());
    assert!(dao
        .initialize_vote(10, VoteType::ChangeKeeper(K1, K4))
        .is_ok());
    assert!(dao.cast_vote(ACCOUNT_A, 20, true).is_ok());
    assert_eq!(dao.casted_votes(), 500);
    dao.finalize_vote(1011);
    assert_eq!(dao.keepers(), [K1, K2, K3]);

    // One unit more passes.
    let mut dao = See3Dao::new(DEPLOYER, 1000, [K1, K2, K3]);
    assert!(dao.transfer(DEPLOYER, ACCOUNT_B, 501).is_ok());
    assert!(dao
        .initialize_vote(10, VoteType::ChangeKeeper(K1, K4))
        .is_ok());
    assert!(dao.cast_vote(ACCOUNT_B, 20, true).is_ok());
    dao.finalize_vote(1011);
    assert_eq!(dao.keepers(), [K4, K2, K3]);
}

#[test]
fn odd_supply_quorum_threshold_rounds_down() {
    // supply 999: the threshold is 999 / 2 == 499, so 500 passes.
    let mut dao = See3Dao::new(DEPLOYER, 999, [K1, K2, K3]);
    assert!(dao.transfer(DEPLOYER, ACCOUNT_A, 500).is_ok());
    assert!(dao
        .initialize_vote(10, VoteType::ChangeKeeper(K3, K4))
        .is_ok());
    assert!(dao.cast_vote(ACCOUNT_A, 20, true).is_ok());
    dao.finalize_vote(1011);
    assert_eq!(dao.keepers(), [K1, K2, K4]);
}

#[test]
fn change_keeper_replaces_first_match_only() {
    let mut dao = See3Dao::new(DEPLOYER, 1000, [K1, K1, K3]);
    assert!(dao
        .initialize_vote(10, VoteType::ChangeKeeper(K1, K4))
        .is_ok());
    assert!(dao.cast_vote(DEPLOYER, 20, true).is_ok());
    dao.finalize_vote(1011);
    assert_eq!(dao.keepers(), [K4, K1, K3]);
}

#[test]
fn change_keeper_absent_target_is_no_op() {
    let mut dao = See3Dao::new(DEPLOYER, 1000, [K1, K2, K3]);
    assert!(dao
        .initialize_vote(10, VoteType::ChangeKeeper(99, K4))
        .is_ok());
    assert!(dao.cast_vote(DEPLOYER, 20, true).is_ok());
    dao.finalize_vote(1011);
    assert_eq!(dao.keepers(), [K1, K2, K3]);
}

#[test]
fn initialize_near_block_limit_aborts_cleanly() {
    let mut dao = See3Dao::new(DEPLOYER, 1000, [K1, K2, K3]);
    // The two deadline additions would overflow: the call aborts and the
    // proposal slot stays idle.
    let result = dao.initialize_vote(u32::MAX - 1999, VoteType::ChangeKeeper(K1, K4));
    assert!(result.is_err());
    assert!(!dao.is_vote_active());
    assert_eq!(dao.vote_end_block(), 0);
    // One block earlier both additions still fit.
    assert!(dao
        .initialize_vote(u32::MAX - 2000, VoteType::ChangeKeeper(K1, K4))
        .is_ok());
    assert!(dao.is_vote_active());
    assert_eq!(dao.vote_end_block(), u32::MAX - 1000);
    assert_eq!(dao.earliest_next_vote_block(), u32::MAX);
}
