use zigzag_score::abi::Operation;
use zigzag_score::contract::{ZigZagContract, ZigzagScoreContract};
use zigzag_score::service::{ZigZagService, ZigzagScoreService};
use zigzag_score::state::{ScoreState, ZigZagState};

fn seeded(seed: u64) -> ZigzagScoreContract {
    let mut contract = ZigzagScoreContract::load();
    contract.instantiate(seed);
    contract
}

fn query(contract: &ZigzagScoreContract) -> u64 {
    ZigzagScoreService::new(*contract.state()).handle_query(())
}

fn query_register(contract: &ZigZagContract) -> u64 {
    ZigZagService::load(*contract.state()).handle_query(())
}

#[test]
fn test_increment_score() {
    let state = ScoreState { value: 0 };
    let op = Operation::SubmitScore { score: 10 };

    let mut contract = ZigzagScoreContract::load();
    contract.instantiate(state.value);
    contract.execute_operation(op);
    let state = *contract.state();

    assert_eq!(state.value, 10, "Score should have increased by 10!");
    println!("✅ SUCCESS: Score logic works perfectly.");
}

#[test]
fn first_submission_becomes_the_high_score() {
    let mut contract = seeded(0);
    contract.execute_operation(Operation::SubmitScore { score: 10 });
    assert_eq!(query(&contract), 10);
}

#[test]
fn lower_submission_is_ignored() {
    let mut contract = seeded(0);
    contract.execute_operation(Operation::SubmitScore { score: 10 });
    contract.execute_operation(Operation::SubmitScore { score: 5 });
    assert_eq!(query(&contract), 10);
}

#[test]
fn equal_submission_is_ignored() {
    let mut contract = seeded(0);
    contract.execute_operation(Operation::SubmitScore { score: 10 });
    contract.execute_operation(Operation::SubmitScore { score: 5 });
    contract.execute_operation(Operation::SubmitScore { score: 10 });
    assert_eq!(query(&contract), 10);
}

#[test]
fn zero_against_a_seed_is_ignored() {
    let mut contract = seeded(100);
    contract.execute_operation(Operation::SubmitScore { score: 0 });
    assert_eq!(query(&contract), 100);
}

#[test]
fn zero_against_zero_stays_zero() {
    let mut contract = seeded(0);
    contract.execute_operation(Operation::SubmitScore { score: 0 });
    assert_eq!(query(&contract), 0);
}

#[test]
fn absent_seed_is_zero() {
    let contract = ZigzagScoreContract::load();
    assert_eq!(contract.state().value, 0);
    assert_eq!(query(&contract), 0);
}

#[test]
fn seed_is_what_instantiate_was_given() {
    assert_eq!(seeded(42).state().value, 42);
    assert_eq!(seeded(u64::MAX).state().value, u64::MAX);
}

#[test]
fn register_first_submission_becomes_the_high_score() {
    let mut contract = ZigZagContract::load(ZigZagState { high_score: 0 }).unwrap();
    assert!(contract.execute_operation(Operation::SubmitScore { score: 10 }).is_ok());
    assert_eq!(query_register(&contract), 10);
    assert!(contract.execute_operation(Operation::SubmitScore { score: 5 }).is_ok());
    assert_eq!(query_register(&contract), 10);
    assert!(contract.execute_operation(Operation::SubmitScore { score: 10 }).is_ok());
    assert_eq!(query_register(&contract), 10);
}

#[test]
fn register_zero_against_a_seed_is_ignored() {
    let mut contract = ZigZagContract::new(ZigZagState { high_score: 100 }).unwrap();
    assert!(contract.execute_operation(Operation::SubmitScore { score: 0 }).is_ok());
    assert_eq!(query_register(&contract), 100);
}

#[test]
fn register_zero_against_zero_stays_zero() {
    let mut contract = ZigZagContract::new(ZigZagState { high_score: 0 }).unwrap();
    assert!(contract.execute_operation(Operation::SubmitScore { score: 0 }).is_ok());
    assert_eq!(query_register(&contract), 0);
}

#[test]
fn new_and_load_take_over_the_state() {
    let state = ZigZagState { high_score: 7 };
    assert_eq!(*ZigZagContract::new(state).unwrap().state(), state);
    assert_eq!(*ZigZagContract::load(state).unwrap().state(), state);
}

#[test]
fn largest_value_is_kept() {
    let mut contract = seeded(3);
    contract.execute_operation(Operation::SubmitScore { score: u64::MAX });
    assert_eq!(query(&contract), u64::MAX);
    contract.execute_operation(Operation::SubmitScore { score: u64::MAX - 1 });
    assert_eq!(query(&contract), u64::MAX);
}

#[test]
fn messages_change_nothing() {
    let mut contract = seeded(9);
    contract.execute_message(());
    assert_eq!(query(&contract), 9);

    let mut register = ZigZagContract::load(ZigZagState { high_score: 9 }).unwrap();
    assert!(register.execute_message(()).is_ok());
    assert!(register.execute_class_message(()).is_ok());
    assert_eq!(query_register(&register), 9);
}
