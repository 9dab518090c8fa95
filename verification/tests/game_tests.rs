use rustcraft::game::{physics_steps, PhysicsUpdateRate, ProgramState};

#[test]
fn updates_are_counted_within_a_second() {
    let mut rate = PhysicsUpdateRate::new();
    for _ in 0..5 {
        assert!(!rate.count_update(400));
    }
    assert_eq!(rate.updates, 5);
    assert_eq!(rate.updates_per_second, 0);
}

#[test]
fn count_becomes_rate_after_a_second() {
    let mut rate = PhysicsUpdateRate::new();
    for _ in 0..20 {
        rate.count_update(999);
    }
    assert!(!rate.count_update(1000));
    assert!(rate.count_update(1001));
    assert_eq!(rate.updates_per_second, 21);
    assert_eq!(rate.updates, 0);
}

#[test]
fn program_states_compare() {
    assert!(ProgramState::InGame == ProgramState::InGame);
    assert!(ProgramState::Menu != ProgramState::Loading);
    assert!(ProgramState::Init != ProgramState::InGame);
}

#[test]
fn physics_runs_whole_steps_and_keeps_the_rest() {
    assert_eq!(physics_steps(true, 120, 50), (2, 20));
    assert_eq!(physics_steps(true, 150, 50), (2, 50));
    assert_eq!(physics_steps(true, 151, 50), (3, 1));
}

#[test]
fn physics_waits_for_more_than_one_step() {
    assert_eq!(physics_steps(true, 0, 50), (0, 0));
    assert_eq!(physics_steps(true, 50, 50), (0, 50));
    assert_eq!(physics_steps(true, 49_999_999, 50_000_000), (0, 49_999_999));
}

#[test]
fn physics_does_not_run_outside_the_game() {
    assert_eq!(physics_steps(false, 500, 50), (0, 500));
}
