use runner_game::{Difficulty, Engine, Operation};

fn result_of(op: Operation, own: i32) -> i32 {
    match op {
        Operation::Add(v) => own + v,
        Operation::Subtract(v) => own - v,
        Operation::Multiply(v) => own * v,
        Operation::Divide(v) => own / v,
    }
}

#[test]
fn new_game() {
    let game = Engine::new(Difficulty::Easy);
    assert!(game.soldiers >= 10 && game.soldiers < 20);
    assert!(game.bad_soldiers > game.soldiers && game.bad_soldiers < game.soldiers * 2);
}

#[test]
fn new_game_easy() {
    let game = Engine::new(Difficulty::Easy);
    let difficulty = game.difficulty.to_usize();
    assert_eq!(difficulty, 2);
}

#[test]
fn new_game_medium() {
    let game = Engine::new(Difficulty::Medium);
    let difficulty = game.difficulty.to_usize();
    assert_eq!(difficulty, 3);
}

#[test]
fn new_game_hard() {
    let game = Engine::new(Difficulty::Hard);
    let difficulty = game.difficulty.to_usize();
    assert_eq!(difficulty, 4);
}

#[test]
fn winable_path() {
    let mut game = Engine::new(Difficulty::Easy);
    let operation = game.operation(true);
    println!("operation: {:?}", operation);
    game.apply_operation(operation);
    println!("soldiers: {}", game.soldiers);
    assert!(game.soldiers - game.bad_soldiers > 0);
}

#[test]
fn losable_path() {
    let mut game = Engine::new(Difficulty::Easy);
    let operation = game.operation(false);
    println!("operation: {:?}", operation);
    game.apply_operation(operation);
    println!("soldiers: {}", game.soldiers);
    assert!(game.soldiers - game.bad_soldiers <= 0);
}

#[test]
fn add_to_win() {
    let mut game = Engine::new(Difficulty::Easy);
    let operation = game.add(true);
    println!("operation: {:?}", operation);
    game.apply_operation(operation);
    println!("soldiers: {}", game.soldiers);
    assert!(game.soldiers - game.bad_soldiers > 0);
}

#[test]
fn add_to_lose() {
    let mut game = Engine::new(Difficulty::Easy);
    let operation = game.add(false);
    println!("operation: {:?}", operation);
    game.apply_operation(operation);
    println!("soldiers: {}", game.soldiers);
    assert!(game.soldiers - game.bad_soldiers <= 0);
}

#[test]
fn subtract_to_win() {
    let mut game = Engine::new(Difficulty::Easy);
    let operation = game.subtract(true);
    println!("operation: {:?}", operation);
    game.apply_operation(operation);
    println!("soldiers: {}", game.soldiers);
    assert!(game.soldiers - game.bad_soldiers > 0);
}

#[test]
fn subtract_to_lose() {
    let mut game = Engine::new(Difficulty::Easy);
    let operation = game.subtract(false);
    println!("operation: {:?}", operation);
    game.apply_operation(operation);
    println!("soldiers: {}", game.soldiers);
    assert!(game.soldiers - game.bad_soldiers <= 0);
}

#[test]
fn multiply_to_win() {
    let mut game = Engine::new(Difficulty::Easy);
    let operation = game.multiply(true);
    println!("operation: {:?}", operation);
    game.apply_operation(operation);
    println!("soldiers: {}", game.soldiers);
    assert!(game.soldiers - game.bad_soldiers > 0);
}

#[test]
fn multiply_to_lose() {
    let mut game = Engine::new(Difficulty::Easy);
    let operation = game.multiply(false);
    println!("operation: {:?}", operation);
    game.apply_operation(operation);
    println!("soldiers: {}", game.soldiers);
    assert!(game.soldiers - game.bad_soldiers <= 0);
}

#[test]
fn divide_to_lose() {
    let mut game = Engine::new(Difficulty::Easy);
    let operation = game.divide(false);
    println!("operation: {:?}", operation);
    game.apply_operation(operation);
    println!("soldiers: {}", game.soldiers);
    assert!(game.soldiers - game.bad_soldiers <= 0);
}

#[test]
fn generate_classifies_over_many_force_pairs() {
    let mut seed: u64 = 1;
    for own in [1, 2, 3, 7, 10, 15, 99, 1000] {
        for gap in [0, 1, 2, 5, 50, 1000] {
            let opp = own + gap;
            for should_win in [true, false] {
                let mut game = Engine::with_forces(Difficulty::Easy, own, opp, seed);
                seed += 1;
                let op = game.operation(should_win);
                let after = result_of(op, own);
                if should_win {
                    assert!(after > opp, "op {:?} on ({}, {})", op, own, opp);
                } else {
                    assert!(after <= opp, "op {:?} on ({}, {})", op, own, opp);
                }
            }
        }
    }
}

#[test]
fn build_paths_length_matches_branch_factor() {
    for (difficulty, expected) in [
        (Difficulty::Easy, 2),
        (Difficulty::Medium, 3),
        (Difficulty::Hard, 4),
    ] {
        let mut game = Engine::with_forces(difficulty, 10, 15, 7);
        let paths = game.build_paths();
        assert_eq!(paths.len(), expected);
    }
}

#[test]
fn build_paths_has_exactly_one_winning_path() {
    for seed in 0..200u64 {
        let mut game = Engine::with_forces(Difficulty::Hard, 10, 15, seed);
        let paths = game.build_paths();
        let winners = paths
            .iter()
            .filter(|op| result_of(**op, 10) > 15)
            .count();
        assert_eq!(winners, 1, "paths {:?}", paths);
    }
}

#[test]
fn build_paths_winning_index_is_spread_over_all_positions() {
    let mut counts = [0usize; 4];
    let trials = 2000u64;
    for seed in 0..trials {
        let mut game = Engine::with_forces(Difficulty::Hard, 10, 15, seed);
        let paths = game.build_paths();
        let winner = paths
            .iter()
            .position(|op| result_of(*op, 10) > 15)
            .expect("one winning path");
        counts[winner] += 1;
    }
    // Uniform would give 500 per position; allow a generous band.
    for (i, &c) in counts.iter().enumerate() {
        assert!(c > 350 && c < 650, "position {} drawn {} times of {}", i, c, trials);
    }
}

#[test]
fn generated_divisors_are_never_zero() {
    for seed in 0..500u64 {
        let mut game = Engine::with_forces(Difficulty::Hard, 12, 12, seed);
        let paths = game.build_paths();
        for op in paths.iter() {
            if let Operation::Divide(v) = op {
                assert!(*v != 0);
            }
        }
    }
}

#[test]
fn new_encounter_bounds() {
    for seed in 0..500u64 {
        let mut game = Engine::with_forces(Difficulty::Easy, 10, 15, seed);
        game.new_encounter();
        assert!(game.bad_soldiers > game.soldiers);
        assert!(game.bad_soldiers < 2 * (game.soldiers + 1));
        assert_eq!(game.soldiers, 10);
    }
}

#[test]
fn fight_war_subtracts_and_classifies() {
    let mut game = Engine::with_forces(Difficulty::Easy, 20, 15, 3);
    let did_lose = game.fight_war();
    assert!(!did_lose);
    assert_eq!(game.soldiers, 5);
    assert_eq!(game.bad_soldiers, 15);

    let mut game = Engine::with_forces(Difficulty::Easy, 10, 15, 3);
    let did_lose = game.fight_war();
    assert!(did_lose);
    assert_eq!(game.soldiers, -5);
}

#[test]
fn apply_operation_each_kind() {
    let mut game = Engine::with_forces(Difficulty::Easy, 10, 15, 3);
    game.apply_operation(Operation::Add(7));
    assert_eq!(game.soldiers, 17);
    game.apply_operation(Operation::Subtract(5));
    assert_eq!(game.soldiers, 12);
    game.apply_operation(Operation::Multiply(3));
    assert_eq!(game.soldiers, 36);
    game.apply_operation(Operation::Divide(5));
    assert_eq!(game.soldiers, 7);
    assert_eq!(game.bad_soldiers, 15);
}

#[test]
fn easy_scenario_add_then_victory_then_new_encounter() {
    // A fixed starting position: 10 soldiers against 15.
    let mut game = Engine::with_forces(Difficulty::Easy, 10, 15, 42);
    let op = game.add(true);
    let delta = match op {
        Operation::Add(v) => v,
        other => panic!("expected Add, got {:?}", other),
    };
    // diff = 5, so a winning delta lies in [6, 25].
    assert!((6..=25).contains(&delta));
    game.apply_operation(op);
    let did_lose = game.fight_war();
    assert!(!did_lose);
    assert!(game.soldiers > 0);
    game.new_encounter();
    assert!(game.bad_soldiers > game.soldiers);
    assert!(game.bad_soldiers < 2 * (game.soldiers + 1));
}

#[test]
fn seeded_runs_are_reproducible() {
    let mut a = Engine::new_seeded(Difficulty::Medium, 123);
    let mut b = Engine::new_seeded(Difficulty::Medium, 123);
    assert_eq!(a.soldiers, b.soldiers);
    assert_eq!(a.bad_soldiers, b.bad_soldiers);
    let ops_a = a.build_paths();
    let ops_b = b.build_paths();
    assert_eq!(ops_a, ops_b);
    assert_eq!(a.operation(true), b.operation(true));
    assert_eq!(a.operation(false), b.operation(false));
    a.new_encounter();
    b.new_encounter();
    assert_eq!(a.bad_soldiers, b.bad_soldiers);
}

#[test]
fn different_seeds_eventually_differ() {
    let mut saw_difference = false;
    for seed in 0..20u64 {
        let a = Engine::new_seeded(Difficulty::Easy, seed);
        let b = Engine::new_seeded(Difficulty::Easy, seed + 1000);
        if a.soldiers != b.soldiers || a.bad_soldiers != b.bad_soldiers {
            saw_difference = true;
        }
    }
    assert!(saw_difference);
}
