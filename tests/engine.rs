use rsfarkle::{
    GameState, Player, Roll, RollType, Selection, ToggleResult, Turn, TurnEvent,
};

fn roll_of(faces: [usize; 6]) -> Roll {
    let mut roll = Roll::default();
    roll.new_roll_with(&faces);
    roll
}

fn faces(roll: &Roll) -> Vec<usize> {
    roll.dice().iter().map(|d| d.value()).collect()
}

fn sum_counts(roll: &Roll) -> usize {
    roll.count_values().iter().sum()
}

fn locked(roll: &Roll) -> usize {
    roll.dice()
        .iter()
        .filter(|d| d.picked() && !d.picked_this_roll())
        .count()
}

#[test]
fn fresh_roll_shows_one_to_six_unpicked() {
    let roll = Roll::default();
    assert_eq!(faces(&roll), vec![1, 2, 3, 4, 5, 6]);
    assert!(roll.dice().iter().all(|d| !d.picked() && !d.picked_this_roll()));
}

#[test]
fn random_roll_gives_faces_in_range() {
    for _ in 0..200 {
        let mut roll = Roll::default();
        roll.new_roll();
        for d in roll.dice() {
            assert!((1..=6).contains(&d.value()));
            assert!(!d.picked());
        }
    }
}

#[test]
fn random_roll_changes_faces_over_many_draws() {
    let mut seen = [false; 6];
    for _ in 0..200 {
        let mut roll = Roll::default();
        roll.new_roll();
        for d in roll.dice() {
            seen[d.value() - 1] = true;
        }
    }
    assert!(seen.iter().all(|s| *s));
}

#[test]
fn ones_and_twos_classify_as_simple_and_score_1200() {
    let mut roll = roll_of([1, 1, 1, 2, 2, 2]);
    assert_eq!(roll.count_values(), [3, 3, 0, 0, 0, 0]);
    let (sel, kind) = roll.determine_type();
    assert_eq!(kind, RollType::Simple);
    assert_eq!(sel.value(), 0);
    assert_eq!(sel.values().count(), 0);
    for i in 0..6 {
        assert_eq!(roll.toggle_die(i), ToggleResult::Picked);
    }
    let sel = roll.construct_selection().unwrap();
    assert_eq!(sel.value(), 1200);
    assert_eq!(sel.values().copied().collect::<Vec<_>>(), vec![1, 1, 1, 2, 2, 2]);
}

#[test]
fn straight_is_worth_3000_and_picks_all() {
    let mut roll = roll_of([1, 2, 3, 4, 5, 6]);
    let (sel, kind) = roll.determine_type();
    assert_eq!(kind, RollType::Straight);
    assert_eq!(sel.value(), 3000);
    assert_eq!(sel.values().copied().collect::<Vec<_>>(), vec![1, 2, 3, 4, 5, 6]);
    assert!(roll.dice().iter().all(|d| d.picked() && d.picked_this_roll()));
}

#[test]
fn straight_in_any_order() {
    let mut roll = roll_of([6, 4, 2, 5, 3, 1]);
    let (sel, kind) = roll.determine_type();
    assert_eq!(kind, RollType::Straight);
    assert_eq!(sel.values().copied().collect::<Vec<_>>(), vec![6, 4, 2, 5, 3, 1]);
}

#[test]
fn three_pairs_are_worth_2000() {
    let mut roll = roll_of([2, 2, 3, 3, 5, 5]);
    assert_eq!(roll.count_values(), [0, 2, 2, 0, 2, 0]);
    let (sel, kind) = roll.determine_type();
    assert_eq!(kind, RollType::TriplePair);
    assert_eq!(sel.value(), 2000);
    assert_eq!(sel.values().copied().collect::<Vec<_>>(), vec![2, 2, 3, 3, 5, 5]);
    assert!(roll.dice().iter().all(|d| d.picked() && d.picked_this_roll()));
}

#[test]
fn three_pairs_in_any_order() {
    let mut roll = roll_of([6, 1, 4, 6, 4, 1]);
    let (sel, kind) = roll.determine_type();
    assert_eq!(kind, RollType::TriplePair);
    assert_eq!(sel.value(), 2000);
    assert_eq!(sel.values().copied().collect::<Vec<_>>(), vec![6, 1, 4, 6, 4, 1]);
}

#[test]
fn two_pairs_are_not_three_pairs() {
    let mut roll = roll_of([2, 2, 3, 3, 5, 6]);
    let (sel, kind) = roll.determine_type();
    assert_eq!(kind, RollType::Simple);
    assert_eq!(sel.value(), 0);
    assert!(roll.dice().iter().all(|d| !d.picked()));
}

#[test]
fn three_pairs_in_a_turn_go_to_the_hand() {
    let mut player = Player::new("Max".to_string());
    let mut turn = Turn::new();
    assert_eq!(
        turn.roll_with(&mut player, &[2, 2, 3, 3, 5, 5]),
        TurnEvent::Rolled(RollType::TriplePair, 2000)
    );
    assert_eq!(turn.state(), GameState::FirstRoll);
    assert_eq!(player.selections().map(|s| s.value()).collect::<Vec<_>>(), vec![2000]);
    assert!(turn.current_roll().dice().iter().all(|d| d.picked()));
}

#[test]
fn roll_without_scoring_dice_is_farkle() {
    let mut roll = roll_of([2, 3, 4, 6, 2, 3]);
    let (sel, kind) = roll.determine_type();
    assert_eq!(kind, RollType::Farkle);
    assert_eq!(sel.value(), 0);
    assert!(roll.dice().iter().all(|d| !d.picked()));
    assert_eq!(roll.determine_pickable(None), [false; 6]);
}

#[test]
fn single_three_is_not_pickable() {
    let mut roll = roll_of([3, 2, 2, 4, 6, 1]);
    assert_eq!(roll.toggle_die(0), ToggleResult::NotPickable);
    assert!(!roll.dice()[0].picked());
    assert_eq!(roll.toggle_die(5), ToggleResult::Picked);
}

#[test]
fn two_fours_alone_cannot_be_confirmed() {
    let mut roll = roll_of([4, 4, 4, 1, 2, 3]);
    assert_eq!(roll.toggle_die(0), ToggleResult::Picked);
    assert_eq!(roll.toggle_die(1), ToggleResult::Picked);
    assert_eq!(
        roll.construct_selection().unwrap_err(),
        "Can only select 3 or more dice that aren't 1 or 5"
    );
}

#[test]
fn empty_pick_cannot_be_confirmed() {
    let roll = roll_of([4, 4, 4, 1, 2, 3]);
    assert_eq!(
        roll.construct_selection().unwrap_err(),
        "Selection must have positive value"
    );
}

#[test]
fn pick_scores_follow_the_formulas() {
    let cases: [([usize; 6], &[usize], u32); 8] = [
        ([1, 1, 1, 1, 1, 2], &[0, 1, 2, 3, 4], 3000),
        ([2, 2, 2, 2, 3, 4], &[0, 1, 2, 3], 400),
        ([6, 6, 6, 6, 6, 6], &[0, 1, 2, 3, 4, 5], 2400),
        ([1, 5, 2, 3, 4, 6], &[0, 1], 150),
        ([5, 5, 5, 2, 3, 4], &[0, 1, 2], 500),
        ([5, 5, 2, 3, 4, 6], &[0, 1], 100),
        ([3, 3, 3, 1, 2, 4], &[0, 1, 2, 3], 400),
        ([1, 1, 2, 3, 4, 6], &[0, 1], 200),
    ];
    for (dice, picks, expected) in cases {
        let mut roll = roll_of(dice);
        for &i in picks {
            assert_eq!(roll.toggle_die(i), ToggleResult::Picked);
        }
        assert_eq!(roll.construct_selection().unwrap().value(), expected);
    }
}

#[test]
fn toggling_twice_unpicks() {
    let mut roll = roll_of([1, 2, 3, 4, 6, 6]);
    assert_eq!(roll.toggle_die(0), ToggleResult::Picked);
    assert_eq!(roll.toggle_die(0), ToggleResult::Unpicked);
    assert!(!roll.dice()[0].picked());
}

#[test]
fn locked_die_cannot_be_unpicked() {
    let mut roll = roll_of([1, 2, 3, 4, 6, 6]);
    assert_eq!(roll.toggle_die(0), ToggleResult::Picked);
    roll.new_roll_with(&[2, 2, 3, 3, 4, 5]);
    assert!(roll.dice()[0].picked());
    assert!(!roll.dice()[0].picked_this_roll());
    assert_eq!(roll.dice()[0].value(), 1);
    assert_eq!(roll.toggle_die(0), ToggleResult::NotUnpickable);
    assert_eq!(faces(&roll), vec![1, 2, 3, 3, 4, 5]);
}

#[test]
fn counts_leave_out_only_locked_dice() {
    let mut roll = roll_of([1, 5, 3, 4, 6, 6]);
    assert_eq!(sum_counts(&roll), 6);
    roll.toggle_die(0);
    roll.toggle_die(1);
    assert_eq!(sum_counts(&roll), 6 - locked(&roll));
    assert_eq!(sum_counts(&roll), 6);
    roll.new_roll_with(&[2, 2, 3, 3, 4, 5]);
    assert_eq!(locked(&roll), 2);
    assert_eq!(sum_counts(&roll), 4);
    assert_eq!(roll.count_values(), [0, 0, 2, 1, 1, 0]);
}

#[test]
fn pickable_dice_are_free() {
    let mut roll = roll_of([1, 1, 5, 5, 2, 2]);
    roll.toggle_die(0);
    roll.toggle_die(2);
    let pickable = roll.determine_pickable(None);
    assert_eq!(pickable, [false, true, false, true, false, false]);
    for (d, p) in roll.dice().iter().zip(pickable) {
        assert!(!(p && d.picked()));
    }
}

#[test]
fn given_counts_decide_pickability() {
    let roll = roll_of([2, 2, 3, 3, 4, 1]);
    let counts = [1, 3, 0, 0, 0, 0];
    assert_eq!(
        roll.determine_pickable(Some(&counts)),
        [true, true, false, false, false, true]
    );
}

#[test]
fn pickability_follows_live_counts() {
    let mut roll = roll_of([2, 2, 2, 1, 3, 4]);
    assert_eq!(roll.toggle_die(0), ToggleResult::Picked);
    assert_eq!(roll.toggle_die(1), ToggleResult::Picked);
    assert_eq!(roll.determine_pickable(None)[2], true);
    assert_eq!(roll.toggle_die(2), ToggleResult::Picked);
    assert_eq!(roll.toggle_die(2), ToggleResult::Unpicked);
}

#[test]
fn deselect_restores_the_fresh_pick_pass() {
    let mut roll = roll_of([1, 5, 2, 2, 2, 6]);
    let before = roll.determine_pickable(None);
    roll.toggle_die(0);
    roll.toggle_die(2);
    roll.toggle_die(3);
    roll.toggle_die(1);
    roll.toggle_die(1);
    roll.deselect();
    assert_eq!(roll.determine_pickable(None), before);
    assert!(roll.dice().iter().all(|d| !d.picked()));
}

#[test]
fn deselect_keeps_locked_dice() {
    let mut roll = roll_of([1, 2, 3, 4, 6, 6]);
    roll.toggle_die(0);
    roll.new_roll_with(&[2, 5, 3, 3, 4, 5]);
    let before = roll.determine_pickable(None);
    roll.toggle_die(1);
    roll.deselect();
    assert!(roll.dice()[0].picked());
    assert!(!roll.dice()[1].picked());
    assert_eq!(roll.determine_pickable(None), before);
}

#[test]
fn hot_dice_gives_six_fresh_dice() {
    let mut roll = roll_of([1, 2, 3, 4, 5, 6]);
    roll.determine_type();
    assert!(roll.dice().iter().all(|d| d.picked()));
    roll.new_roll_with(&[2, 2, 4, 6, 6, 3]);
    assert_eq!(faces(&roll), vec![2, 2, 4, 6, 6, 3]);
    assert!(roll.dice().iter().all(|d| !d.picked() && !d.picked_this_roll()));
}

#[test]
fn hot_dice_keeps_the_hand() {
    let mut player = Player::new("Ada".to_string());
    let mut turn = Turn::new();
    assert_eq!(
        turn.roll_with(&mut player, &[1, 2, 3, 4, 5, 6]),
        TurnEvent::Rolled(RollType::Straight, 3000)
    );
    assert_eq!(turn.state(), GameState::FirstRoll);
    assert_eq!(
        turn.roll_with(&mut player, &[1, 3, 3, 4, 4, 6]),
        TurnEvent::Rolled(RollType::Simple, 0)
    );
    assert_eq!(player.selections().count(), 1);
    assert_eq!(player.selections().next().unwrap().value(), 3000);
    assert!(turn.current_roll().dice().iter().all(|d| !d.picked()));
    assert_eq!(turn.state(), GameState::Picking);
}

#[test]
fn banking_adds_hand_to_score() {
    let mut player = Player::new("Ada".to_string());
    let mut turn = Turn::new();
    turn.roll_with(&mut player, &[5, 5, 5, 2, 3, 4]);
    for i in 0..3 {
        turn.toggle(i);
    }
    assert_eq!(turn.confirm_pick(&mut player), TurnEvent::Selected(500));
    assert_eq!(turn.bank(&mut player), TurnEvent::Banked(500));
    assert_eq!(player.score(), 500);

    let mut turn = Turn::new();
    assert_eq!(
        turn.roll_with(&mut player, &[1, 1, 1, 2, 2, 2]),
        TurnEvent::Rolled(RollType::Simple, 0)
    );
    for i in 0..6 {
        assert_eq!(turn.toggle(i), TurnEvent::Toggled(ToggleResult::Picked));
    }
    assert_eq!(turn.confirm_pick(&mut player), TurnEvent::Selected(1200));
    assert_eq!(turn.state(), GameState::Rolling);
    assert_eq!(
        turn.roll_with(&mut player, &[1, 2, 3, 4, 5, 6]),
        TurnEvent::Rolled(RollType::Straight, 3000)
    );
    let hand: Vec<u32> = player.selections().map(|s| s.value()).collect();
    assert_eq!(hand, vec![1200, 3000]);
    assert_eq!(turn.bank(&mut player), TurnEvent::Banked(4200));
    assert_eq!(player.score(), 4700);
    assert_eq!(player.selections().count(), 0);
    assert_eq!(turn.state(), GameState::TurnEnded);
}

#[test]
fn farkle_empties_hand_and_ends_turn() {
    let mut player = Player::new("Bo".to_string());
    let mut turn = Turn::new();
    turn.roll_with(&mut player, &[1, 2, 3, 4, 6, 6]);
    turn.toggle(0);
    assert_eq!(turn.confirm_pick(&mut player), TurnEvent::Selected(100));
    assert_eq!(
        turn.roll_with(&mut player, &[1, 2, 3, 4, 6, 6]),
        TurnEvent::Rolled(RollType::Farkle, 0)
    );
    assert_eq!(player.selections().count(), 0);
    assert_eq!(player.score(), 0);
    assert_eq!(turn.state(), GameState::TurnEnded);
}

#[test]
fn invalid_confirm_frees_pending_dice() {
    let mut player = Player::new("Cy".to_string());
    let mut turn = Turn::new();
    turn.roll_with(&mut player, &[4, 4, 4, 1, 2, 3]);
    turn.toggle(0);
    turn.toggle(1);
    assert_eq!(
        turn.confirm_pick(&mut player),
        TurnEvent::InvalidSelection("Can only select 3 or more dice that aren't 1 or 5")
    );
    assert_eq!(turn.state(), GameState::Picking);
    assert!(turn.current_roll().dice().iter().all(|d| !d.picked()));
    assert_eq!(player.selections().count(), 0);
    assert_eq!(
        turn.confirm_pick(&mut player),
        TurnEvent::InvalidSelection("Selection must have positive value")
    );
}

#[test]
fn commands_out_of_turn_are_rejected() {
    let mut player = Player::new("Di".to_string());
    let mut turn = Turn::new();
    assert_eq!(turn.bank(&mut player), TurnEvent::Rejected);
    assert_eq!(turn.toggle(0), TurnEvent::Rejected);
    assert_eq!(turn.confirm_pick(&mut player), TurnEvent::Rejected);
    assert_eq!(turn.undo_pick(&mut player), TurnEvent::Rejected);
    assert_eq!(turn.state(), GameState::FirstRoll);

    turn.roll_with(&mut player, &[1, 2, 2, 3, 4, 6]);
    assert_eq!(turn.state(), GameState::Picking);
    assert_eq!(turn.roll_with(&mut player, &[1, 1, 1, 1, 1, 1]), TurnEvent::Rejected);
    assert_eq!(turn.bank(&mut player), TurnEvent::Rejected);
    assert_eq!(turn.undo_pick(&mut player), TurnEvent::Rejected);
    assert_eq!(faces(turn.current_roll()), vec![1, 2, 2, 3, 4, 6]);

    turn.toggle(0);
    turn.confirm_pick(&mut player);
    assert_eq!(turn.state(), GameState::Rolling);
    assert_eq!(turn.toggle(1), TurnEvent::Rejected);
    assert_eq!(turn.confirm_pick(&mut player), TurnEvent::Rejected);

    turn.bank(&mut player);
    assert_eq!(turn.state(), GameState::TurnEnded);
    assert_eq!(turn.roll_with(&mut player, &[1, 1, 1, 1, 1, 1]), TurnEvent::Rejected);
    assert_eq!(turn.bank(&mut player), TurnEvent::Rejected);
    assert_eq!(player.score(), 100);
}

#[test]
fn undo_pick_takes_back_last_selection() {
    let mut player = Player::new("Ed".to_string());
    let mut turn = Turn::new();
    turn.roll_with(&mut player, &[1, 5, 2, 3, 4, 4]);
    turn.toggle(0);
    turn.toggle(1);
    assert_eq!(turn.confirm_pick(&mut player), TurnEvent::Selected(150));
    assert_eq!(turn.undo_pick(&mut player), TurnEvent::Undone);
    assert_eq!(turn.state(), GameState::Picking);
    assert_eq!(player.selections().count(), 0);
    assert!(turn.current_roll().dice().iter().all(|d| !d.picked()));
    turn.toggle(1);
    assert_eq!(turn.confirm_pick(&mut player), TurnEvent::Selected(50));
}

#[test]
fn random_turn_roll_is_classified() {
    let mut player = Player::new("Fay".to_string());
    let mut turn = Turn::new();
    match turn.roll(&mut player) {
        TurnEvent::Rolled(RollType::Farkle, 0) => assert_eq!(turn.state(), GameState::TurnEnded),
        TurnEvent::Rolled(RollType::Simple, 0) => assert_eq!(turn.state(), GameState::Picking),
        TurnEvent::Rolled(RollType::Straight, 3000) | TurnEvent::Rolled(RollType::TriplePair, 2000) => {
            assert_eq!(turn.state(), GameState::FirstRoll)
        }
        other => panic!("unexpected event {:?}", other),
    }
}
