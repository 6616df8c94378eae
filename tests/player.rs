use rsfarkle::{Player, Roll, RollType, Selection, ToggleResult};

fn straight() -> Selection {
    let mut roll = Roll::default();
    roll.new_roll_with(&[1, 2, 3, 4, 5, 6]);
    let (sel, kind) = roll.determine_type();
    assert_eq!(kind, RollType::Straight);
    sel
}

fn picked(dice: [usize; 6], picks: &[usize]) -> Selection {
    let mut roll = Roll::default();
    roll.new_roll_with(&dice);
    for &i in picks {
        assert_eq!(roll.toggle_die(i), ToggleResult::Picked);
    }
    roll.construct_selection().unwrap()
}

#[test]
fn new_player_has_nothing() {
    let p = Player::new("Gus".to_string());
    assert_eq!(p.name(), "Gus");
    assert_eq!(p.score(), 0);
    assert_eq!(p.selections().count(), 0);
}

#[test]
fn hand_grows_and_shrinks() {
    let mut p = Player::new("Hal".to_string());
    p.add_selection(straight());
    p.add_selection(picked([2, 2, 2, 2, 3, 4], &[0, 1, 2, 3]));
    assert_eq!(p.selections().map(|s| s.value()).collect::<Vec<_>>(), vec![3000, 400]);
    let last = p.undo_selection().unwrap();
    assert_eq!(last.value(), 400);
    assert_eq!(last.values().copied().collect::<Vec<_>>(), vec![2, 2, 2, 2]);
    assert_eq!(p.selections().count(), 1);
    p.empty_hand();
    assert!(p.undo_selection().is_none());
    assert_eq!(p.score(), 0);
}

#[test]
fn bank_returns_points_and_empties_hand() {
    let mut p = Player::new("Ivy".to_string());
    p.add_selection(straight());
    p.add_selection(picked([6, 6, 6, 1, 5, 2], &[0, 1, 2, 3, 4]));
    assert_eq!(p.bank(), 3750);
    assert_eq!(p.score(), 3750);
    assert_eq!(p.selections().count(), 0);
    assert_eq!(p.bank(), 0);
    assert_eq!(p.score(), 3750);
}

#[test]
fn empty_selection_is_worth_nothing() {
    let s = Selection::default();
    assert_eq!(s.value(), 0);
    assert_eq!(s.values().count(), 0);
}

#[test]
fn players_order_by_score() {
    let mut a = Player::new("Jo".to_string());
    let b = Player::new("Kim".to_string());
    assert!(a == b);
    a.add_selection(straight());
    a.bank();
    assert!(a > b);
    assert!(b < a);
    assert!(a != b);
    let mut players = vec![a, b];
    players.sort_by(|x, y| x.partial_cmp(y).unwrap());
    assert_eq!(players[0].name(), "Kim");
    assert_eq!(players[1].name(), "Jo");
}

#[test]
fn roll_type_labels() {
    assert_eq!(RollType::Farkle.label(), "Farkle");
    assert_eq!(RollType::Simple.label(), "Simple roll");
    assert_eq!(RollType::TriplePair.label(), "Triple pair");
    assert_eq!(RollType::Straight.label(), "Straight");
}

#[test]
fn dice_faces_can_be_set_in_place() {
    let mut roll = Roll::default();
    for (i, die) in roll.dice_mut().iter_mut().enumerate() {
        die.set_value(6 - i);
    }
    let faces: Vec<usize> = roll.dice().iter().map(|d| d.value()).collect();
    assert_eq!(faces, vec![6, 5, 4, 3, 2, 1]);
}

#[test]
fn bank_fits_tells_when_score_would_overflow() {
    let mut p = Player::new("Lu".to_string());
    assert!(p.bank_fits());
    p.add_selection(straight());
    assert!(p.bank_fits());
    while p.score() <= u32::MAX - 3000 {
        p.add_selection(straight());
        assert!(p.bank_fits());
        p.bank();
    }
    p.add_selection(straight());
    assert!(!p.bank_fits());
    p.undo_selection();
    assert!(p.bank_fits());
}
