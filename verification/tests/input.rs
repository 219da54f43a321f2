use snake::{Game, Movement, Vector2};

fn fresh() -> Game {
    Game::new(Vector2(5, 5), 10, 1, 1).unwrap()
}

#[test]
fn first_input_sets_direction() {
    let mut game = fresh();
    assert_eq!(game.direction(), None);
    game.handle_input(false, false, true, false);
    assert_eq!(game.direction(), Some(Movement::Left));
}

#[test]
fn input_without_keys_changes_nothing() {
    let mut game = fresh();
    game.handle_input(false, false, false, false);
    assert_eq!(game.direction(), None);
    game.handle_input(false, false, false, true);
    game.handle_input(false, false, false, false);
    assert_eq!(game.direction(), Some(Movement::Right));
}

#[test]
fn reversal_is_ignored() {
    // Each opposite pair in both orders: the reversing key alone must
    // leave the direction as it was.
    let cases = [
        (Movement::Right, Movement::Left),
        (Movement::Left, Movement::Right),
        (Movement::Up, Movement::Down),
        (Movement::Down, Movement::Up),
    ];
    for (set, reverse) in cases {
        let mut game = fresh();
        game.handle_input(
            matches!(set, Movement::Up),
            matches!(set, Movement::Down),
            matches!(set, Movement::Left),
            matches!(set, Movement::Right),
        );
        assert_eq!(game.direction(), Some(set));
        game.handle_input(
            matches!(reverse, Movement::Up),
            matches!(reverse, Movement::Down),
            matches!(reverse, Movement::Left),
            matches!(reverse, Movement::Right),
        );
        assert_eq!(game.direction(), Some(set));
    }
}

#[test]
fn priority_is_up_down_left_right() {
    // All four keys together from a fresh game: Up is checked first.
    let mut game = fresh();
    game.handle_input(true, true, true, true);
    assert_eq!(game.direction(), Some(Movement::Up));
}

#[test]
fn first_legal_key_wins() {
    // Travelling down, Up is an illegal reversal, so a simultaneous
    // Up+Left press turns left.
    let mut game = fresh();
    game.handle_input(false, true, false, false);
    assert_eq!(game.direction(), Some(Movement::Down));
    game.handle_input(true, false, true, false);
    assert_eq!(game.direction(), Some(Movement::Left));
}

#[test]
fn reversal_blocked_even_with_other_keys() {
    // Travelling right, Up+Left must not end in Left: Up is legal and
    // wins; Left alone would have been ignored.
    let mut game = fresh();
    game.handle_input(false, false, false, true);
    assert_eq!(game.direction(), Some(Movement::Right));
    game.handle_input(true, false, true, false);
    assert_eq!(game.direction(), Some(Movement::Up));
}

#[test]
fn staged_direction_moves_head_only_on_tick() {
    let mut game = fresh();
    game.handle_input(false, true, false, false);
    assert_eq!(game.head(), Vector2(5, 5));
    game.update();
    assert_eq!(game.head(), Vector2(5, 6));
}
