use snake::{CellColor, DrawRect, Game, Vector2};

#[test]
fn draw_plan_of_fresh_game() {
    let game = Game::new(Vector2(1, 2), 3, 1, 6).unwrap();
    let rects = game.draw(10);
    // Background, head, fruit: the body is still empty.
    assert_eq!(rects.len(), 3);
    assert_eq!(
        rects[0],
        DrawRect { x: 0, y: 0, width: 30, height: 30, color: CellColor::Background }
    );
    assert_eq!(
        rects[1],
        DrawRect { x: 10, y: 20, width: 10, height: 10, color: CellColor::Snake }
    );
    let f = game.fruit();
    assert_eq!(
        rects[2],
        DrawRect { x: f.0 * 10, y: f.1 * 10, width: 10, height: 10, color: CellColor::Fruit }
    );
}

#[test]
fn draw_plan_lists_body_segments_oldest_first() {
    let mut game = Game::new(Vector2(1, 1), 5, 1, 8).unwrap();
    game.handle_input(false, false, false, true);
    game.update();
    assert_eq!(game.head(), Vector2(2, 1));
    assert_eq!(game.body().len(), 1);
    let rects = game.draw(4);
    assert_eq!(rects.len(), 4);
    assert_eq!(
        rects[0],
        DrawRect { x: 0, y: 0, width: 20, height: 20, color: CellColor::Background }
    );
    // Head first, then the one trailing segment on the vacated cell.
    assert_eq!(
        rects[1],
        DrawRect { x: 8, y: 4, width: 4, height: 4, color: CellColor::Snake }
    );
    assert_eq!(
        rects[2],
        DrawRect { x: 4, y: 4, width: 4, height: 4, color: CellColor::Snake }
    );
    assert_eq!(rects[3].color, CellColor::Fruit);
}

#[test]
fn dead_snake_is_not_drawn() {
    let mut game = Game::new(Vector2(0, 1), 2, 1, 2).unwrap();
    game.handle_input(false, false, true, false);
    game.update();
    assert!(!game.alive());
    let rects = game.draw(7);
    // Only the background and the fruit remain.
    assert_eq!(rects.len(), 2);
    assert_eq!(rects[0].color, CellColor::Background);
    assert_eq!(rects[1].color, CellColor::Fruit);
}
