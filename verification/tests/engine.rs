use snake::{GameContext, GameState, PlayerDirection, Point, TickOutcome};

fn playing() -> GameContext {
    let mut game = GameContext::new();
    game.toggle_pause();
    game
}

/// A snake coiled so that turning down runs the head into the body.
fn coiled() -> GameContext {
    let mut game = playing();
    game.player_position =
        vec![Point(5, 5), Point(6, 5), Point(6, 6), Point(5, 6), Point(4, 6)];
    game.player_direction = PlayerDirection::Left;
    game.score = 2;
    game.speed = 13;
    game
}

#[test]
fn new_game_has_the_initial_values() {
    let game = GameContext::new();
    assert_eq!(game.player_position, vec![Point(3, 1), Point(2, 1), Point(1, 1)]);
    assert_eq!(game.player_direction, PlayerDirection::Right);
    assert_eq!(game.score, 0);
    assert_eq!(game.food, Point(3, 3));
    assert_eq!(game.state, GameState::Paused);
    assert_eq!(game.speed, 15);
    assert_eq!(game.space, GameContext::getspace());
    assert!(game.is_wf());
}

#[test]
fn first_tick_moves_the_snake_right() {
    let mut game = GameContext::new();
    game.toggle_pause();
    assert_eq!(game.state, GameState::Playing);
    game.next_tick();
    assert_eq!(game.player_position, vec![Point(4, 1), Point(3, 1), Point(2, 1)]);
    assert_eq!(game.state, GameState::Playing);
    assert_eq!(game.food, Point(3, 3));
    assert_eq!(game.score, 0);
    assert_eq!(game.speed, 15);
}

#[test]
fn move_left_is_ignored_while_heading_right() {
    let mut game = playing();
    game.next_tick();
    game.move_left();
    assert_eq!(game.player_direction, PlayerDirection::Right);
}

#[test]
fn paused_tick_changes_nothing() {
    let mut game = GameContext::new();
    let before = game.clone();
    game.next_tick();
    assert_eq!(game, before);
    game.next_tick_with(Point(9, 9));
    assert_eq!(game, before);
    assert_eq!(game.outcome(), TickOutcome::Idle);
}

#[test]
fn paused_tick_changes_nothing_in_mid_game() {
    let mut game = coiled();
    game.toggle_pause();
    assert_eq!(game.state, GameState::Paused);
    let before = game.clone();
    game.next_tick();
    assert_eq!(game, before);
}

#[test]
fn tick_without_food_keeps_the_length() {
    let mut game = playing();
    assert_eq!(game.outcome(), TickOutcome::Advance);
    game.next_tick();
    assert_eq!(game.player_position.len(), 3);
    game.move_up();
    game.next_tick();
    assert_eq!(game.player_position, vec![Point(4, 0), Point(4, 1), Point(3, 1)]);
}

#[test]
fn eating_grows_the_snake_by_one() {
    let mut game = playing();
    game.move_down();
    game.next_tick();
    assert_eq!(game.player_position, vec![Point(3, 2), Point(3, 1), Point(2, 1)]);
    assert_eq!(game.outcome(), TickOutcome::Feed);
    game.next_tick_with(Point(10, 10));
    assert_eq!(
        game.player_position,
        vec![Point(3, 3), Point(3, 2), Point(3, 1), Point(2, 1)]
    );
    assert_eq!(game.food, Point(10, 10));
    assert_eq!(game.score, 1);
    assert_eq!(game.speed, 14);
    assert_eq!(game.state, GameState::Playing);
    assert_eq!(game.player_direction, PlayerDirection::Down);
    assert!(game.is_wf());
}

#[test]
fn eating_with_random_food_places_it_on_a_free_cell() {
    for _ in 0..200 {
        let mut game = playing();
        game.move_down();
        game.next_tick();
        let free_before = game.free_cells();
        game.next_tick();
        assert_eq!(
            game.player_position,
            vec![Point(3, 3), Point(3, 2), Point(3, 1), Point(2, 1)]
        );
        assert_eq!(game.score, 1);
        assert_eq!(game.speed, 14);
        assert!(free_before.contains(&game.food));
        assert!(!game.player_position[1..].contains(&game.food));
        assert!(game.is_wf());
    }
}

#[test]
fn head_moves_one_step_and_body_shifts() {
    let steps = [
        (PlayerDirection::Up, Point(5, 4)),
        (PlayerDirection::Left, Point(4, 5)),
    ];
    for (direction, head) in steps {
        let mut game = coiled();
        game.player_direction = direction;
        let before = game.player_position.clone();
        game.next_tick();
        assert_eq!(game.player_position[0], head);
        assert_eq!(game.player_position[0], before[0] + direction.vector());
        assert_eq!(game.player_position[1..], before[..before.len() - 1]);
    }
}

#[test]
fn reversal_is_never_granted() {
    let mut game = GameContext::new();
    game.player_direction = PlayerDirection::Right;
    game.move_left();
    assert_eq!(game.player_direction, PlayerDirection::Right);
    game.player_direction = PlayerDirection::Left;
    game.move_right();
    assert_eq!(game.player_direction, PlayerDirection::Left);
    game.player_direction = PlayerDirection::Up;
    game.move_down();
    assert_eq!(game.player_direction, PlayerDirection::Up);
    game.player_direction = PlayerDirection::Down;
    game.move_up();
    assert_eq!(game.player_direction, PlayerDirection::Down);
}

#[test]
fn other_turns_are_granted_and_the_last_one_wins() {
    let mut game = GameContext::new();
    let before = game.clone();
    game.move_up();
    assert_eq!(game.player_direction, PlayerDirection::Up);
    game.move_left();
    assert_eq!(game.player_direction, PlayerDirection::Left);
    game.move_down();
    assert_eq!(game.player_direction, PlayerDirection::Down);
    game.move_right();
    assert_eq!(game.player_direction, PlayerDirection::Right);
    game.move_right();
    assert_eq!(game, before);
}

#[test]
fn running_into_the_body_ends_the_game() {
    let mut game = coiled();
    game.move_down();
    assert_eq!(game.player_direction, PlayerDirection::Down);
    assert_eq!(game.outcome(), TickOutcome::Crash);
    let before = game.clone();
    game.next_tick();
    assert_eq!(game.state, GameState::Over);
    assert_eq!(game.player_position, before.player_position);
    assert_eq!(game.food, before.food);
    assert_eq!(game.score, before.score);
    assert_eq!(game.speed, before.speed);
    assert_eq!(game.player_direction, before.player_direction);
}

#[test]
fn leaving_the_field_on_the_left_ends_the_game() {
    let mut game = playing();
    game.move_down();
    game.next_tick();
    game.move_left();
    for x in [2, 1, 0] {
        game.next_tick();
        assert_eq!(game.state, GameState::Playing);
        assert_eq!(game.player_position[0], Point(x, 2));
    }
    let before = game.player_position.clone();
    game.next_tick();
    assert_eq!(game.state, GameState::Over);
    assert_eq!(game.player_position, before);
    assert_eq!(game.player_position[0], Point(0, 2));
}

#[test]
fn leaving_the_field_on_the_right_ends_the_game() {
    let mut game = playing();
    for x in 4..40 {
        game.next_tick();
        assert_eq!(game.state, GameState::Playing);
        assert_eq!(game.player_position[0], Point(x, 1));
    }
    let before = game.player_position.clone();
    game.next_tick();
    assert_eq!(game.state, GameState::Over);
    assert_eq!(game.player_position, before);
    assert_eq!(before, vec![Point(39, 1), Point(38, 1), Point(37, 1)]);
}

#[test]
fn leaving_the_field_at_the_top_and_bottom_ends_the_game() {
    let mut game = playing();
    game.move_up();
    game.next_tick();
    assert_eq!(game.player_position[0], Point(3, 0));
    game.next_tick();
    assert_eq!(game.state, GameState::Over);
    assert_eq!(game.player_position, vec![Point(3, 0), Point(3, 1), Point(2, 1)]);

    let mut game = playing();
    game.next_tick();
    game.move_down();
    for y in 2..30 {
        game.next_tick();
        assert_eq!(game.state, GameState::Playing);
        assert_eq!(game.player_position[0], Point(4, y));
    }
    game.next_tick();
    assert_eq!(game.state, GameState::Over);
    assert_eq!(game.player_position[0], Point(4, 29));
}

#[test]
fn a_game_that_is_over_stays_over_under_ticks() {
    let mut game = playing();
    game.move_up();
    game.next_tick();
    game.next_tick();
    assert_eq!(game.state, GameState::Over);
    game.next_tick();
    assert_eq!(game.state, GameState::Over);
    game.move_left();
    game.next_tick();
    assert_eq!(game.state, GameState::Over);
    assert!(game.is_wf());
}

#[test]
fn speed_falls_to_the_top_speed_and_stays_there() {
    let mut game = playing();
    game.player_position = vec![Point(0, 0)];
    game.player_position.insert(0, Point(1, 0));
    game.player_position.insert(0, Point(2, 0));
    let mut expected = vec![14, 13, 12, 11, 10, 9, 8, 7, 6, 5, 5, 5, 5];
    expected.reverse();
    let mut last = game.speed;
    while let Some(speed) = expected.pop() {
        let head = game.player_position[0];
        game.food = Point(head.0 + 1, head.1);
        assert_eq!(game.outcome(), TickOutcome::Feed);
        game.next_tick_with(Point(20, 20));
        assert_eq!(game.speed, speed);
        assert!(game.speed <= last);
        assert!(game.speed >= 5);
        last = game.speed;
    }
    assert_eq!(game.score, 13);
    assert_eq!(game.player_position.len(), 16);
    assert!(game.is_wf());
}

#[test]
fn food_never_lands_on_the_snake_it_was_drawn_against() {
    let mut game = coiled();
    game.player_direction = PlayerDirection::Up;
    game.food = Point(5, 4);
    let body_before = game.player_position.clone();
    game.next_tick();
    assert_eq!(game.score, 3);
    assert!(!body_before.contains(&game.food));
    assert!(game.space.contains(&game.food));
    if game.food != Point(5, 4) {
        assert!(!game.player_position.contains(&game.food));
    }
}

#[test]
fn pause_key_restarts_a_game_that_is_over() {
    let mut game = coiled();
    game.move_down();
    game.next_tick();
    assert_eq!(game.state, GameState::Over);
    game.toggle_pause();
    assert_eq!(game, GameContext::new());
    assert_eq!(game.state, GameState::Paused);
    assert_eq!(game.player_position, vec![Point(3, 1), Point(2, 1), Point(1, 1)]);
    assert_eq!(game.player_direction, PlayerDirection::Right);
    assert_eq!(game.food, Point(3, 3));
    assert_eq!(game.score, 0);
    assert_eq!(game.speed, 15);
}

#[test]
fn pause_key_toggles_between_paused_and_playing() {
    let mut game = coiled();
    let before = game.clone();
    game.toggle_pause();
    assert_eq!(game.state, GameState::Paused);
    assert_eq!(game.player_position, before.player_position);
    assert_eq!(game.score, before.score);
    game.toggle_pause();
    assert_eq!(game, before);
}

#[test]
fn restartgame_keeps_the_phase() {
    let mut game = coiled();
    game.restartgame();
    assert_eq!(game.state, GameState::Playing);
    game.state = GameState::Paused;
    assert_eq!(game, GameContext::new());
}

#[test]
fn outcome_names_what_the_tick_will_do() {
    assert_eq!(GameContext::new().outcome(), TickOutcome::Idle);
    assert_eq!(playing().outcome(), TickOutcome::Advance);
    let mut game = playing();
    game.food = Point(4, 1);
    assert_eq!(game.outcome(), TickOutcome::Feed);
    game.player_position = vec![Point(39, 1), Point(38, 1), Point(37, 1)];
    assert_eq!(game.outcome(), TickOutcome::Crash);
}

#[test]
fn turn_grants_all_but_the_reverse() {
    let all = [
        PlayerDirection::Up,
        PlayerDirection::Down,
        PlayerDirection::Left,
        PlayerDirection::Right,
    ];
    for heading in all {
        for wanted in all {
            let mut game = GameContext::new();
            game.player_direction = heading;
            let before = game.clone();
            game.turn(wanted);
            if wanted == heading.opposite() {
                assert_eq!(game, before);
            } else {
                assert_eq!(game.player_direction, wanted);
                game.player_direction = heading;
                assert_eq!(game, before);
            }
        }
    }
}
