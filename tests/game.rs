use snake::game::GameState;
use snake::model::{Input, Point, SNAKE_LENGTH};

fn keys() -> Input {
    Input { right: false, left: false, up: false, down: false, pause: false, confirm: false }
}

fn pt(x: i32, y: i32) -> Point {
    Point { x, y }
}

/// Runs five frames, the first with `input`; starting one frame after a move,
/// the last of them moves the snake.
fn run_tick(g: &mut GameState, input: Input) {
    g.update_game(&input);
    for _ in 0..4 {
        g.update_game(&keys());
    }
}

/// A snake of five segments heading right, head at (4,0), one frame after a move.
fn snake_of_five() -> GameState {
    let mut g = GameState::new(800, 450);
    assert!(g.place_fruit(pt(1, 0)));
    g.update_game(&keys());
    for x in 2..5 {
        assert!(g.place_fruit(pt(x, 0)));
        run_tick(&mut g, keys());
    }
    assert_eq!(g.counter_tail, 5);
    assert!(g.place_fruit(pt(20, 10)));
    g
}

#[test]
fn initial_state_is_centred() {
    let g = GameState::new(800, 450);
    assert_eq!(g.offset(), pt(25, 16));
    assert_eq!(g.cols(), 25);
    assert_eq!(g.rows(), 14);
    assert_eq!(g.counter_tail, 1);
    assert_eq!(g.snake.len(), SNAKE_LENGTH);
    assert_eq!(g.snake[0], pt(0, 0));
    assert_eq!(g.speed, pt(1, 0));
    assert!(!g.game_over && !g.pause && !g.allow_move && !g.fruit.active);
    assert_eq!(g.frames_counter, 0);
}

#[test]
fn eating_grows_behind_the_tail() {
    let mut g = GameState::new(800, 450);
    assert!(g.place_fruit(pt(1, 0)));
    g.update_game(&keys());
    assert_eq!(g.snake[0], pt(1, 0));
    assert_eq!(g.counter_tail, 2);
    assert_eq!(g.snake[1], pt(0, 0));
    assert!(!g.fruit.active);
    assert_eq!(g.frames_counter, 1);
}

#[test]
fn body_follows_the_head() {
    let mut g = snake_of_five();
    let before: Vec<Point> = g.snake[0..5].to_vec();
    run_tick(&mut g, keys());
    assert_eq!(g.snake[0], pt(5, 0));
    for i in 1..5 {
        assert_eq!(g.snake[i], before[i - 1]);
        assert_eq!(g.snake_position[i], before[i]);
    }
}

#[test]
fn wall_ends_the_game_and_freezes_it() {
    let mut g = GameState::new(800, 450);
    while g.snake[0].x < 24 {
        g.update_game(&keys());
        assert!(!g.game_over);
    }
    let mut frames = 0;
    while !g.game_over {
        g.update_game(&keys());
        frames += 1;
        assert!(frames <= 5);
    }
    let head = g.snake[0];
    let counter = g.frames_counter;
    let mut other = keys();
    other.pause = true;
    other.up = true;
    for _ in 0..10 {
        g.update_game(&other);
    }
    assert!(g.game_over);
    assert_eq!(g.snake[0], head);
    assert_eq!(g.frames_counter, counter);
}

#[test]
fn running_into_the_body_ends_the_game() {
    let mut g = snake_of_five();
    let mut turn = keys();
    turn.down = true;
    run_tick(&mut g, turn);
    assert_eq!(g.snake[0], pt(4, 1));
    let mut turn = keys();
    turn.left = true;
    run_tick(&mut g, turn);
    assert_eq!(g.snake[0], pt(3, 1));
    assert!(!g.game_over);
    let mut turn = keys();
    turn.up = true;
    run_tick(&mut g, turn);
    assert_eq!(g.snake[0], pt(3, 0));
    assert!(g.game_over);
}

#[test]
fn confirm_restarts_after_game_over() {
    let mut g = GameState::new(800, 450);
    while !g.game_over {
        g.update_game(&keys());
    }
    let mut confirm = keys();
    confirm.confirm = true;
    g.update_game(&confirm);
    assert!(!g.game_over);
    assert_eq!(g.counter_tail, 1);
    assert_eq!(g.snake[0], pt(0, 0));
    assert_eq!(g.speed, pt(1, 0));
    assert!(!g.fruit.active);
    assert_eq!(g.frames_counter, 0);
}

#[test]
fn confirm_while_running_does_nothing_special() {
    let mut g = GameState::new(800, 450);
    let mut confirm = keys();
    confirm.confirm = true;
    g.update_game(&confirm);
    assert_eq!(g.frames_counter, 1);
    assert_eq!(g.snake[0], pt(1, 0));
}

#[test]
fn pause_freezes_everything_but_the_flag() {
    let mut g = GameState::new(800, 450);
    g.update_game(&keys());
    let mut pause = keys();
    pause.pause = true;
    g.update_game(&pause);
    assert!(g.pause);
    let head = g.snake[0];
    let counter = g.frames_counter;
    let fruit = g.fruit;
    let mut steer = keys();
    steer.down = true;
    for _ in 0..12 {
        g.update_game(&steer);
    }
    assert!(g.pause);
    assert_eq!(g.snake[0], head);
    assert_eq!(g.frames_counter, counter);
    assert_eq!(g.fruit, fruit);
    assert_eq!(g.speed, pt(1, 0));
    g.update_game(&pause);
    assert!(!g.pause);
    assert_eq!(g.frames_counter, counter + 1);
}

#[test]
fn reversal_is_ignored() {
    let mut g = GameState::new(800, 450);
    g.update_game(&keys());
    assert!(g.allow_move);
    let mut back = keys();
    back.left = true;
    g.update_game(&back);
    assert_eq!(g.speed, pt(1, 0));
    assert!(g.allow_move);
    let mut again = keys();
    again.right = true;
    g.update_game(&again);
    assert_eq!(g.speed, pt(1, 0));
}

#[test]
fn one_turn_per_tick() {
    let mut g = GameState::new(800, 450);
    g.update_game(&keys());
    let mut down = keys();
    down.down = true;
    g.update_game(&down);
    assert_eq!(g.speed, pt(0, 1));
    assert!(!g.allow_move);
    let mut left = keys();
    left.left = true;
    g.update_game(&left);
    g.update_game(&left);
    assert_eq!(g.speed, pt(0, 1));
    let mut all = keys();
    all.left = true;
    all.right = true;
    all.up = true;
    g.update_game(&all);
    assert_eq!(g.speed, pt(0, 1));
    g.update_game(&keys());
    assert_eq!(g.snake[0], pt(1, 1));
    assert!(g.allow_move);
    g.update_game(&all);
    assert_eq!(g.speed, pt(1, 0));
    assert!(!g.allow_move);
}

#[test]
fn several_keys_in_one_frame_turn_once() {
    let mut g = GameState::new(800, 450);
    g.update_game(&keys());
    let mut both = keys();
    both.up = true;
    both.down = true;
    g.update_game(&both);
    assert_eq!(g.speed, pt(0, -1));
}

#[test]
fn fruit_spawns_on_a_free_cell() {
    let mut g = GameState::new(800, 450);
    for _ in 0..200 {
        if g.game_over {
            break;
        }
        g.update_game(&keys());
        if g.fruit.active {
            let f = g.fruit.position;
            assert!(f.x >= 0 && f.x < 25 && f.y >= 0 && f.y < 14);
            assert!(!g.is_occupied(f));
        }
    }
}

#[test]
fn fruit_cells_are_drawn_at_random() {
    let mut seen_elsewhere = false;
    for _ in 0..20 {
        let mut g = GameState::new(800, 450);
        g.update_game(&keys());
        assert!(g.fruit.active);
        if g.fruit.position != g.first_free_cell().unwrap() {
            seen_elsewhere = true;
        }
    }
    assert!(seen_elsewhere);
}

#[test]
fn full_grid_has_no_free_cell() {
    let g = GameState::new(31, 31);
    assert_eq!(g.first_free_cell(), None);
    let g = GameState::new(62, 40);
    assert_eq!(g.first_free_cell(), Some(pt(1, 0)));
    assert!(g.is_occupied(pt(0, 0)));
    assert!(!g.is_occupied(pt(1, 0)));
}

#[test]
fn place_fruit_rejects_taken_and_outside_cells() {
    let mut g = GameState::new(800, 450);
    assert!(!g.place_fruit(pt(0, 0)));
    assert!(!g.place_fruit(pt(25, 0)));
    assert!(!g.place_fruit(pt(0, -1)));
    assert!(!g.fruit.active);
    assert!(g.place_fruit(pt(24, 13)));
    assert!(g.fruit.active);
    assert_eq!(g.fruit.position, pt(24, 13));
}

#[test]
fn one_cell_window_ends_at_the_first_move() {
    let mut g = GameState::new(31, 31);
    g.update_game(&keys());
    assert!(g.game_over);
    assert_eq!(g.snake[0], pt(1, 0));
}

#[test]
fn growth_stops_at_capacity() {
    let mut g = GameState::new(31 * 300, 31);
    assert!(g.place_fruit(pt(1, 0)));
    g.update_game(&keys());
    let mut x = 2;
    while g.counter_tail < SNAKE_LENGTH {
        assert!(g.place_fruit(pt(x, 0)));
        run_tick(&mut g, keys());
        x += 1;
    }
    assert!(!g.game_over);
    assert!(g.place_fruit(pt(x, 0)));
    run_tick(&mut g, keys());
    assert_eq!(g.snake[0], pt(x, 0));
    assert_eq!(g.counter_tail, SNAKE_LENGTH);
    assert!(!g.fruit.active);
}

#[test]
fn frame_counter_counts_running_frames() {
    let mut g = GameState::new(800, 450);
    for _ in 0..7 {
        g.update_game(&keys());
    }
    assert_eq!(g.frames_counter, 7);
    assert_eq!(g.snake[0], pt(2, 0));
}
