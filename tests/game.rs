use snake_game::direction::Direction;
use snake_game::game::{
    DrawCall, GameState, COLOR_APPLE, COLOR_BACKGROUND, COLOR_SNAKE, KEY_CODE_ARROW_DOWN,
    KEY_CODE_ARROW_LEFT, KEY_CODE_ARROW_RIGHT, KEY_CODE_ARROW_UP,
};
use snake_game::snake::{Snake, GRID_HEIGHT, GRID_WIDTH};

fn body(s: &Snake) -> Vec<(i32, i32)> {
    (0..s.len()).map(|k| s.segment(k)).collect()
}

#[test]
fn direction_steps() {
    assert_eq!((Direction::Up.dx(), Direction::Up.dy()), (0, -1));
    assert_eq!((Direction::Down.dx(), Direction::Down.dy()), (0, 1));
    assert_eq!((Direction::Left.dx(), Direction::Left.dy()), (-1, 0));
    assert_eq!((Direction::Right.dx(), Direction::Right.dy()), (1, 0));
}

#[test]
fn direction_opposites() {
    assert!(Direction::Up.is_opposite(Direction::Down));
    assert!(Direction::Down.is_opposite(Direction::Up));
    assert!(Direction::Left.is_opposite(Direction::Right));
    assert!(Direction::Right.is_opposite(Direction::Left));
    assert!(!Direction::Up.is_opposite(Direction::Up));
    assert!(!Direction::Up.is_opposite(Direction::Left));
    assert!(!Direction::Right.is_opposite(Direction::Down));
}

#[test]
fn new_game_starting_state() {
    let g = GameState::new();
    assert_eq!(body(g.snake()), vec![(3, 0), (2, 0), (1, 0), (0, 0)]);
    assert_eq!(g.snake().direction(), Direction::Right);
    assert_eq!(g.snake().head_cell(), (3, 0));
    assert_eq!(g.apple(), (0, 0));
    assert_eq!(g.step_period(), 300);
    assert_eq!(g.score(), 0);
    assert_eq!(g.next_reward(), 10);
    assert!(!g.is_over());
    assert!(!g.snake().eats_himself());
    assert!(!g.snake().is_out_of_bounds(GRID_WIDTH, GRID_HEIGHT));
}

#[test]
fn reversal_is_ignored_for_every_heading() {
    let turns = [
        (KEY_CODE_ARROW_UP, Direction::Up, KEY_CODE_ARROW_DOWN),
        (KEY_CODE_ARROW_DOWN, Direction::Down, KEY_CODE_ARROW_UP),
        (KEY_CODE_ARROW_LEFT, Direction::Left, KEY_CODE_ARROW_RIGHT),
        (KEY_CODE_ARROW_RIGHT, Direction::Right, KEY_CODE_ARROW_LEFT),
    ];
    for (key, dir, back) in turns {
        let mut g = GameState::new();
        // Reach the heading through a perpendicular one.
        if dir == Direction::Left {
            g.on_key_down(KEY_CODE_ARROW_UP);
        }
        g.on_key_down(key);
        assert_eq!(g.snake().direction(), dir);
        g.on_key_down(back);
        assert_eq!(g.snake().direction(), dir);
    }
}

#[test]
fn turning_sideways_changes_heading() {
    let mut g = GameState::new();
    g.on_key_down(KEY_CODE_ARROW_LEFT);
    assert_eq!(g.snake().direction(), Direction::Right);
    g.on_key_down(KEY_CODE_ARROW_DOWN);
    assert_eq!(g.snake().direction(), Direction::Down);
    g.on_key_down(KEY_CODE_ARROW_LEFT);
    assert_eq!(g.snake().direction(), Direction::Left);
    g.on_key_down(KEY_CODE_ARROW_UP);
    assert_eq!(g.snake().direction(), Direction::Up);
    assert_eq!(body(g.snake()), vec![(3, 0), (2, 0), (1, 0), (0, 0)]);
}

#[test]
fn moving_keeps_length_and_drops_tail() {
    let mut g = GameState::new();
    let out = g.step(0);
    assert!(!out.ate_apple);
    assert_eq!(out.new_score, None);
    assert_eq!(out.new_period, None);
    assert!(!out.game_over);
    assert_eq!(body(g.snake()), vec![(4, 0), (3, 0), (2, 0), (1, 0)]);
    g.on_key_down(KEY_CODE_ARROW_DOWN);
    g.step(1);
    assert_eq!(body(g.snake()), vec![(4, 1), (4, 0), (3, 0), (2, 0)]);
    assert_eq!(g.snake().len(), 4);
}

#[test]
fn eating_apple_in_front() {
    let mut g = GameState::new();
    g.teleport_apple(4, 0);
    let out = g.step(0);
    assert!(out.ate_apple);
    assert_eq!(out.new_score, Some(10));
    assert_eq!(out.new_period, Some(275));
    assert!(!out.game_over);
    assert_eq!(g.snake().len(), 5);
    assert_eq!(g.score(), 10);
    assert_eq!(g.next_reward(), 20);
    assert_eq!(g.step_period(), 275);
    assert_eq!(body(g.snake()), vec![(4, 0), (3, 0), (2, 0), (1, 0), (0, 0)]);
}

#[test]
fn growth_keeps_old_segments_after_wrap() {
    let mut g = GameState::new();
    // Two plain moves put the head in the middle of the ring.
    g.step(0);
    g.step(1);
    assert_eq!(body(g.snake()), vec![(5, 0), (4, 0), (3, 0), (2, 0)]);
    g.teleport_apple(6, 0);
    let out = g.step(2);
    assert!(out.ate_apple);
    assert_eq!(body(g.snake()), vec![(6, 0), (5, 0), (4, 0), (3, 0), (2, 0)]);
    g.on_key_down(KEY_CODE_ARROW_DOWN);
    g.teleport_apple(6, 1);
    g.step(3);
    assert_eq!(body(g.snake()), vec![(6, 1), (6, 0), (5, 0), (4, 0), (3, 0), (2, 0)]);
    g.step(4);
    assert_eq!(body(g.snake()), vec![(6, 2), (6, 1), (6, 0), (5, 0), (4, 0), (3, 0)]);
}

#[test]
fn rewards_escalate_and_period_floors() {
    let mut g = GameState::new();
    let mut periods = Vec::new();
    for k in 1..=12 {
        let (x, y) = g.snake().head_cell();
        g.teleport_apple(x + 1, y);
        let out = g.step(k);
        assert!(out.ate_apple);
        assert_eq!(g.score(), 5 * k * (k + 1));
        assert_eq!(out.new_score, Some(5 * k * (k + 1)));
        assert_eq!(g.next_reward(), 10 * (k + 1));
        periods.push(out.new_period);
    }
    assert_eq!(
        periods,
        vec![
            Some(275),
            Some(250),
            Some(225),
            Some(200),
            Some(175),
            Some(150),
            Some(125),
            Some(100),
            Some(75),
            Some(50),
            None,
            None
        ]
    );
    assert_eq!(g.step_period(), 50);
    assert_eq!(g.snake().len(), 16);
}

#[test]
fn head_on_body_is_self_intersection() {
    let mut g = GameState::new();
    g.teleport_apple(4, 0);
    g.step(0);
    g.teleport_apple(20, 20);
    g.on_key_down(KEY_CODE_ARROW_DOWN);
    assert!(!g.step(1).game_over);
    g.on_key_down(KEY_CODE_ARROW_LEFT);
    assert!(!g.step(2).game_over);
    g.on_key_down(KEY_CODE_ARROW_UP);
    let out = g.step(3);
    assert!(out.game_over);
    assert!(g.is_over());
    assert_eq!(body(g.snake()), vec![(3, 0), (3, 1), (4, 1), (4, 0), (3, 0)]);
    assert!(g.snake().eats_himself());
    assert!(!g.snake().is_out_of_bounds(GRID_WIDTH, GRID_HEIGHT));
}

#[test]
fn leaving_the_top_edge_ends_game() {
    let mut g = GameState::new();
    g.on_key_down(KEY_CODE_ARROW_UP);
    let out = g.step(0);
    assert!(out.game_over);
    assert_eq!(g.snake().head_cell(), (3, -1));
    assert!(g.snake().is_out_of_bounds(GRID_WIDTH, GRID_HEIGHT));
    assert!(!g.snake().eats_himself());
}

#[test]
fn bounds_use_given_size() {
    let g = GameState::new();
    let s = g.snake();
    assert!(!s.is_out_of_bounds(4, 1));
    assert!(s.is_out_of_bounds(3, 1));
    assert!(s.is_out_of_bounds(4, 0));
    assert!(s.is_out_of_bounds(0, 0));
}

#[test]
fn running_right_ends_at_right_edge() {
    let mut g = GameState::new();
    for t in 1..=37 {
        let out = g.step(t);
        assert_eq!(g.snake().head_cell(), (3 + t, 0));
        assert!(!out.ate_apple);
        assert_eq!(out.game_over, t == 37);
        assert_eq!(g.snake().len(), 4);
    }
    assert!(g.snake().is_out_of_bounds(GRID_WIDTH, GRID_HEIGHT));
    assert_eq!(g.snake().head_cell(), (GRID_WIDTH as i32, 0));
}

#[test]
fn frame_of_new_game() {
    let mut g = GameState::new();
    g.teleport_apple(7, 9);
    let f = g.repaint();
    assert_eq!(
        f,
        vec![
            DrawCall::SetFillStyle(COLOR_BACKGROUND),
            DrawCall::FillRect(0, 0, 400, 400),
            DrawCall::SetFillStyle(COLOR_SNAKE),
            DrawCall::FillRect(30, 0, 10, 10),
            DrawCall::FillRect(20, 0, 10, 10),
            DrawCall::FillRect(10, 0, 10, 10),
            DrawCall::FillRect(0, 0, 10, 10),
            DrawCall::SetFillStyle(COLOR_APPLE),
            DrawCall::FillRect(70, 90, 10, 10),
            DrawCall::Fill,
        ]
    );
}

#[test]
fn frame_after_leaving_the_field() {
    let mut g = GameState::new();
    g.on_key_down(KEY_CODE_ARROW_UP);
    g.step(0);
    let f = g.repaint();
    assert_eq!(f.len(), 10);
    assert_eq!(f[3], DrawCall::FillRect(30, -10, 10, 10));
    assert_eq!(f[9], DrawCall::Fill);
}

#[test]
fn teleport_moves_only_apple() {
    let mut g = GameState::new();
    g.teleport_apple(39, 39);
    assert_eq!(g.apple(), (39, 39));
    assert_eq!(body(g.snake()), vec![(3, 0), (2, 0), (1, 0), (0, 0)]);
    assert_eq!(g.score(), 0);
}
