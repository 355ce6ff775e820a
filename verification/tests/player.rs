use flappy::display::{Color, DrawCommand};
use flappy::player::{Player, FLAP_VELOCITY, GRAVITY, TERMINAL_VELOCITY};

#[test]
fn new_player_is_at_rest() {
    let p = Player::new(5, 25);
    assert_eq!(p, Player { x: 5, y: 25, velocity: 0 });
}

#[test]
fn speed_constants_are_fifths_of_a_row() {
    assert_eq!(GRAVITY, 1);
    assert_eq!(TERMINAL_VELOCITY, 10);
    assert_eq!(FLAP_VELOCITY, -10);
}

#[test]
fn flap_overrides_any_velocity() {
    for v in [-10, -3, 0, 4, 10, 1000, i32::MIN, i32::MAX] {
        let mut p = Player { x: 7, y: 9, velocity: v };
        p.flap();
        assert_eq!(p, Player { x: 7, y: 9, velocity: -10 });
    }
}

#[test]
fn gravity_grows_velocity_up_to_the_cap() {
    let mut p = Player::new(0, 0);
    for step in 1..=10 {
        p.gravity_to_move();
        assert_eq!(p.velocity, step);
    }
    assert_eq!(p.velocity, 10);
    p.gravity_to_move();
    assert_eq!(p.velocity, 10);
    p.gravity_to_move();
    assert_eq!(p.velocity, 10);
}

#[test]
fn gravity_leaves_a_speed_above_the_cap() {
    let mut p = Player { x: 0, y: 0, velocity: 14 };
    p.gravity_to_move();
    assert_eq!(p, Player { x: 1, y: 2, velocity: 14 });
}

#[test]
fn one_step_from_rest_moves_no_row() {
    let mut p = Player::new(5, 25);
    p.gravity_to_move();
    assert_eq!(p, Player { x: 6, y: 25, velocity: 1 });
}

#[test]
fn fall_from_rest_row_by_row() {
    let mut p = Player::new(0, 0);
    let mut rows = Vec::new();
    for _ in 0..12 {
        p.gravity_to_move();
        rows.push(p.y);
    }
    assert_eq!(rows, vec![0, 0, 0, 0, 1, 2, 3, 4, 5, 7, 9, 11]);
    assert_eq!(p.x, 12);
}

#[test]
fn rise_after_flap_rounds_down() {
    let mut p = Player::new(0, 30);
    p.flap();
    p.gravity_to_move();
    assert_eq!(p, Player { x: 1, y: 28, velocity: -9 });
    p.gravity_to_move();
    assert_eq!(p, Player { x: 2, y: 26, velocity: -8 });
    for _ in 0..3 {
        p.gravity_to_move();
    }
    assert_eq!(p, Player { x: 5, y: 21, velocity: -5 });
    p.gravity_to_move();
    assert_eq!(p, Player { x: 6, y: 20, velocity: -4 });
}

#[test]
fn rows_per_step_is_the_floor() {
    let cases = [
        (0, 0),
        (1, 0),
        (4, 0),
        (5, 1),
        (9, 1),
        (10, 2),
        (-1, -1),
        (-5, -1),
        (-6, -2),
        (-10, -2),
        (-11, -3),
        (i32::MAX, 429496729),
        (i32::MIN, -429496730),
    ];
    for (v, rows) in cases {
        assert_eq!(Player::rows_per_step(v), rows, "speed {}", v);
    }
}

#[test]
fn y_is_clamped_at_the_top() {
    let mut p = Player { x: 0, y: 1, velocity: -11 };
    p.gravity_to_move();
    assert_eq!(p, Player { x: 1, y: 0, velocity: -10 });

    let mut p = Player { x: 0, y: -40, velocity: 0 };
    p.gravity_to_move();
    assert_eq!(p.y, 0);

    let mut p = Player { x: 0, y: i32::MIN, velocity: i32::MIN };
    p.gravity_to_move();
    assert_eq!(p.y, 0);
}

#[test]
fn y_is_never_negative_after_a_step() {
    for y in [-100, -1, 0, 1, 2, 3, 50] {
        for v in [-1000, -11, -10, -6, -5, -1, 0, 1, 9, 10, 11] {
            let mut p = Player { x: 0, y, velocity: v };
            p.gravity_to_move();
            assert!(p.y >= 0, "y {} v {}", y, v);
            assert_eq!(p.x, 1);
        }
    }
}

#[test]
fn player_is_drawn_in_the_first_column() {
    let p = Player { x: 33, y: 17, velocity: 2 };
    assert_eq!(
        p.render(),
        DrawCommand::SetCell { x: 0, y: 17, fg: Color::Yellow, bg: Color::Black, glyph: 64 }
    );
}
