use flappy::display::{Color, DrawCommand};
use flappy::obstacle::Obstacle;
use flappy::player::Player;

#[test]
fn gap_shrinks_with_the_score_down_to_two() {
    let cases = [(0, 20), (1, 19), (5, 15), (17, 3), (18, 2), (19, 2), (20, 2), (100, 2)];
    for (score, size) in cases {
        assert_eq!(Obstacle::with_gap(80, 10, score).size, size, "score {}", score);
        assert_eq!(Obstacle::new(80, score).size, size, "score {}", score);
    }
    assert_eq!(Obstacle::new(80, i32::MAX).size, 2);
}

#[test]
fn with_gap_keeps_column_and_row() {
    assert_eq!(Obstacle::with_gap(-7, 39, 4), Obstacle { x: -7, gap_y: 39, size: 16 });
}

#[test]
fn random_gap_is_in_range() {
    for i in 0..500 {
        let o = Obstacle::new(i, 0);
        assert!(10 <= o.gap_y && o.gap_y < 40, "gap_y {}", o.gap_y);
        assert_eq!(o.x, i);
    }
}

#[test]
fn random_gap_varies() {
    let first = Obstacle::new(80, 0).gap_y;
    let mut differs = false;
    for _ in 0..200 {
        if Obstacle::new(80, 0).gap_y != first {
            differs = true;
        }
    }
    assert!(differs);
}

#[test]
fn hit_only_in_the_wall_column() {
    let o = Obstacle::with_gap(40, 20, 10);
    assert_eq!(o.size, 10);
    for y in [-5, 0, 14, 15, 20, 25, 26, 49, 90] {
        assert!(!o.hit_obstacle(&Player { x: 39, y, velocity: 0 }));
        assert!(!o.hit_obstacle(&Player { x: 41, y, velocity: 0 }));
    }
}

#[test]
fn hit_strictly_outside_the_gap() {
    let o = Obstacle::with_gap(40, 20, 10);
    let at = |y: i32| o.hit_obstacle(&Player { x: 40, y, velocity: 3 });
    assert!(at(0));
    assert!(at(14));
    assert!(!at(15));
    assert!(!at(20));
    assert!(!at(25));
    assert!(at(26));
    assert!(at(49));
    assert!(at(-1));
}

#[test]
fn hit_with_an_odd_gap() {
    let o = Obstacle::with_gap(3, 30, 17);
    assert_eq!(o.size, 3);
    let at = |y: i32| o.hit_obstacle(&Player { x: 3, y, velocity: 0 });
    assert!(at(28));
    assert!(!at(29));
    assert!(!at(31));
    assert!(at(32));
}

#[test]
fn wall_is_drawn_above_and_below_the_gap() {
    let o = Obstacle::with_gap(30, 20, 10);
    let commands = o.render(10);
    let mut rows = Vec::new();
    for c in &commands {
        match c {
            DrawCommand::SetCell { x, y, fg, bg, glyph } => {
                assert_eq!(*x, 20);
                assert_eq!(*fg, Color::Red);
                assert_eq!(*bg, Color::Black);
                assert_eq!(*glyph, 124);
                rows.push(*y);
            }
            other => panic!("not a cell: {:?}", other),
        }
    }
    let mut expected: Vec<i32> = (0..15).collect();
    expected.extend(25..50);
    assert_eq!(rows, expected);
}

#[test]
fn wall_with_the_highest_and_widest_gap() {
    let o = Obstacle::with_gap(80, 10, 0);
    let commands = o.render(5);
    assert_eq!(commands.len(), 30);
    assert_eq!(
        commands[0],
        DrawCommand::SetCell { x: 75, y: 20, fg: Color::Red, bg: Color::Black, glyph: 124 }
    );
    assert_eq!(
        commands[29],
        DrawCommand::SetCell { x: 75, y: 49, fg: Color::Red, bg: Color::Black, glyph: 124 }
    );
}

#[test]
fn wall_behind_the_player_is_still_handed_out() {
    let o = Obstacle::with_gap(5, 39, 18);
    let commands = o.render(6);
    assert_eq!(commands.len(), 38 + 10);
    assert_eq!(
        commands[0],
        DrawCommand::SetCell { x: -1, y: 0, fg: Color::Red, bg: Color::Black, glyph: 124 }
    );
    assert_eq!(
        commands[38],
        DrawCommand::SetCell { x: -1, y: 40, fg: Color::Red, bg: Color::Black, glyph: 124 }
    );
}
