use flappy::text::{append_number, earned_text, score_text};

#[test]
fn score_line_reads_score_and_number() {
    assert_eq!(score_text(0), "Score: 0");
    assert_eq!(score_text(7), "Score: 7");
    assert_eq!(score_text(10), "Score: 10");
    assert_eq!(score_text(1234567890), "Score: 1234567890");
}

#[test]
fn earned_line_holds_the_score() {
    assert_eq!(earned_text(7), "You earned 7 points");
    assert_eq!(earned_text(0), "You earned 0 points");
    assert_eq!(earned_text(105), "You earned 105 points");
}

#[test]
fn numbers_are_written_as_rust_writes_them() {
    for i in [0, 1, 9, 10, 11, 99, 100, 101, 1000, 65535, -1, -9, -10, -4711, i32::MAX, i32::MIN] {
        let mut s = String::new();
        append_number(&mut s, i);
        assert_eq!(s, format!("{}", i));
    }
}

#[test]
fn append_number_keeps_what_was_there() {
    let mut s = String::from("x=");
    append_number(&mut s, -42);
    append_number(&mut s, 7);
    assert_eq!(s, "x=-427");
}
