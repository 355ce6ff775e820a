//! The texts the game shows, and numbers written out in decimal.

use vstd::prelude::*;
use vstd::string::*;

verus! {

/// The character for one decimal digit.
pub open spec fn digit(d: int) -> char {
    if d == 0 {
        '0'
    } else if d == 1 {
        '1'
    } else if d == 2 {
        '2'
    } else if d == 3 {
        '3'
    } else if d == 4 {
        '4'
    } else if d == 5 {
        '5'
    } else if d == 6 {
        '6'
    } else if d == 7 {
        '7'
    } else if d == 8 {
        '8'
    } else {
        '9'
    }
}

/// A natural number in decimal, without leading zeros.
pub open spec fn decimal(n: nat) -> Seq<char>
    decreases n,
{
    if n < 10 {
        seq![digit(n as int)]
    } else {
        decimal(n / 10).push(digit((n % 10) as int))
    }
}

/// An integer in decimal, with a minus sign before a negative one.
pub open spec fn number(i: int) -> Seq<char> {
    if i < 0 {
        seq!['-'] + decimal((-i) as nat)
    } else {
        decimal(i as nat)
    }
}

/// The number that a string of decimal digits stands for.
pub open spec fn value(digits: Seq<char>) -> nat
    decreases digits.len(),
{
    if digits.len() == 0 {
        0
    } else {
        10 * value(digits.drop_last()) + digit_value(digits.last())
    }
}

/// The digit that a character stands for; 0 for any other character.
pub open spec fn digit_value(c: char) -> nat {
    if c == '1' {
        1
    } else if c == '2' {
        2
    } else if c == '3' {
        3
    } else if c == '4' {
        4
    } else if c == '5' {
        5
    } else if c == '6' {
        6
    } else if c == '7' {
        7
    } else if c == '8' {
        8
    } else if c == '9' {
        9
    } else {
        0
    }
}

/// Reading back what `decimal` wrote gives the number again, so no two
/// numbers are written alike.
pub proof fn lemma_decimal_reads_back(n: nat)
    ensures
        value(decimal(n)) == n,
        decimal(n).len() >= 1,
    decreases n,
{
    if n < 10 {
        let s = decimal(n);
        assert(s.drop_last() =~= Seq::<char>::empty());
        assert(value(s.drop_last()) == 0);
        assert(s.last() == digit(n as int));
    } else {
        lemma_decimal_reads_back(n / 10);
        let s = decimal(n);
        assert(s.drop_last() =~= decimal(n / 10));
        assert(s.last() == digit((n % 10) as int));
    }
}

/// What the playing screen says about the controls.
pub open spec fn flap_hint() -> Seq<char> {
    "Press Space to flap"@
}

/// The score line of the playing screen.
pub open spec fn score_line(score: int) -> Seq<char> {
    "Score: "@ + number(score)
}

/// The title of the menu.
pub open spec fn welcome() -> Seq<char> {
    "Welcome to Flappy Dragon"@
}

/// The first line after a loss.
pub open spec fn death_notice() -> Seq<char> {
    "You are dead"@
}

/// The line after a loss that gives the final score.
pub open spec fn earned_line(score: int) -> Seq<char> {
    "You earned "@ + number(score) + " points"@
}

/// The prompt for a new game.
pub open spec fn play_prompt() -> Seq<char> {
    "(P) Play Game"@
}

/// The prompt for leaving.
pub open spec fn quit_prompt() -> Seq<char> {
    "(Q) Quit Game"@
}

/// One decimal digit as a string.
fn digit_str(d: u32) -> (s: &'static str)
    requires
        d < 10,
    ensures
        s@ == seq![digit(d as int)],
{
    proof {
        reveal_strlit("0");
        reveal_strlit("1");
        reveal_strlit("2");
        reveal_strlit("3");
        reveal_strlit("4");
        reveal_strlit("5");
        reveal_strlit("6");
        reveal_strlit("7");
        reveal_strlit("8");
        reveal_strlit("9");
    }
    let s = if d == 0 {
        "0"
    } else if d == 1 {
        "1"
    } else if d == 2 {
        "2"
    } else if d == 3 {
        "3"
    } else if d == 4 {
        "4"
    } else if d == 5 {
        "5"
    } else if d == 6 {
        "6"
    } else if d == 7 {
        "7"
    } else if d == 8 {
        "8"
    } else {
        "9"
    };
    assert(s@ =~= seq![digit(d as int)]);
    s
}

/// Writes a natural number in decimal at the end of `s`.
fn append_decimal(s: &mut String, n: u32)
    ensures
        final(s)@ == old(s)@ + decimal(n as nat),
    decreases n,
{
    if n >= 10 {
        append_decimal(s, n / 10);
    }
    s.append(digit_str(n % 10));
    assert(final(s)@ =~= old(s)@ + decimal(n as nat));
}

/// Writes an integer in decimal at the end of `s`.
pub fn append_number(s: &mut String, i: i32)
    ensures
        final(s)@ == old(s)@ + number(i as int),
{
    if i < 0 {
        s.append("-");
        proof {
            reveal_strlit("-");
        }
        let magnitude: u32 = (-(i as i64)) as u32;
        append_decimal(s, magnitude);
        assert(final(s)@ =~= old(s)@ + number(i as int));
    } else {
        append_decimal(s, i as u32);
    }
}

/// The score line of the playing screen, as a string.
pub fn score_text(score: i32) -> (s: String)
    ensures
        s@ == score_line(score as int),
{
    let mut s = String::from_str("Score: ");
    append_number(&mut s, score);
    s
}

/// The line that gives the final score, as a string.
pub fn earned_text(score: i32) -> (s: String)
    ensures
        s@ == earned_line(score as int),
{
    let mut s = String::from_str("You earned ");
    append_number(&mut s, score);
    s.append(" points");
    s
}

} // verus!
