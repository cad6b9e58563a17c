//! Score reporting, the game-over protocol and the quit key.

use crate::world::{RunState, World, WorldView};
use vstd::prelude::*;
use vstd::string::*;

verus! {

/// The character of one decimal digit.
pub open spec fn digit_char(d: nat) -> char {
    if d == 0 {
        '0'
    } else if d == 1 {
        '1'
    } else if d == 2 {
        '2'
    } else if d == 3 {
        '3'
    } else if d == 4 {
        '4'
    } else if d == 5 {
        '5'
    } else if d == 6 {
        '6'
    } else if d == 7 {
        '7'
    } else if d == 8 {
        '8'
    } else {
        '9'
    }
}

/// The decimal digits of `n`, most significant first, without leading zeros.
pub open spec fn decimal_digits(n: nat) -> Seq<char>
    decreases n,
{
    if n < 10 {
        seq![digit_char(n)]
    } else {
        decimal_digits(n / 10).push(digit_char(n % 10))
    }
}

/// The text that reports a changed score.
pub open spec fn score_text(value: u32) -> Seq<char> {
    "Score is "@ + decimal_digits(value as nat)
}

/// The text that reports the end of the run.
pub open spec fn game_over_text(score: u32) -> Seq<char> {
    "Game Over! Score: "@ + decimal_digits(score as nat)
}

fn digit_str(d: u32) -> (s: &'static str)
    requires
        d < 10,
    ensures
        s@ == seq![digit_char(d as nat)],
{
    proof {
        reveal_strlit("0");
        reveal_strlit("1");
        reveal_strlit("2");
        reveal_strlit("3");
        reveal_strlit("4");
        reveal_strlit("5");
        reveal_strlit("6");
        reveal_strlit("7");
        reveal_strlit("8");
        reveal_strlit("9");
    }
    let s: &'static str = if d == 0 {
        "0"
    } else if d == 1 {
        "1"
    } else if d == 2 {
        "2"
    } else if d == 3 {
        "3"
    } else if d == 4 {
        "4"
    } else if d == 5 {
        "5"
    } else if d == 6 {
        "6"
    } else if d == 7 {
        "7"
    } else if d == 8 {
        "8"
    } else {
        "9"
    };
    assert(s@ =~= seq![digit_char(d as nat)]);
    s
}

/// Writes a number in decimal.
pub fn decimal_text(n: u32) -> (s: String)
    ensures
        s@ == decimal_digits(n as nat),
    decreases n,
{
    if n < 10 {
        String::from_str(digit_str(n))
    } else {
        let mut s = decimal_text(n / 10);
        s.append(digit_str(n % 10));
        assert(s@ =~= decimal_digits(n as nat));
        s
    }
}

/// Writes the report of a changed score.
pub fn score_report(value: u32) -> (s: String)
    ensures
        s@ == score_text(value),
{
    let mut s = String::from_str("Score is ");
    let digits = decimal_text(value);
    s.append(digits.as_str());
    s
}

/// Writes the report of the end of the run.
pub fn game_over_report(score: u32) -> (s: String)
    ensures
        s@ == game_over_text(score),
{
    let mut s = String::from_str("Game Over! Score: ");
    let digits = decimal_text(score);
    s.append(digits.as_str());
    s
}

/// The world after score reporting: the score counts as reported.
pub open spec fn update_score_spec(w: WorldView) -> WorldView {
    WorldView { reported_score: w.score.value, ..w }
}

/// Reports the score when it differs from the one last reported, and
/// remembers it.
pub fn update_score(world: &mut World) -> (report: Option<String>)
    ensures
        final(world)@ == update_score_spec(old(world)@),
        report.is_some() <==> old(world).score.value != old(world).reported_score,
        report matches Some(s) ==> s@ == score_text(old(world).score.value),
{
    if world.score.value != world.reported_score {
        world.reported_score = world.score.value;
        Some(score_report(world.score.value))
    } else {
        None
    }
}

/// Whether handling the waiting signal ends the run: a signal waits and the
/// run is not over yet.
pub open spec fn ends_run(w: WorldView) -> bool {
    w.pending.is_some() && w.state == RunState::Running
}

/// The world after the waiting signal has been handled: the signal is
/// consumed, and a run that had one is over for good.
pub open spec fn handle_game_over_spec(w: WorldView) -> WorldView {
    WorldView {
        pending: None,
        state: if w.pending.is_some() {
            RunState::Over
        } else {
            w.state
        },
        ..w
    }
}

/// Consumes the waiting game-over signal. On the one signal that ends the
/// run it returns the final report, which is also the request to stop; on
/// every other call it returns nothing.
pub fn handle_game_over(world: &mut World) -> (report: Option<String>)
    ensures
        final(world)@ == handle_game_over_spec(old(world)@),
        report.is_some() <==> ends_run(old(world)@),
        report matches Some(s) ==> s@ == game_over_text(old(world).pending.unwrap().score),
{
    match world.pending {
        Some(signal) => {
            world.pending = None;
            let first: bool = world.state == RunState::Running;
            world.state = RunState::Over;
            if first {
                Some(game_over_report(signal.score))
            } else {
                None
            }
        },
        None => None,
    }
}

/// Whether the quit key asks to stop: exactly when it is held.
pub fn exit_game(escape_pressed: bool) -> (quit: bool)
    ensures
        quit == escape_pressed,
{
    escape_pressed
}

} // verus!
