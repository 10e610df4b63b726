use vstd::prelude::*;

verus! {

/// The character of the decimal digit `d`.
pub open spec fn digit_char(d: int) -> char {
    if d == 0 {
        '0'
    } else if d == 1 {
        '1'
    } else if d == 2 {
        '2'
    } else if d == 3 {
        '3'
    } else if d == 4 {
        '4'
    } else if d == 5 {
        '5'
    } else if d == 6 {
        '6'
    } else if d == 7 {
        '7'
    } else if d == 8 {
        '8'
    } else {
        '9'
    }
}

/// The decimal digits of `n`, most significant first, without leading zeros.
pub open spec fn decimal(n: nat) -> Seq<char>
    decreases n,
{
    if n < 10 {
        seq![digit_char(n as int)]
    } else {
        decimal(n / 10).push(digit_char((n % 10) as int))
    }
}

/// The score line shown while playing.
pub open spec fn flower_count_text(n: nat) -> Seq<char> {
    decimal(n) + " Pickups"@
}

/// The time left, in seconds to one decimal (halves rounded up), then `s`.
pub open spec fn game_timer_text(remaining_ms: nat) -> Seq<char> {
    let tenths = (remaining_ms + 50) / 100;
    decimal(tenths / 10) + "."@ + seq![digit_char((tenths % 10) as int)] + "s"@
}

/// The score line of the summary shown when the match is over.
pub open spec fn summary_text(n: nat) -> Seq<char> {
    decimal(n) + " flowers collected"@
}

fn digit_str(d: u64) -> (r: &'static str)
    requires
        d < 10,
    ensures
        r@ == seq![digit_char(d as int)],
{
    match d {
        0 => {
            proof {
                reveal_strlit("0");
            }
            "0"
        },
        1 => {
            proof {
                reveal_strlit("1");
            }
            "1"
        },
        2 => {
            proof {
                reveal_strlit("2");
            }
            "2"
        },
        3 => {
            proof {
                reveal_strlit("3");
            }
            "3"
        },
        4 => {
            proof {
                reveal_strlit("4");
            }
            "4"
        },
        5 => {
            proof {
                reveal_strlit("5");
            }
            "5"
        },
        6 => {
            proof {
                reveal_strlit("6");
            }
            "6"
        },
        7 => {
            proof {
                reveal_strlit("7");
            }
            "7"
        },
        8 => {
            proof {
                reveal_strlit("8");
            }
            "8"
        },
        _ => {
            proof {
                reveal_strlit("9");
            }
            "9"
        },
    }
}

/// `n` written in decimal.
pub fn decimal_string(n: u64) -> (r: String)
    ensures
        r@ == decimal(n as nat),
    decreases n,
{
    if n < 10 {
        String::from_str(digit_str(n))
    } else {
        let mut s = decimal_string(n / 10);
        s.append(digit_str(n % 10));
        s
    }
}

pub fn flower_count_string(n: u64) -> (r: String)
    ensures
        r@ == flower_count_text(n as nat),
{
    let mut s = decimal_string(n);
    s.append(" Pickups");
    s
}

pub fn game_timer_string(remaining_ms: u64) -> (r: String)
    ensures
        r@ == game_timer_text(remaining_ms as nat),
{
    let tenths: u64 = remaining_ms / 100 + if remaining_ms % 100 >= 50 { 1 } else { 0 };
    assert(tenths == (remaining_ms + 50) / 100);
    let mut s = decimal_string(tenths / 10);
    s.append(".");
    s.append(digit_str(tenths % 10));
    s.append("s");
    s
}

pub fn summary_string(n: u64) -> (r: String)
    ensures
        r@ == summary_text(n as nat),
{
    let mut s = decimal_string(n);
    s.append(" flowers collected");
    s
}

/// The status text shown while playing.
#[derive(Debug)]
pub struct Hud {
    pub flower_count_text: String,
    pub game_timer_text: String,
}

/// The summary shown when the match is over.
#[derive(Debug)]
pub struct GameOverUi {
    pub score: u64,
    pub title: String,
    pub message: String,
}

/// What the player chose on the summary screen.
#[derive(Clone, Copy, Debug, PartialEq, Eq, Structural)]
pub enum GameOverButtonChoice {
    Retry,
    Exit,
}

/// The status text of a fresh session: no score, the clock not yet shown.
pub fn spawn_hud() -> (r: Hud)
    ensures
        r.flower_count_text@ == flower_count_text(0),
        r.game_timer_text@ == "Ready..."@,
{
    Hud { flower_count_text: flower_count_string(0), game_timer_text: String::from_str("Ready...") }
}

/// Shows `count` as the score; redraws, and says so, only when the text changes.
pub fn update_flower_count(hud: &mut Hud, count: u64) -> (redrawn: bool)
    ensures
        final(hud).flower_count_text@ == flower_count_text(count as nat),
        final(hud).game_timer_text == old(hud).game_timer_text,
        redrawn == (old(hud).flower_count_text@ != flower_count_text(count as nat)),
{
    let text = flower_count_string(count);
    if hud.flower_count_text != text {
        hud.flower_count_text = text;
        true
    } else {
        false
    }
}

/// Shows `remaining_ms` as the time left; redraws, and says so, only when
/// the text changes.
pub fn update_game_timer(hud: &mut Hud, remaining_ms: u64) -> (redrawn: bool)
    ensures
        final(hud).game_timer_text@ == game_timer_text(remaining_ms as nat),
        final(hud).flower_count_text == old(hud).flower_count_text,
        redrawn == (old(hud).game_timer_text@ != game_timer_text(remaining_ms as nat)),
{
    let text = game_timer_string(remaining_ms);
    if hud.game_timer_text != text {
        hud.game_timer_text = text;
        true
    } else {
        false
    }
}

/// The summary for a match that ended with `count` pickups collected.
pub fn spawn_game_over_ui(count: u64) -> (r: GameOverUi)
    ensures
        r.score == count,
        r.title@ == "Game Over"@,
        r.message@ == summary_text(count as nat),
{
    GameOverUi { score: count, title: String::from_str("Game Over"), message: summary_string(count) }
}

} // verus!
