//! The running score and the scoreboard line built from it.
//!
//! One point is counted per pipe pair spawned. The raw score starts
//! below zero — the first pairs spawn ahead of the bird before it can
//! pass any — and the scoreboard floors the shown value at zero.

use vstd::prelude::*;
use vstd::string::*;

verus! {

/// The raw score, a signed process-wide counter.
#[derive(Clone, Copy, Debug, PartialEq, Eq, Structural)]
pub struct Score(pub i32);

/// What the scoreboard shows of a raw score: the score, floored at zero.
pub open spec fn displayed_score(score: int) -> int {
    if score < 0 {
        0
    } else {
        score
    }
}

/// Law of the scoreboard floor: the shown value is `max(0, score)` —
/// never negative, and equal to the raw score exactly when that score
/// is not negative.
pub proof fn lemma_score_floor(score: int)
    ensures
        displayed_score(score) >= 0,
        score >= 0 ==> displayed_score(score) == score,
        score < 0 ==> displayed_score(score) == 0,
{
}

/// The character for one decimal digit.
pub open spec fn digit_char(d: nat) -> char
    recommends
        d < 10,
{
    if d == 0 {
        '0'
    } else if d == 1 {
        '1'
    } else if d == 2 {
        '2'
    } else if d == 3 {
        '3'
    } else if d == 4 {
        '4'
    } else if d == 5 {
        '5'
    } else if d == 6 {
        '6'
    } else if d == 7 {
        '7'
    } else if d == 8 {
        '8'
    } else {
        '9'
    }
}

/// The decimal digit characters of `n`, most significant first, with no
/// leading zero except for `n == 0` itself.
pub open spec fn dec_digits(n: nat) -> Seq<char>
    decreases n,
{
    if n < 10 {
        seq![digit_char(n)]
    } else {
        dec_digits(n / 10) + seq![digit_char(n % 10)]
    }
}

/// The scoreboard line for a raw score.
pub open spec fn score_text(score: int) -> Seq<char> {
    "Score: "@ + dec_digits(displayed_score(score) as nat)
}

/// The one-character string for a decimal digit.
fn digit_str(d: u32) -> (s: &'static str)
    requires
        d < 10,
    ensures
        s@ == seq![digit_char(d as nat)],
{
    if d == 0 {
        proof {
            reveal_strlit("0");
            assert("0"@ =~= seq![digit_char(0)]);
        }
        "0"
    } else if d == 1 {
        proof {
            reveal_strlit("1");
            assert("1"@ =~= seq![digit_char(1)]);
        }
        "1"
    } else if d == 2 {
        proof {
            reveal_strlit("2");
            assert("2"@ =~= seq![digit_char(2)]);
        }
        "2"
    } else if d == 3 {
        proof {
            reveal_strlit("3");
            assert("3"@ =~= seq![digit_char(3)]);
        }
        "3"
    } else if d == 4 {
        proof {
            reveal_strlit("4");
            assert("4"@ =~= seq![digit_char(4)]);
        }
        "4"
    } else if d == 5 {
        proof {
            reveal_strlit("5");
            assert("5"@ =~= seq![digit_char(5)]);
        }
        "5"
    } else if d == 6 {
        proof {
            reveal_strlit("6");
            assert("6"@ =~= seq![digit_char(6)]);
        }
        "6"
    } else if d == 7 {
        proof {
            reveal_strlit("7");
            assert("7"@ =~= seq![digit_char(7)]);
        }
        "7"
    } else if d == 8 {
        proof {
            reveal_strlit("8");
            assert("8"@ =~= seq![digit_char(8)]);
        }
        "8"
    } else {
        proof {
            reveal_strlit("9");
            assert("9"@ =~= seq![digit_char(9)]);
        }
        "9"
    }
}

/// The decimal representation of `n`, built digit by digit.
fn dec_string(n: u32) -> (s: String)
    ensures
        s@ == dec_digits(n as nat),
    decreases n,
{
    if n < 10 {
        String::from_str(digit_str(n))
    } else {
        let mut s = dec_string(n / 10);
        s.append(digit_str(n % 10));
        s
    }
}

/// The scoreboard line: `"Score: "` followed by the raw score floored
/// at zero, in decimal.
pub fn update_score(score: &Score) -> (text: String)
    ensures
        text@ == score_text(score.0 as int),
{
    let shown: i32 = if score.0 < 0 {
        0
    } else {
        score.0
    };
    let mut text = String::from_str("Score: ");
    let digits = dec_string(shown as u32);
    text.append(digits.as_str());
    text
}

} // verus!
