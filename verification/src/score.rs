//! The score and the text that shows it.

use vstd::prelude::*;
use vstd::string::StringExecFns;

verus! {

/// Points awarded in a session. The score only ever goes up.
#[derive(Debug)]
pub struct Score {
    score: u64,
}

/// The character for a decimal digit.
pub open spec fn digit(d: nat) -> char {
    if d == 0 {
        '0'
    } else if d == 1 {
        '1'
    } else if d == 2 {
        '2'
    } else if d == 3 {
        '3'
    } else if d == 4 {
        '4'
    } else if d == 5 {
        '5'
    } else if d == 6 {
        '6'
    } else if d == 7 {
        '7'
    } else if d == 8 {
        '8'
    } else {
        '9'
    }
}

/// A number written in decimal, without leading zeros.
pub open spec fn decimal(n: nat) -> Seq<char>
    decreases n,
{
    if n < 10 {
        seq![digit(n)]
    } else {
        decimal(n / 10).push(digit(n % 10))
    }
}

/// The text shown for a score: the word, a colon, a space and the number.
pub open spec fn score_text(n: nat) -> Seq<char> {
    seq!['S', 'c', 'o', 'r', 'e', ':', ' '] + decimal(n)
}

/// The one-character string for a decimal digit.
fn digit_str(d: u64) -> (s: &'static str)
    requires
        d < 10,
    ensures
        s@ == seq![digit(d as nat)],
{
    proof {
        reveal_strlit("0");
        reveal_strlit("1");
        reveal_strlit("2");
        reveal_strlit("3");
        reveal_strlit("4");
        reveal_strlit("5");
        reveal_strlit("6");
        reveal_strlit("7");
        reveal_strlit("8");
        reveal_strlit("9");
    }
    match d {
        0 => "0",
        1 => "1",
        2 => "2",
        3 => "3",
        4 => "4",
        5 => "5",
        6 => "6",
        7 => "7",
        8 => "8",
        _ => "9",
    }
}

/// Appends a number in decimal to a string.
fn push_decimal(text: &mut String, n: u64)
    ensures
        final(text)@ == old(text)@ + decimal(n as nat),
    decreases n,
{
    if n >= 10 {
        push_decimal(text, n / 10);
    }
    text.append(digit_str(n % 10));
}

/// The text to show for a score of `points`.
pub fn score_label(points: u64) -> (text: String)
    ensures
        text@ == score_text(points as nat),
{
    proof {
        reveal_strlit("Score: ");
    }
    let mut text = String::from_str("Score: ");
    push_decimal(&mut text, points);
    text
}

impl View for Score {
    type V = nat;

    closed spec fn view(&self) -> nat {
        self.score as nat
    }
}

impl Score {
    /// The number of points.
    pub fn value(&self) -> (points: u64)
        ensures
            points == self@,
    {
        self.score
    }

    /// The text to show for this score.
    pub fn text(&self) -> (text: String)
        ensures
            text@ == score_text(self@),
    {
        score_label(self.score)
    }

    /// Awards one point.
    pub(crate) fn increment(&mut self)
        requires
            old(self)@ < u64::MAX,
        ensures
            final(self)@ == old(self)@ + 1,
    {
        self.score = self.score + 1;
    }
}

impl Default for Score {
    /// No points yet.
    fn default() -> (score: Score)
        ensures
            score@ == 0,
    {
        Score { score: 0 }
    }
}

} // verus!
