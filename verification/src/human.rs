//! The timing rules of human-like interaction: how many delays of which
//! size each speed mode uses. The waiting and the pointer curves happen
//! outside; the rules themselves are exact.

use vstd::prelude::*;

verus! {

/// Speed mode for human simulation.
#[derive(Debug, Clone, Copy)]
pub enum HumanSpeed {
    /// Fast mode: minimal delays.
    Fast,
    /// Normal mode: balanced.
    Normal,
    /// Slow mode: maximum realism.
    Slow,
}

impl Default for HumanSpeed {
    /// The balanced mode.
    fn default() -> (r: HumanSpeed)
        ensures
            r is Normal,
    {
        HumanSpeed::Normal
    }
}

/// An ASCII punctuation character, which a human types a little slower.
pub open spec fn spec_is_ascii_punct(c: char) -> bool {
    (33 <= c as u32 <= 47) || (58 <= c as u32 <= 64) || (91 <= c as u32 <= 96) || (123 <= c as u32
        <= 126)
}

impl HumanSpeed {
    /// Bounds in milliseconds for the pause between two pointer moves.
    pub fn move_delay_ms(&self) -> (r: (u64, u64))
        ensures
            self is Fast ==> r == (1u64, 5u64),
            self is Normal ==> r == (5u64, 25u64),
            self is Slow ==> r == (10u64, 50u64),
    {
        match self {
            HumanSpeed::Fast => (1, 5),
            HumanSpeed::Normal => (5, 25),
            HumanSpeed::Slow => (10, 50),
        }
    }

    /// Bounds in milliseconds for the pause between two typed characters.
    pub fn type_delay_ms(&self) -> (r: (u64, u64))
        ensures
            self is Fast ==> r == (10u64, 30u64),
            self is Normal ==> r == (50u64, 150u64),
            self is Slow ==> r == (100u64, 300u64),
    {
        match self {
            HumanSpeed::Fast => (10, 30),
            HumanSpeed::Normal => (50, 150),
            HumanSpeed::Slow => (100, 300),
        }
    }

    /// Bounds for the pause after one character: spaces take 30 ms more,
    /// punctuation 50 ms more, anything else the plain bounds.
    pub fn char_delay_bounds(&self, c: char) -> (r: (u64, u64))
        ensures
            ({
                let (lo, hi) = match self {
                    HumanSpeed::Fast => (10u64, 30u64),
                    HumanSpeed::Normal => (50u64, 150u64),
                    HumanSpeed::Slow => (100u64, 300u64),
                };
                if c == ' ' {
                    r.0 == lo + 30 && r.1 == hi + 30
                } else if spec_is_ascii_punct(c) {
                    r.0 == lo + 50 && r.1 == hi + 50
                } else {
                    r == (lo, hi)
                }
            }),
    {
        let (lo, hi) = self.type_delay_ms();
        if c == ' ' {
            (lo + 30, hi + 30)
        } else if is_ascii_punct(c) {
            (lo + 50, hi + 50)
        } else {
            (lo, hi)
        }
    }
}

/// Whether a character is ASCII punctuation.
fn is_ascii_punct(c: char) -> (r: bool)
    ensures
        r == spec_is_ascii_punct(c),
{
    let v = c as u32;
    (33 <= v && v <= 47) || (58 <= v && v <= 64) || (91 <= v && v <= 96) || (123 <= v && v <= 126)
}

} // verus!
