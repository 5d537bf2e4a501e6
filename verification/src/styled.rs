//! Terminal text with a colour or an effect per piece. The library says
//! which piece gets which look; the program around it applies the looks.
use crate::text::owned;
use vstd::prelude::*;

verus! {

/// How a piece of terminal text looks.
#[derive(Debug, Clone, Copy, PartialEq, Eq, Structural)]
pub enum Tone {
    Plain,
    Red,
    BrightRed,
    Yellow,
    BrightYellow,
    Green,
    BrightGreen,
    Blue,
    Cyan,
    BrightCyan,
    Blink,
}

/// A piece of terminal text and its look.
#[derive(Debug, Clone)]
pub struct Styled {
    pub tone: Tone,
    pub text: String,
}

/// The looks and characters of a list of pieces.
pub open spec fn styled_view(v: Seq<Styled>) -> Seq<(Tone, Seq<char>)> {
    v.map_values(|s: Styled| (s.tone, s.text@))
}

/// The characters of a list of pieces, looks left out.
pub open spec fn plain_text(v: Seq<(Tone, Seq<char>)>) -> Seq<char>
    decreases v.len(),
{
    if v.len() == 0 {
        seq![]
    } else {
        plain_text(v.drop_last()) + v.last().1
    }
}

/// A piece holding `text` with look `tone`.
pub fn styled(tone: Tone, text: String) -> (s: Styled)
    ensures
        s.tone == tone,
        s.text@ == text@,
{
    Styled { tone, text }
}

/// A piece holding the characters of `text` with look `tone`.
pub fn styled_str(tone: Tone, text: &str) -> (s: Styled)
    ensures
        s.tone == tone,
        s.text@ == text@,
{
    Styled { tone, text: owned(text) }
}

} // verus!
