//! Terminal rendering helpers: the loading spinner and the progress bar's
//! state.

use vstd::prelude::*;

verus! {

/// The frames of the loading spinner, in order.
pub open spec fn spinner_frames() -> Seq<char> {
    seq!['\u{280b}', '\u{2819}', '\u{2839}', '\u{2838}', '\u{283c}', '\u{2834}', '\u{2826}', '\u{2827}', '\u{2807}', '\u{280f}']
}

/// The spinner frames as one string.
pub fn animate_loading() -> (r: &'static str)
    ensures
        r@ == spinner_frames(),
{
    let s = "\u{280b}\u{2819}\u{2839}\u{2838}\u{283c}\u{2834}\u{2826}\u{2827}\u{2807}\u{280f}";
    proof {
        reveal_strlit("\u{280b}\u{2819}\u{2839}\u{2838}\u{283c}\u{2834}\u{2826}\u{2827}\u{2807}\u{280f}");
        assert(s@ =~= spinner_frames());
    }
    s
}

/// The spinner frame shown at step `frame`: the frames in turn, round and
/// round.
pub fn spin_char(frame: usize) -> (r: char)
    ensures
        r == spinner_frames()[(frame % 10) as int],
{
    let chars = ['\u{280b}', '\u{2819}', '\u{2839}', '\u{2838}', '\u{283c}', '\u{2834}', '\u{2826}', '\u{2827}', '\u{2807}', '\u{280f}'];
    let i = frame % 10;
    assert(chars@ =~= spinner_frames());
    chars[i]
}

/// A progress bar: how far it is, out of how much, and how wide it is drawn.
pub struct ProgressBar {
    pub current: usize,
    pub total: usize,
    pub width: usize,
}

impl ProgressBar {
    /// A bar at zero out of `total`, thirty cells wide.
    pub fn new(total: usize) -> (r: Self)
        ensures
            r.current == 0 && r.total == total && r.width == 30,
    {
        ProgressBar { current: 0, total, width: 30 }
    }

    /// Moves the bar to `value`.
    pub fn set(&mut self, value: usize)
        ensures
            final(self).current == value,
            final(self).total == old(self).total,
            final(self).width == old(self).width,
    {
        self.current = value;
    }
}

} // verus!
