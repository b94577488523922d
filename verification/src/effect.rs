//! What a run does to the world, one effect at a time.

use vstd::prelude::*;

verus! {

/// A button of the mouse.
#[derive(Debug, Clone, Copy, PartialEq, Eq, Structural)]
pub enum Button {
    Left,
    Right,
}

/// A key that is pressed by name.
#[derive(Debug, Clone, Copy, PartialEq, Eq, Structural)]
pub enum Key {
    Backspace,
    Delete,
    Return,
}

/// One thing for the caller to do. A run is a list of these, to be done in order.
#[derive(Debug, Clone, PartialEq, Eq)]
pub enum Effect {
    /// Print a line for the user.
    Report(String),
    /// Put the cursor at a place on the screen.
    MoveTo { x: i32, y: i32 },
    /// Move the cursor by an offset from where it is.
    MoveBy { x: i32, y: i32 },
    /// Click a button of the mouse once.
    Click(Button),
    /// Press and release a key, `times` times in a row.
    Press { key: Key, times: usize },
    /// Type a text.
    Type(String),
    /// Do nothing for so many milliseconds.
    Sleep(u64),
}

/// An effect as the contracts see it.
pub enum EffectView {
    Report(Seq<char>),
    MoveTo { x: int, y: int },
    MoveBy { x: int, y: int },
    Click(Button),
    Press { key: Key, times: nat },
    Type(Seq<char>),
    Sleep(u64),
}

impl View for Effect {
    type V = EffectView;

    open spec fn view(&self) -> EffectView {
        match *self {
            Effect::Report(line) => EffectView::Report(line@),
            Effect::MoveTo { x, y } => EffectView::MoveTo { x: x as int, y: y as int },
            Effect::MoveBy { x, y } => EffectView::MoveBy { x: x as int, y: y as int },
            Effect::Click(button) => EffectView::Click(button),
            Effect::Press { key, times } => EffectView::Press { key, times: times as nat },
            Effect::Type(text) => EffectView::Type(text@),
            Effect::Sleep(millis) => EffectView::Sleep(millis),
        }
    }
}

/// The views of a list of effects, in the same order.
pub open spec fn effect_views(effects: Seq<Effect>) -> Seq<EffectView> {
    effects.map_values(|e: Effect| e@)
}

/// How often one effect presses `key`.
pub open spec fn presses_by(key: Key, effect: EffectView) -> nat {
    match effect {
        EffectView::Press { key: pressed, times } => if pressed == key {
            times
        } else {
            0
        },
        _ => 0,
    }
}

/// How often the first `n` effects of a list press `key`.
pub open spec fn presses_in(key: Key, effects: Seq<EffectView>, n: nat) -> nat
    decreases n,
{
    if n == 0 {
        0
    } else {
        presses_in(key, effects, (n - 1) as nat) + presses_by(key, effects[n - 1])
    }
}

/// How often a list of effects presses `key`, all in all.
pub open spec fn presses_of(key: Key, effects: Seq<EffectView>) -> nat {
    presses_in(key, effects, effects.len())
}

/// Puts one more effect at the end of a list.
pub fn emit(effects: &mut Vec<Effect>, effect: Effect)
    ensures
        effect_views(final(effects)@) == effect_views(old(effects)@).push(effect@),
        final(effects)@ == old(effects)@.push(effect),
{
    effects.push(effect);
}

} // verus!
