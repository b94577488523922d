//! What an action does: the origin it leaves, the effects it has, and whether the run
//! ends with it.

use crate::config::{Action, ActionView};
use crate::content::{
    date_placeholder, delete_count, delete_count_of, is_date_placeholder, resolve_content_on,
    resolved_content,
};
use crate::date::Date;
use crate::effect::{
    effect_views, emit, presses_in, presses_of, Button, Effect, EffectView, Key,
};
use crate::report::{
    backspace_line, backspace_text, change_line, change_text, date_line, date_text, delete_line,
    delete_text, double_click_line, double_click_text, enter_line, enter_text, input_line,
    input_text, left_click_line, left_click_text, missing_initial_line, missing_initial_text,
    move_click_line, move_click_text, move_initial_line, move_initial_text, move_line,
    move_relative_line, move_relative_text, move_text, right_click_line, right_click_text,
    sleep_line, sleep_text,
};
use vstd::prelude::*;

verus! {

/// The point that relative coordinates are counted from.
#[derive(Debug, Clone, Copy, PartialEq, Eq, Structural)]
pub struct Origin {
    pub x: i32,
    pub y: i32,
}

impl Origin {
    /// The origin of a run that has set none: the corner of the screen.
    pub open spec fn zero() -> Origin {
        Origin { x: 0, y: 0 }
    }

    /// The origin at the start of a run.
    pub fn start() -> (origin: Origin)
        ensures
            origin == Origin::zero(),
    {
        Origin { x: 0, y: 0 }
    }
}

/// Where the coordinates `(x, y)` point: themselves, or, where they are relative, the
/// origin moved by them.
pub open spec fn resolved(x: i32, y: i32, relative: bool, origin: Origin) -> (int, int) {
    if relative {
        (x + origin.x, y + origin.y)
    } else {
        (x as int, y as int)
    }
}

/// Whether the place that the coordinates point to can be written in 32 bits.
pub open spec fn resolvable(x: i32, y: i32, relative: bool, origin: Origin) -> bool {
    relative ==> i32::MIN <= x + origin.x <= i32::MAX && i32::MIN <= y + origin.y <= i32::MAX
}

/// Tells whether `resolve` can be asked for these coordinates.
pub fn can_resolve(x: i32, y: i32, relative: bool, origin: Origin) -> (ok: bool)
    ensures
        ok == resolvable(x, y, relative, origin),
{
    if relative {
        let to_x: i64 = x as i64 + origin.x as i64;
        let to_y: i64 = y as i64 + origin.y as i64;
        -2147483648 <= to_x && to_x <= 2147483647 && -2147483648 <= to_y && to_y <= 2147483647
    } else {
        true
    }
}

/// Resolves coordinates against the origin.
pub fn resolve(x: i32, y: i32, relative: bool, origin: Origin) -> (place: (i32, i32))
    requires
        resolvable(x, y, relative, origin),
    ensures
        (place.0 as int, place.1 as int) == resolved(x, y, relative, origin),
{
    if relative {
        (x + origin.x, y + origin.y)
    } else {
        (x, y)
    }
}

/// The coordinates that `action` names for the cursor, with their relative flag, where
/// it names a place at all.
pub open spec fn place_of(action: ActionView) -> Option<(i32, i32, bool)> {
    match action {
        ActionView::MOVE { x, y, relative, .. } => Some((x, y, relative)),
        ActionView::MOVECLICK { x, y, relative, .. } => Some((x, y, relative)),
        ActionView::CHANGE { x, y, relative, .. } => Some((x, y, relative)),
        _ => None,
    }
}

/// Whether the place that `action` names, if any, can be resolved against `origin`.
pub open spec fn in_range(action: ActionView, origin: Origin) -> bool {
    place_of(action) matches Some((x, y, relative)) ==> resolvable(x, y, relative, origin)
}

/// The origin that `action` leaves behind: only setting and unsetting change it.
pub open spec fn origin_after(action: ActionView, origin: Origin) -> Origin {
    match action {
        ActionView::SETORIGIN { x, y } => Origin { x, y },
        ActionView::UNSETORIGIN => Origin::zero(),
        _ => origin,
    }
}

/// Whether a position can be the initial one: neither coordinate is negative.
pub open spec fn valid_initial(init_x: i32, init_y: i32) -> bool {
    init_x >= 0 && init_y >= 0
}

/// Whether the run ends at `action`: it asks for the initial position and there is none.
pub open spec fn halts(action: ActionView, init_x: i32, init_y: i32) -> bool {
    action is MOVEINIT && !valid_initial(init_x, init_y)
}

/// Whether the effects of `action` depend on the day on which it is executed.
pub open spec fn needs_date(action: ActionView) -> bool {
    match action {
        ActionView::DATE { .. } => true,
        ActionView::INPUT { content, .. } => content == date_placeholder(),
        ActionView::CHANGE { content, .. } => content == date_placeholder(),
        _ => false,
    }
}

/// The end of every executed action: the wait is announced, then waited.
pub open spec fn pause(wait: u64) -> Seq<EffectView> {
    seq![EffectView::Report(sleep_text(wait)), EffectView::Sleep(wait)]
}

/// How often a row of `number` backspaces presses the key: not at all for a negative
/// number.
pub open spec fn backspaces(number: i32) -> nat {
    if number < 0 {
        0
    } else {
        number as nat
    }
}

/// The effects of `action`, in their order, where the origin is `origin`, the initial
/// position `(init_x, init_y)` and the day `today`. Places are resolved first, then the
/// text; only then does anything happen.
pub open spec fn effects_of(
    action: ActionView,
    origin: Origin,
    init_x: i32,
    init_y: i32,
    today: Date,
) -> Seq<EffectView> {
    match action {
        ActionView::SETORIGIN { .. } => Seq::empty(),
        ActionView::UNSETORIGIN => Seq::empty(),
        ActionView::MOVEINIT { wait } => if valid_initial(init_x, init_y) {
            seq![
                EffectView::Report(move_initial_text(init_x as int, init_y as int)),
                EffectView::MoveTo { x: init_x as int, y: init_y as int },
            ] + pause(wait)
        } else {
            seq![EffectView::Report(missing_initial_text())]
        },
        ActionView::MOVE { x, y, wait, relative } => {
            let to = resolved(x, y, relative, origin);
            seq![
                EffectView::Report(move_text(to.0, to.1)),
                EffectView::MoveTo { x: to.0, y: to.1 },
            ] + pause(wait)
        },
        ActionView::MOVECLICK { x, y, wait, relative } => {
            let to = resolved(x, y, relative, origin);
            seq![
                EffectView::Report(move_click_text(to.0, to.1)),
                EffectView::MoveTo { x: to.0, y: to.1 },
                EffectView::Sleep(10),
                EffectView::Click(Button::Left),
            ] + pause(wait)
        },
        ActionView::MOVERELATIVE { x, y, wait } => seq![
            EffectView::Report(move_relative_text(x as int, y as int)),
            EffectView::MoveBy { x: x as int, y: y as int },
        ] + pause(wait),
        ActionView::LEFTCLICK { wait } => seq![
            EffectView::Report(left_click_text()),
            EffectView::Click(Button::Left),
        ] + pause(wait),
        ActionView::DOUBLECLICK { wait } => seq![
            EffectView::Report(double_click_text()),
            EffectView::Click(Button::Left),
            EffectView::Click(Button::Left),
        ] + pause(wait),
        ActionView::RIGHTCLICK { wait } => seq![
            EffectView::Report(right_click_text()),
            EffectView::Click(Button::Right),
        ] + pause(wait),
        ActionView::WAIT { wait } => pause(wait),
        ActionView::BACKSPACE { number, wait } => seq![
            EffectView::Report(backspace_text(number as int)),
            EffectView::Press { key: Key::Backspace, times: backspaces(number) },
        ] + pause(wait),
        ActionView::DELETE { wait } => seq![
            EffectView::Report(delete_text()),
            EffectView::Press { key: Key::Delete, times: 1 },
        ] + pause(wait),
        ActionView::INPUT { content, wait } => {
            let text = resolved_content(content, today);
            seq![EffectView::Report(input_text(text)), EffectView::Type(text)] + pause(wait)
        },
        ActionView::CHANGE { x, y, content, delnum, wait, relative } => {
            let to = resolved(x, y, relative, origin);
            let text = resolved_content(content, today);
            seq![
                EffectView::Report(change_text(to.0, to.1, text)),
                EffectView::MoveTo { x: to.0, y: to.1 },
                EffectView::Sleep(10),
                EffectView::Click(Button::Left),
                EffectView::Sleep(50),
                EffectView::Press { key: Key::Backspace, times: delete_count_of(delnum, text) },
                EffectView::Sleep(300),
                EffectView::Type(text),
            ] + pause(wait)
        },
        ActionView::DATE { wait } => seq![
            EffectView::Report(date_text(today.text())),
            EffectView::Type(today.text()),
        ] + pause(wait),
        ActionView::ENTER { wait } => seq![
            EffectView::Report(enter_text()),
            EffectView::Press { key: Key::Return, times: 1 },
        ] + pause(wait),
    }
}

/// Tells whether the places of `action` can be resolved against `origin`.
pub fn action_in_range(action: &Action, origin: Origin) -> (ok: bool)
    ensures
        ok == in_range(action@, origin),
{
    match action {
        Action::MOVE { x, y, relative, .. } => can_resolve(*x, *y, *relative, origin),
        Action::MOVECLICK { x, y, relative, .. } => can_resolve(*x, *y, *relative, origin),
        Action::CHANGE { x, y, relative, .. } => can_resolve(*x, *y, *relative, origin),
        _ => true,
    }
}

/// The origin after `action`.
pub fn next_origin(action: &Action, origin: Origin) -> (next: Origin)
    ensures
        next == origin_after(action@, origin),
{
    match action {
        Action::SETORIGIN { x, y } => Origin { x: *x, y: *y },
        Action::UNSETORIGIN => Origin { x: 0, y: 0 },
        _ => origin,
    }
}

/// Tells whether the run ends at `action`.
pub fn action_halts(action: &Action, init_x: i32, init_y: i32) -> (halt: bool)
    ensures
        halt == halts(action@, init_x, init_y),
{
    match action {
        Action::MOVEINIT { .. } => init_x < 0 || init_y < 0,
        _ => false,
    }
}

/// Tells whether the clock has to be read for `action`.
pub fn action_needs_date(action: &Action) -> (needed: bool)
    ensures
        needed == needs_date(action@),
{
    match action {
        Action::DATE { .. } => true,
        Action::INPUT { content, .. } => is_date_placeholder(content),
        Action::CHANGE { content, .. } => is_date_placeholder(content),
        _ => false,
    }
}

/// Ends the effects of an action with its pause.
fn emit_pause(effects: &mut Vec<Effect>, wait: u64)
    ensures
        effect_views(final(effects)@) == effect_views(old(effects)@) + pause(wait),
{
    emit(effects, Effect::Report(sleep_line(wait)));
    emit(effects, Effect::Sleep(wait));
}

/// The effects of `action` on the day `today`.
pub fn effects_on(action: &Action, origin: Origin, init_x: i32, init_y: i32, today: &Date) -> (effects:
    Vec<Effect>)
    requires
        in_range(action@, origin),
    ensures
        effect_views(effects@) == effects_of(action@, origin, init_x, init_y, *today),
{
    let mut effects: Vec<Effect> = Vec::new();
    match action {
        Action::SETORIGIN { .. } => {},
        Action::UNSETORIGIN => {},
        Action::MOVEINIT { wait } => {
            if init_x < 0 || init_y < 0 {
                emit(&mut effects, Effect::Report(missing_initial_line()));
            } else {
                emit(&mut effects, Effect::Report(move_initial_line(init_x, init_y)));
                emit(&mut effects, Effect::MoveTo { x: init_x, y: init_y });
                emit_pause(&mut effects, *wait);
            }
        },
        Action::MOVE { x, y, wait, relative } => {
            let to = resolve(*x, *y, *relative, origin);
            emit(&mut effects, Effect::Report(move_line(to.0, to.1)));
            emit(&mut effects, Effect::MoveTo { x: to.0, y: to.1 });
            emit_pause(&mut effects, *wait);
        },
        Action::MOVECLICK { x, y, wait, relative } => {
            let to = resolve(*x, *y, *relative, origin);
            emit(&mut effects, Effect::Report(move_click_line(to.0, to.1)));
            emit(&mut effects, Effect::MoveTo { x: to.0, y: to.1 });
            emit(&mut effects, Effect::Sleep(10));
            emit(&mut effects, Effect::Click(Button::Left));
            emit_pause(&mut effects, *wait);
        },
        Action::MOVERELATIVE { x, y, wait } => {
            emit(&mut effects, Effect::Report(move_relative_line(*x, *y)));
            emit(&mut effects, Effect::MoveBy { x: *x, y: *y });
            emit_pause(&mut effects, *wait);
        },
        Action::LEFTCLICK { wait } => {
            emit(&mut effects, Effect::Report(left_click_line()));
            emit(&mut effects, Effect::Click(Button::Left));
            emit_pause(&mut effects, *wait);
        },
        Action::DOUBLECLICK { wait } => {
            emit(&mut effects, Effect::Report(double_click_line()));
            emit(&mut effects, Effect::Click(Button::Left));
            emit(&mut effects, Effect::Click(Button::Left));
            emit_pause(&mut effects, *wait);
        },
        Action::RIGHTCLICK { wait } => {
            emit(&mut effects, Effect::Report(right_click_line()));
            emit(&mut effects, Effect::Click(Button::Right));
            emit_pause(&mut effects, *wait);
        },
        Action::WAIT { wait } => {
            emit_pause(&mut effects, *wait);
        },
        Action::BACKSPACE { number, wait } => {
            let times: usize = if *number < 0 {
                0
            } else {
                *number as usize
            };
            emit(&mut effects, Effect::Report(backspace_line(*number)));
            emit(&mut effects, Effect::Press { key: Key::Backspace, times });
            emit_pause(&mut effects, *wait);
        },
        Action::DELETE { wait } => {
            emit(&mut effects, Effect::Report(delete_line()));
            emit(&mut effects, Effect::Press { key: Key::Delete, times: 1 });
            emit_pause(&mut effects, *wait);
        },
        Action::INPUT { content, wait } => {
            let text = resolve_content_on(content, today);
            emit(&mut effects, Effect::Report(input_line(text.as_str())));
            emit(&mut effects, Effect::Type(text));
            emit_pause(&mut effects, *wait);
        },
        Action::CHANGE { x, y, content, delnum, wait, relative } => {
            let to = resolve(*x, *y, *relative, origin);
            let text = resolve_content_on(content, today);
            let times = delete_count(*delnum, text.as_str());
            emit(&mut effects, Effect::Report(change_line(to.0, to.1, text.as_str())));
            emit(&mut effects, Effect::MoveTo { x: to.0, y: to.1 });
            emit(&mut effects, Effect::Sleep(10));
            emit(&mut effects, Effect::Click(Button::Left));
            emit(&mut effects, Effect::Sleep(50));
            emit(&mut effects, Effect::Press { key: Key::Backspace, times });
            emit(&mut effects, Effect::Sleep(300));
            emit(&mut effects, Effect::Type(text));
            emit_pause(&mut effects, *wait);
        },
        Action::DATE { wait } => {
            let text = today.to_text();
            emit(&mut effects, Effect::Report(date_line(text.as_str())));
            emit(&mut effects, Effect::Type(text));
            emit_pause(&mut effects, *wait);
        },
        Action::ENTER { wait } => {
            emit(&mut effects, Effect::Report(enter_line()));
            emit(&mut effects, Effect::Press { key: Key::Return, times: 1 });
            emit_pause(&mut effects, *wait);
        },
    }
    effects
}

/// An action that names a place reports first and then puts the cursor there: at the
/// coordinates themselves, or, where they are relative, at the coordinates plus the
/// origin.
pub proof fn lemma_place_is_resolved(
    action: ActionView,
    origin: Origin,
    init_x: i32,
    init_y: i32,
    today: Date,
)
    requires
        place_of(action) is Some,
    ensures
        ({
            let (x, y, relative) = place_of(action)->0;
            let effects = effects_of(action, origin, init_x, init_y, today);
            &&& relative ==> effects[1] == EffectView::MoveTo { x: x + origin.x, y: y + origin.y }
            &&& !relative ==> effects[1] == EffectView::MoveTo { x: x as int, y: y as int }
        }),
{
}

/// Setting an origin and then unsetting it leaves the corner of the screen as the
/// origin, whatever was set and whatever the origin was before.
pub proof fn lemma_set_then_unset(origin: Origin, x: i32, y: i32)
    ensures
        origin_after(
            ActionView::UNSETORIGIN,
            origin_after(ActionView::SETORIGIN { x, y }, origin),
        ) == Origin::zero(),
{
}

/// A change presses backspace exactly `delnum` times where `delnum` is not negative,
/// and else once for each byte of the text that it types; it presses no other key, and
/// types the resolved text after the last backspace.
pub proof fn lemma_change_backspaces(
    x: i32,
    y: i32,
    content: Seq<char>,
    delnum: i32,
    wait: u64,
    relative: bool,
    origin: Origin,
    init_x: i32,
    init_y: i32,
    today: Date,
)
    ensures
        ({
            let change = ActionView::CHANGE { x, y, content, delnum, wait, relative };
            let effects = effects_of(change, origin, init_x, init_y, today);
            let text = resolved_content(content, today);
            let count = if delnum >= 0 {
                delnum as nat
            } else {
                vstd::utf8::encode_utf8(text).len()
            };
            &&& presses_of(Key::Backspace, effects) == count
            &&& presses_of(Key::Delete, effects) == 0
            &&& presses_of(Key::Return, effects) == 0
            &&& effects[5] == EffectView::Press { key: Key::Backspace, times: count }
            &&& effects[7] == EffectView::Type(text)
        }),
{
    reveal_with_fuel(presses_in, 11);
}

} // verus!
