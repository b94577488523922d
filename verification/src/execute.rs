//! A run: the actions of a list, executed in order until the list or the run ends.

use crate::config::{action_views, Action, ActionView};
use crate::date::{local_today, Date};
use crate::effect::{effect_views, Effect, EffectView};
use crate::report::missing_initial_text;
use crate::step::{
    action_halts, action_in_range, action_needs_date, effects_of, effects_on, halts, in_range,
    needs_date, next_origin, origin_after, place_of, valid_initial, Origin,
};
use vstd::prelude::*;

verus! {

/// The origin after the first `n` actions of the list.
pub open spec fn origin_at(actions: Seq<ActionView>, n: nat) -> Origin
    decreases n,
{
    if n == 0 {
        Origin::zero()
    } else {
        origin_after(actions[n - 1], origin_at(actions, (n - 1) as nat))
    }
}

/// Whether the run has ended at one of the first `n` actions.
pub open spec fn halted_at(actions: Seq<ActionView>, init_x: i32, init_y: i32, n: nat) -> bool
    decreases n,
{
    n > 0 && (halted_at(actions, init_x, init_y, (n - 1) as nat) || halts(
        actions[n - 1],
        init_x,
        init_y,
    ))
}

/// Everything that the first `n` actions of the list do, where action `i` is executed
/// on the day `dates[i]`. An action at which the run ends still reports that; the
/// actions behind it do nothing.
pub open spec fn trace(
    actions: Seq<ActionView>,
    init_x: i32,
    init_y: i32,
    dates: Seq<Date>,
    n: nat,
) -> Seq<EffectView>
    decreases n,
{
    if n == 0 {
        Seq::empty()
    } else {
        let before = trace(actions, init_x, init_y, dates, (n - 1) as nat);
        if halted_at(actions, init_x, init_y, (n - 1) as nat) {
            before
        } else {
            before + effects_of(
                actions[n - 1],
                origin_at(actions, (n - 1) as nat),
                init_x,
                init_y,
                dates[n - 1],
            )
        }
    }
}

/// Whether every place that the run comes to can be written in 32 bits.
pub open spec fn executable(actions: Seq<ActionView>, init_x: i32, init_y: i32) -> bool {
    forall|i: int|
        0 <= i < actions.len() && !halted_at(actions, init_x, init_y, i as nat) ==> in_range(
            #[trigger] actions[i],
            origin_at(actions, i as nat),
        )
}

/// The status with which the program leaves a run: 1 where the run ended early, else 0.
pub open spec fn exit_code_of(actions: Seq<ActionView>, init_x: i32, init_y: i32) -> i32 {
    if halted_at(actions, init_x, init_y, actions.len()) {
        1
    } else {
        0
    }
}

/// `len` times the same day.
pub open spec fn every_day(today: Date, len: nat) -> Seq<Date> {
    Seq::new(len, |i: int| today)
}

/// Once a run has ended it stays ended, and nothing more happens.
pub proof fn lemma_nothing_after_halt(
    actions: Seq<ActionView>,
    init_x: i32,
    init_y: i32,
    dates: Seq<Date>,
    p: nat,
    n: nat,
)
    requires
        halted_at(actions, init_x, init_y, p),
        p <= n,
    ensures
        halted_at(actions, init_x, init_y, n),
        trace(actions, init_x, init_y, dates, n) == trace(actions, init_x, init_y, dates, p),
    decreases n,
{
    if p < n {
        lemma_nothing_after_halt(actions, init_x, init_y, dates, p, (n - 1) as nat);
    }
}

/// What the first `n` actions do depends on the days of those actions only.
pub proof fn lemma_trace_reads_its_days(
    actions: Seq<ActionView>,
    init_x: i32,
    init_y: i32,
    first: Seq<Date>,
    second: Seq<Date>,
    n: nat,
)
    requires
        forall|i: int| 0 <= i < n ==> first[i] == second[i],
    ensures
        trace(actions, init_x, init_y, first, n) == trace(actions, init_x, init_y, second, n),
    decreases n,
{
    if n > 0 {
        lemma_trace_reads_its_days(actions, init_x, init_y, first, second, (n - 1) as nat);
    }
}

/// A run in which no action needs the date does the same on whatever days.
pub proof fn lemma_trace_without_dates(
    actions: Seq<ActionView>,
    init_x: i32,
    init_y: i32,
    first: Seq<Date>,
    second: Seq<Date>,
    n: nat,
)
    requires
        n <= actions.len(),
        forall|i: int| 0 <= i < n ==> !needs_date(#[trigger] actions[i]),
    ensures
        trace(actions, init_x, init_y, first, n) == trace(actions, init_x, init_y, second, n),
    decreases n,
{
    if n > 0 {
        lemma_trace_without_dates(actions, init_x, init_y, first, second, (n - 1) as nat);
    }
}

/// Tells whether a run over `actions` stays within the places that 32 bits can write.
pub fn can_execute(actions: &[Action], init_x: i32, init_y: i32) -> (ok: bool)
    ensures
        ok == executable(action_views(actions@), init_x, init_y),
{
    let ghost views = action_views(actions@);
    let mut origin = Origin::start();
    let mut i: usize = 0;
    while i < actions.len()
        invariant
            i <= actions.len(),
            views == action_views(actions@),
            origin == origin_at(views, i as nat),
            !halted_at(views, init_x, init_y, i as nat),
            forall|j: int| 0 <= j < i ==> in_range(#[trigger] views[j], origin_at(views, j as nat)),
        decreases actions.len() - i,
    {
        let action = &actions[i];
        assert(views[i as int] == action@);
        if !action_in_range(action, origin) {
            return false;
        }
        if action_halts(action, init_x, init_y) {
            assert forall|j: int|
                0 <= j < views.len() && !halted_at(views, init_x, init_y, j as nat) implies in_range(
                #[trigger] views[j],
                origin_at(views, j as nat),
            ) by {
                if j > i {
                    lemma_nothing_after_halt(
                        views,
                        init_x,
                        init_y,
                        Seq::empty(),
                        (i + 1) as nat,
                        j as nat,
                    );
                }
            }
            return true;
        }
        origin = next_origin(action, origin);
        i = i + 1;
    }
    true
}

/// A run in progress: a list of actions and how far the run has come.
pub struct Runner<'a> {
    actions: &'a [Action],
    init_x: i32,
    init_y: i32,
    position: usize,
    origin: Origin,
    halted: bool,
}

impl<'a> Runner<'a> {
    /// The actions of the run.
    pub closed spec fn actions(&self) -> Seq<ActionView> {
        action_views(self.actions@)
    }

    /// The initial position that the run was started with.
    pub closed spec fn initial(&self) -> (i32, i32) {
        (self.init_x, self.init_y)
    }

    /// How many actions the run has been through.
    pub closed spec fn position(&self) -> nat {
        self.position as nat
    }

    /// What the runner keeps true of itself: it stands inside its list, and it knows
    /// the origin and whether the run has ended.
    pub closed spec fn wf(&self) -> bool {
        &&& self.position <= self.actions@.len()
        &&& self.origin == origin_at(self.actions(), self.position())
        &&& self.halted == halted_at(self.actions(), self.init_x, self.init_y, self.position())
    }

    /// The origin that the next action will find.
    pub open spec fn origin(&self) -> Origin {
        origin_at(self.actions(), self.position())
    }

    /// Whether the run has ended early.
    pub open spec fn halted(&self) -> bool {
        halted_at(self.actions(), self.initial().0, self.initial().1, self.position())
    }

    /// Whether nothing is left to do: the run has ended early or the list is through.
    pub open spec fn finished(&self) -> bool {
        self.halted() || self.position() >= self.actions().len()
    }

    /// Whether the next action, if there is one, names places that can be resolved.
    pub open spec fn ready(&self) -> bool {
        !self.finished() ==> in_range(self.actions()[self.position() as int], self.origin())
    }

    /// A run over `actions`, before its first action: the origin is the corner of the
    /// screen.
    pub fn new(actions: &'a [Action], init_x: i32, init_y: i32) -> (runner: Self)
        ensures
            runner.wf(),
            runner.actions() == action_views(actions@),
            runner.initial() == (init_x, init_y),
            runner.position() == 0,
            runner.origin() == Origin::zero(),
            !runner.halted(),
    {
        Runner { actions, init_x, init_y, position: 0, origin: Origin::start(), halted: false }
    }

    /// Tells whether nothing is left to do.
    pub fn is_finished(&self) -> (finished: bool)
        requires
            self.wf(),
        ensures
            finished == self.finished(),
    {
        self.halted || self.position >= self.actions.len()
    }

    /// Tells whether `advance` can be asked for the next action.
    pub fn is_ready(&self) -> (ready: bool)
        requires
            self.wf(),
        ensures
            ready == self.ready(),
    {
        if self.halted || self.position >= self.actions.len() {
            true
        } else {
            action_in_range(&self.actions[self.position], self.origin)
        }
    }

    /// The status that the program is to leave with, as the run stands.
    pub fn exit_code(&self) -> (code: i32)
        requires
            self.wf(),
        ensures
            code == if self.halted() {
                1i32
            } else {
                0i32
            },
    {
        if self.halted {
            1
        } else {
            0
        }
    }

    /// Goes through the next action as on the day `today` and hands out its effects.
    /// Where nothing is left to do, nothing is handed out and the runner stays as it is.
    pub fn advance_on(&mut self, today: &Date) -> (effects: Option<Vec<Effect>>)
        requires
            old(self).wf(),
            old(self).ready(),
        ensures
            final(self).wf(),
            final(self).actions() == old(self).actions(),
            final(self).initial() == old(self).initial(),
            old(self).finished() ==> effects is None && final(self).position() == old(
                self,
            ).position(),
            !old(self).finished() ==> effects is Some && final(self).position() == old(
                self,
            ).position() + 1 && effect_views(effects->0@) == effects_of(
                old(self).actions()[old(self).position() as int],
                old(self).origin(),
                old(self).initial().0,
                old(self).initial().1,
                *today,
            ),
    {
        if self.halted || self.position >= self.actions.len() {
            return None;
        }
        let action = &self.actions[self.position];
        let effects = effects_on(action, self.origin, self.init_x, self.init_y, today);
        self.halted = action_halts(action, self.init_x, self.init_y);
        self.origin = next_origin(action, self.origin);
        self.position = self.position + 1;
        Some(effects)
    }

    /// Goes through the next action and hands out its effects. The clock is read where
    /// the action needs the date, and only there. Where nothing is left to do, nothing
    /// is handed out and the runner stays as it is.
    pub fn advance(&mut self) -> (effects: Option<Vec<Effect>>)
        requires
            old(self).wf(),
            old(self).ready(),
        ensures
            final(self).wf(),
            final(self).actions() == old(self).actions(),
            final(self).initial() == old(self).initial(),
            old(self).finished() ==> effects is None && final(self).position() == old(
                self,
            ).position(),
            !old(self).finished() ==> effects is Some && final(self).position() == old(
                self,
            ).position() + 1 && exists|today: Date|
                today.on_calendar() && effect_views(effects->0@) == effects_of(
                    old(self).actions()[old(self).position() as int],
                    old(self).origin(),
                    old(self).initial().0,
                    old(self).initial().1,
                    today,
                ),
            !old(self).finished() && !needs_date(old(self).actions()[old(self).position() as int])
                ==> forall|today: Date|
                effect_views(effects->0@) == #[trigger] effects_of(
                    old(self).actions()[old(self).position() as int],
                    old(self).origin(),
                    old(self).initial().0,
                    old(self).initial().1,
                    today,
                ),
    {
        if self.halted || self.position >= self.actions.len() {
            return None;
        }
        let action = &self.actions[self.position];
        let ghost view = self.actions()[self.position() as int];
        let needed = action_needs_date(action);
        let today = if needed {
            local_today()
        } else {
            Date { year: 1970, month: 1, day: 1 }
        };
        let ghost origin = self.origin();
        let effects = self.advance_on(&today);
        assert(today.on_calendar() && effect_views(effects->0@) == effects_of(
            view,
            origin,
            self.init_x,
            self.init_y,
            today,
        ));
        effects
    }
}

/// What a run came to: everything it did, in order, and the status to leave with.
#[derive(Debug)]
pub struct Run {
    pub effects: Vec<Effect>,
    pub exit_code: i32,
}

/// Goes through the whole list. With a day given, every action is executed as on that
/// day; with none, the clock is read for each action that needs the date. The days
/// that were used are handed back for the proof.
fn drive(actions: &[Action], init_x: i32, init_y: i32, fixed: Option<Date>) -> (out: (
    Run,
    Ghost<Seq<Date>>,
))
    requires
        executable(action_views(actions@), init_x, init_y),
    ensures
        out.1@.len() == actions.len(),
        fixed matches Some(today) ==> out.1@ == every_day(today, actions.len() as nat),
        fixed is None ==> forall|i: int| 0 <= i < actions.len() ==> (#[trigger] out.1@[i]).on_calendar(),
        effect_views(out.0.effects@) == trace(
            action_views(actions@),
            init_x,
            init_y,
            out.1@,
            actions.len() as nat,
        ),
        out.0.exit_code == exit_code_of(action_views(actions@), init_x, init_y),
{
    let ghost views = action_views(actions@);
    let ghost filler = match fixed {
        Some(today) => today,
        None => Date { year: 1970, month: 1, day: 1 },
    };
    let mut runner = Runner::new(actions, init_x, init_y);
    let mut effects: Vec<Effect> = Vec::new();
    let ghost mut dates: Seq<Date> = Seq::empty();
    while !runner.is_finished()
        invariant
            runner.wf(),
            runner.actions() == views,
            runner.initial() == (init_x, init_y),
            views == action_views(actions@),
            executable(views, init_x, init_y),
            runner.position() <= actions.len(),
            dates.len() == runner.position(),
            fixed matches Some(today) ==> filler == today && dates == every_day(
                today,
                runner.position(),
            ),
            fixed is None ==> filler.on_calendar() && forall|i: int|
                0 <= i < dates.len() ==> (#[trigger] dates[i]).on_calendar(),
            effect_views(effects@) == trace(views, init_x, init_y, dates, runner.position()),
        decreases actions.len() - runner.position(),
    {
        let ghost before = runner.position();
        let step = match fixed {
            Some(today) => runner.advance_on(&today),
            None => runner.advance(),
        };
        let mut step = step.unwrap();
        proof {
            let view = views[before as int];
            let origin = origin_at(views, before);
            let day = match fixed {
                Some(today) => today,
                None => choose|today: Date|
                    today.on_calendar() && effect_views(step@) == effects_of(
                        view,
                        origin,
                        init_x,
                        init_y,
                        today,
                    ),
            };
            let longer = dates.push(day);
            lemma_trace_reads_its_days(views, init_x, init_y, dates, longer, before);
            dates = longer;
        }
        effects.append(&mut step);
    }
    let exit_code = runner.exit_code();
    proof {
        let reached = runner.position();
        let len = actions.len() as nat;
        let padded = dates + every_day(filler, (len - reached) as nat);
        lemma_trace_reads_its_days(views, init_x, init_y, dates, padded, reached);
        if reached < len {
            lemma_nothing_after_halt(views, init_x, init_y, padded, reached, len);
        }
        assert(fixed is Some ==> padded =~= every_day(filler, len));
        dates = padded;
    }
    (Run { effects, exit_code }, Ghost(dates))
}

/// Executes the actions as on the day `today`: the run's effects, in order, up to and
/// with the report of the action at which the run ends, and the status to leave with.
pub fn execute_action_on(actions: &[Action], init_x: i32, init_y: i32, today: &Date) -> (run: Run)
    requires
        executable(action_views(actions@), init_x, init_y),
    ensures
        effect_views(run.effects@) == trace(
            action_views(actions@),
            init_x,
            init_y,
            every_day(*today, actions.len() as nat),
            actions.len() as nat,
        ),
        run.exit_code == exit_code_of(action_views(actions@), init_x, init_y),
{
    let out = drive(actions, init_x, init_y, Some(*today));
    out.0
}

/// Executes the actions: the run's effects, in order, up to and with the report of the
/// action at which the run ends, and the status to leave with. The clock is read for
/// each action that needs the date, so all that is known of the days is that they are
/// days of the calendar.
pub fn execute_action(actions: &[Action], init_x: i32, init_y: i32) -> (run: Run)
    requires
        executable(action_views(actions@), init_x, init_y),
    ensures
        exists|dates: Seq<Date>|
            {
                &&& dates.len() == actions.len()
                &&& forall|i: int| 0 <= i < dates.len() ==> (#[trigger] dates[i]).on_calendar()
                &&& effect_views(run.effects@) == trace(
                    action_views(actions@),
                    init_x,
                    init_y,
                    dates,
                    actions.len() as nat,
                )
            },
        run.exit_code == exit_code_of(action_views(actions@), init_x, init_y),
{
    let out = drive(actions, init_x, init_y, None);
    out.0
}

/// A run starts with the corner of the screen as its origin.
pub proof fn lemma_run_starts_at_zero(actions: Seq<ActionView>)
    ensures
        origin_at(actions, 0) == Origin::zero(),
{
}

/// In a run, an action that is reached and names a relative place puts the cursor at
/// its coordinates plus the origin that the actions before it have left.
pub proof fn lemma_relative_in_run(
    actions: Seq<ActionView>,
    init_x: i32,
    init_y: i32,
    dates: Seq<Date>,
    i: nat,
)
    requires
        i < actions.len(),
        !halted_at(actions, init_x, init_y, i),
        place_of(actions[i as int]) matches Some((_, _, relative)) && relative,
    ensures
        ({
            let (x, y, _) = place_of(actions[i as int])->0;
            let origin = origin_at(actions, i);
            let before = trace(actions, init_x, init_y, dates, i);
            let with = trace(actions, init_x, init_y, dates, i + 1);
            with[before.len() as int + 1] == EffectView::MoveTo { x: x + origin.x, y: y + origin.y }
        }),
{
}

/// After an action that unsets the origin, the origin is the corner of the screen,
/// whatever the actions before it have set.
pub proof fn lemma_unset_resets_origin(actions: Seq<ActionView>, n: nat)
    requires
        n > 0,
        actions[n - 1] is UNSETORIGIN,
    ensures
        origin_at(actions, n) == Origin::zero(),
{
}

/// A run that comes to a move to the initial position, and was given none, ends there:
/// it reports the missing position, does nothing else from then on, and leaves with
/// status 1.
pub proof fn lemma_missing_initial_ends_run(
    actions: Seq<ActionView>,
    init_x: i32,
    init_y: i32,
    dates: Seq<Date>,
    i: nat,
    n: nat,
)
    requires
        i < n <= actions.len(),
        actions[i as int] is MOVEINIT,
        !valid_initial(init_x, init_y),
        !halted_at(actions, init_x, init_y, i),
    ensures
        halted_at(actions, init_x, init_y, n),
        trace(actions, init_x, init_y, dates, n) == trace(actions, init_x, init_y, dates, i).push(
            EffectView::Report(missing_initial_text()),
        ),
        exit_code_of(actions, init_x, init_y) == 1,
{
    lemma_nothing_after_halt(actions, init_x, init_y, dates, i + 1, n);
    lemma_nothing_after_halt(actions, init_x, init_y, dates, i + 1, actions.len());
}

} // verus!
