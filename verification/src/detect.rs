//! Detecting cursor positions: what is kept of each poll of the cursor.

use crate::decimal::{append_signed, append_unsigned, decimal, digits};
use crate::effect::{effect_views, emit, Effect, EffectView};
use vstd::prelude::*;
use vstd::string::StringExecFns;

verus! {

/// What one poll of the cursor gave: a place on the screen, or nothing where the
/// cursor could not be found.
pub type Sample = Option<(i32, i32)>;

/// The place that offsets are counted from: what the first poll found, and the corner
/// of the screen where it found nothing.
pub open spec fn reference(samples: Seq<Sample>) -> (i32, i32) {
    if samples.len() > 0 && samples[0] is Some {
        samples[0]->0
    } else {
        (0, 0)
    }
}

/// What is kept of poll `k`, which found the cursor: the place and its offset from the
/// reference. The first poll has no offset.
pub open spec fn reading(samples: Seq<Sample>, k: int) -> (int, int, int, int) {
    let (x, y) = samples[k]->0;
    if k == 0 {
        (x as int, y as int, 0, 0)
    } else {
        (x as int, y as int, x - reference(samples).0, y - reference(samples).1)
    }
}

/// What is kept of the first `n` polls, in their order: a reading for each poll that
/// found the cursor.
pub open spec fn readings(samples: Seq<Sample>, n: nat) -> Seq<(int, int, int, int)>
    decreases n,
{
    if n == 0 {
        Seq::empty()
    } else {
        let before = readings(samples, (n - 1) as nat);
        if samples[n - 1] is Some {
            before.push(reading(samples, n - 1))
        } else {
            before
        }
    }
}

/// A kept position as four numbers.
pub open spec fn position_view(position: [i32; 4]) -> (int, int, int, int) {
    (position[0] as int, position[1] as int, position[2] as int, position[3] as int)
}

/// The kept positions as numbers, in the same order.
pub open spec fn position_views(positions: Seq<[i32; 4]>) -> Seq<(int, int, int, int)> {
    positions.map_values(|p: [i32; 4]| position_view(p))
}

/// Whether the offsets of a next sample from the place `first` can be written in 32
/// bits, where it follows `polls` earlier polls.
pub open spec fn sample_fits(polls: nat, first: (i32, i32), sample: Sample) -> bool {
    sample matches Some((x, y)) ==> polls == 0 || (i32::MIN <= x - first.0 <= i32::MAX && i32::MIN
        <= y - first.1 <= i32::MAX)
}

/// The line that announces a poll after a wait of `wait` milliseconds.
pub open spec fn announcement_text(wait: u64) -> Seq<char> {
    "start detect the cursor position in "@ + digits((wait / 1000) as nat) + " seconds..."@
}

/// The line for a poll that found the cursor: its number and what is kept of it.
pub open spec fn position_text(number: nat, kept: (int, int, int, int)) -> Seq<char> {
    "mouse position "@ + digits(number) + " : -x "@ + decimal(kept.0) + " -y "@ + decimal(kept.1)
        + " delta_x "@ + decimal(kept.2) + " delta_y "@ + decimal(kept.3)
}

/// The line for a poll that did not find the cursor.
pub open spec fn failure_text() -> Seq<char> {
    "could not detect the mouse position!"@
}

/// The line for the latest poll of `samples`.
pub open spec fn poll_text(samples: Seq<Sample>) -> Seq<char> {
    if samples.last() is Some {
        position_text(samples.len(), reading(samples, samples.len() - 1))
    } else {
        failure_text()
    }
}

/// What comes before each poll: the poll is announced, then waited for.
pub open spec fn before_poll_effects(wait: u64) -> Seq<EffectView> {
    seq![EffectView::Report(announcement_text(wait)), EffectView::Sleep(wait)]
}

/// The effects that come before a poll, where the wait is `wait` milliseconds.
pub fn before_poll(wait: u64) -> (effects: Vec<Effect>)
    ensures
        effect_views(effects@) == before_poll_effects(wait),
{
    let mut effects: Vec<Effect> = Vec::new();
    emit(&mut effects, Effect::Report(announcement(wait)));
    emit(&mut effects, Effect::Sleep(wait));
    effects
}

/// Writes the line that announces a poll.
pub fn announcement(wait: u64) -> (line: String)
    ensures
        line@ == announcement_text(wait),
{
    let mut line = String::from_str("start detect the cursor position in ");
    append_unsigned(&mut line, wait / 1000);
    line.append(" seconds...");
    line
}

/// A detection in progress: the polls so far and what was kept of them.
pub struct Detector {
    times: i32,
    polls: i32,
    first: (i32, i32),
    positions: Vec<[i32; 4]>,
    samples: Ghost<Seq<Sample>>,
}

impl Detector {
    /// How many polls were asked for; none where the number is not positive.
    pub closed spec fn times(&self) -> int {
        self.times as int
    }

    /// The samples that were recorded, in their order.
    pub closed spec fn samples(&self) -> Seq<Sample> {
        self.samples@
    }

    /// The positions that were kept.
    pub closed spec fn positions(&self) -> Seq<[i32; 4]> {
        self.positions@
    }

    /// What the detector keeps true of itself: it has not polled more often than asked,
    /// and holds a reading for each poll that found the cursor.
    pub closed spec fn wf(&self) -> bool {
        &&& self.polls == self.samples@.len()
        &&& self.polls <= self.times || self.polls == 0
        &&& self.first == reference(self.samples@)
        &&& position_views(self.positions@) == readings(self.samples@, self.samples@.len())
    }

    /// Whether another poll is due.
    pub open spec fn wants_poll(&self) -> bool {
        self.samples().len() < self.times()
    }

    /// Whether `sample` can be recorded next.
    pub open spec fn accepts(&self, sample: Sample) -> bool {
        sample_fits(self.samples().len(), reference(self.samples()), sample)
    }

    /// A detection of `detect_times` polls, before the first.
    pub fn new(detect_times: i32) -> (detector: Self)
        ensures
            detector.wf(),
            detector.times() == detect_times,
            detector.samples() == Seq::<Sample>::empty(),
            detector.positions() == Seq::<[i32; 4]>::empty(),
    {
        let detector = Detector {
            times: detect_times,
            polls: 0,
            first: (0, 0),
            positions: Vec::new(),
            samples: Ghost(Seq::empty()),
        };
        assert(position_views(detector.positions@) =~= readings(detector.samples@, 0));
        detector
    }

    /// Tells whether another poll is due.
    pub fn is_due(&self) -> (due: bool)
        requires
            self.wf(),
        ensures
            due == self.wants_poll(),
    {
        self.polls < self.times
    }

    /// Tells whether `record` can be asked for `sample`.
    pub fn can_record(&self, sample: Sample) -> (ok: bool)
        requires
            self.wf(),
        ensures
            ok == self.accepts(sample),
    {
        match sample {
            None => true,
            Some((x, y)) => {
                if self.polls == 0 {
                    true
                } else {
                    let dx: i64 = x as i64 - self.first.0 as i64;
                    let dy: i64 = y as i64 - self.first.1 as i64;
                    -2147483648 <= dx && dx <= 2147483647 && -2147483648 <= dy && dy <= 2147483647
                }
            },
        }
    }

    /// Records what a poll gave and hands out the line that reports it. A place is
    /// kept with its offset from the place of the first poll; a failed poll keeps
    /// nothing.
    pub fn record(&mut self, sample: Sample) -> (line: String)
        requires
            old(self).wf(),
            old(self).wants_poll(),
            old(self).accepts(sample),
        ensures
            final(self).wf(),
            final(self).times() == old(self).times(),
            final(self).samples() == old(self).samples().push(sample),
            position_views(final(self).positions()) == readings(
                final(self).samples(),
                final(self).samples().len(),
            ),
            line@ == poll_text(final(self).samples()),
    {
        let ghost longer = self.samples@.push(sample);
        proof {
            lemma_readings_of_prefix(self.samples@, longer, self.samples@.len());
        }
        let number: i32 = self.polls + 1;
        let line = match sample {
            Some((x, y)) => {
                let first = self.polls == 0;
                let dx: i32 = if first {
                    0
                } else {
                    x - self.first.0
                };
                let dy: i32 = if first {
                    0
                } else {
                    y - self.first.1
                };
                if first {
                    self.first = (x, y);
                }
                let kept: [i32; 4] = [x, y, dx, dy];
                self.positions.push(kept);
                assert(position_views(self.positions@) =~= readings(longer, longer.len()));
                position_line(number as u64, &kept)
            },
            None => String::from_str("could not detect the mouse position!"),
        };
        self.polls = number;
        self.samples = Ghost(longer);
        line
    }

    /// Ends the detection and hands out the positions that were kept.
    pub fn into_positions(self) -> (positions: Vec<[i32; 4]>)
        requires
            self.wf(),
        ensures
            positions@ == self.positions(),
            position_views(positions@) == readings(self.samples(), self.samples().len()),
    {
        self.positions
    }
}

/// Writes the line for a poll that found the cursor.
fn position_line(number: u64, kept: &[i32; 4]) -> (line: String)
    ensures
        line@ == position_text(number as nat, position_view(*kept)),
{
    let mut line = String::from_str("mouse position ");
    append_unsigned(&mut line, number);
    line.append(" : -x ");
    append_signed(&mut line, kept[0] as i64);
    line.append(" -y ");
    append_signed(&mut line, kept[1] as i64);
    line.append(" delta_x ");
    append_signed(&mut line, kept[2] as i64);
    line.append(" delta_y ");
    append_signed(&mut line, kept[3] as i64);
    line
}

/// What is kept of the first `n` polls does not change when more polls follow.
pub proof fn lemma_readings_of_prefix(shorter: Seq<Sample>, longer: Seq<Sample>, n: nat)
    requires
        n <= shorter.len() <= longer.len(),
        forall|i: int| 0 <= i < shorter.len() ==> shorter[i] == longer[i],
    ensures
        readings(shorter, n) == readings(longer, n),
    decreases n,
{
    if n > 0 {
        lemma_readings_of_prefix(shorter, longer, (n - 1) as nat);
    }
}

} // verus!
