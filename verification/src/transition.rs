//! The timed transition engine: per-frame progress, the one-shot sound cue,
//! the crossfade blend, and the chaining rule for two-stage crack sequences.
//!
//! Time is carried in whole milliseconds, so every clock comparison in the
//! engine is exact integer arithmetic. The host hands the engine its frame
//! delta in milliseconds and evaluates the one cosine of the crossfade itself,
//! from the exact phase the engine reports.

use vstd::prelude::*;

use crate::state::ButtonType;
use crate::state::WorldState;
use crate::state::is_crack_stage;

verus! {

/// The two kinds of transitions. `EggCracking` carries the input that started
/// the crack sequence, because the second crack stage must know which
/// hatchling to produce.
#[derive(Clone, Copy, PartialEq, Eq, Structural, Debug)]
pub enum TransitionType {
    Regular,
    EggCracking(ButtonType),
}

/// The four sound cues of the game, in the order of the host's sound table.
#[derive(Clone, Copy, PartialEq, Eq, Structural, Debug)]
pub enum SoundIndex {
    Crack1,
    Crack2,
    Scale1,
    Scale2,
}

/// Duration of a crossfading transition between two chooseable forms.
pub const REGULAR_TOTAL_MS: u64 = 9300;

/// Duration of one hard-cut crack stage.
pub const CRACK_TOTAL_MS: u64 = 3000;

/// A timed change of the world from its current resting state to
/// `goal_state`. `elapsed_ms` only grows and is clamped to the total
/// duration; once it reaches the total, the transition is completed and is
/// replaced by its follow-up, if the chaining rule gives one.
#[derive(Clone, Copy, PartialEq, Eq, Structural, Debug)]
pub struct Transition {
    pub goal_state: WorldState,
    pub t_type: TransitionType,
    pub elapsed_ms: u64,
    /// True exactly when the latest `progress` call carried `elapsed_ms`
    /// across the cue threshold; the caller consumes it right away.
    pub sound_trigger: bool,
}

/// Total duration of a transition of the given kind.
pub open spec fn spec_total_ms(t: TransitionType) -> int {
    match t {
        TransitionType::Regular => REGULAR_TOTAL_MS as int,
        TransitionType::EggCracking(_) => CRACK_TOTAL_MS as int,
    }
}

/// The instant the sound cue fires: a mid-transition swell at roughly 10/19 of
/// a regular crossfade, and the very end of a hard-cut crack stage.
pub open spec fn spec_cue_threshold_ms(t: TransitionType) -> int {
    match t {
        TransitionType::Regular => spec_total_ms(t) * 10 / 19,
        TransitionType::EggCracking(_) => spec_total_ms(t),
    }
}

impl Transition {
    /// Internal consistency: the clock never runs past the total, a crack
    /// stage is the goal exactly of an egg-cracking transition, and the input
    /// carried by an egg-cracking transition is one of the two that can start
    /// a crack sequence.
    pub open spec fn wf(self) -> bool {
        &&& self.elapsed_ms <= spec_total_ms(self.t_type)
        &&& is_crack_stage(self.goal_state) <==> self.t_type is EggCracking
        &&& self.t_type matches TransitionType::EggCracking(k)
            ==> k == ButtonType::Sun || k == ButtonType::Water
    }

    /// A transition is completed once its clock has reached the total.
    pub open spec fn spec_completed(self) -> bool {
        self.elapsed_ms >= spec_total_ms(self.t_type)
    }
}

/// The clock after one `progress` step: the delta is added and the result
/// clamped to the total duration.
pub open spec fn spec_elapsed_after(t: Transition, delta_ms: int) -> int {
    if t.elapsed_ms + delta_ms <= spec_total_ms(t.t_type) {
        t.elapsed_ms + delta_ms
    } else {
        spec_total_ms(t.t_type)
    }
}

/// Whether one `progress` step carries the clock across the cue threshold.
/// The crossing is strict on the left, so over any splitting of the same
/// total delta into steps it can hold at most once.
pub open spec fn spec_fires(t: Transition, delta_ms: int) -> bool {
    t.elapsed_ms < spec_cue_threshold_ms(t.t_type)
        && t.elapsed_ms + delta_ms >= spec_cue_threshold_ms(t.t_type)
}

/// The whole transition after one `progress` step.
pub open spec fn spec_step(t: Transition, delta_ms: int) -> Transition {
    Transition {
        elapsed_ms: spec_elapsed_after(t, delta_ms) as u64,
        sound_trigger: spec_fires(t, delta_ms),
        ..t
    }
}

/// The chaining rule, on the goal alone: the first crack stage is followed by
/// the second under the same kind; the second by the hatchling the carried
/// input determines, as a regular crossfade; every other goal ends the chain.
pub open spec fn spec_subsequent(t: Transition) -> Option<Transition> {
    match t.goal_state {
        WorldState::EggCrack1 => Some(
            Transition {
                goal_state: WorldState::EggCrack2,
                t_type: t.t_type,
                elapsed_ms: 0,
                sound_trigger: false,
            },
        ),
        WorldState::BigEggCrack1 => Some(
            Transition {
                goal_state: WorldState::BigEggCrack2,
                t_type: t.t_type,
                elapsed_ms: 0,
                sound_trigger: false,
            },
        ),
        WorldState::EggCrack2 => Some(
            Transition {
                goal_state: if t.t_type == TransitionType::EggCracking(ButtonType::Sun) {
                    WorldState::Chick
                } else {
                    WorldState::BabyTurtle
                },
                t_type: TransitionType::Regular,
                elapsed_ms: 0,
                sound_trigger: false,
            },
        ),
        WorldState::BigEggCrack2 => Some(
            Transition {
                goal_state: if t.t_type == TransitionType::EggCracking(ButtonType::Sun) {
                    WorldState::SmallDragon
                } else {
                    WorldState::Kraken
                },
                t_type: TransitionType::Regular,
                elapsed_ms: 0,
                sound_trigger: false,
            },
        ),
        _ => None,
    }
}

/// What one `progress` step returns: the follow-up transition, already moved
/// forward by the leftover time beyond the completed stage, if the stage
/// completed and the chaining rule continues it.
pub open spec fn spec_progress_follow(t: Transition, delta_ms: int) -> Option<Transition> {
    if t.elapsed_ms + delta_ms >= spec_total_ms(t.t_type) {
        match spec_subsequent(t) {
            Some(s) => Some(spec_step(s, t.elapsed_ms + delta_ms - spec_total_ms(t.t_type))),
            None => None,
        }
    } else {
        None
    }
}

/// The cue a transition asks to have played, given the trigger state. A
/// regular transition plays one of the two hatching-scale cues, picked by the
/// caller-supplied coin; a crack stage plays the crack cue of its stage.
pub open spec fn spec_sound(t: Transition, scale_pick: bool) -> Option<SoundIndex> {
    if !t.sound_trigger {
        None
    } else {
        match t.t_type {
            TransitionType::Regular => Some(
                if scale_pick {
                    SoundIndex::Scale1
                } else {
                    SoundIndex::Scale2
                },
            ),
            TransitionType::EggCracking(_) => match t.goal_state {
                WorldState::EggCrack1 | WorldState::BigEggCrack1 => Some(SoundIndex::Crack1),
                _ => Some(SoundIndex::Crack2),
            },
        }
    }
}

/// Playback volume of a cue, in thousandths of unit volume: the cracks are
/// played louder than the scales.
pub open spec fn spec_volume_permille(s: SoundIndex) -> int {
    match s {
        SoundIndex::Scale1 | SoundIndex::Scale2 => 700,
        SoundIndex::Crack1 | SoundIndex::Crack2 => 1100,
    }
}

/// The alpha of one piece of artwork during a transition frame. `CosEase`
/// stands for the cosine ease the host evaluates: with `p` the relative
/// progress `elapsed_ms / total_ms`, the alpha is
/// `(cos(2.8 * pi * p - 0.4 * pi) + 1) / 2`. At `2 * elapsed_ms == total_ms`
/// the phase is exactly pi, where that ease bottoms out at zero.
#[derive(Clone, Copy, PartialEq, Eq, Structural, Debug)]
pub enum BlendAlpha {
    /// Fully visible.
    Opaque,
    /// Fully invisible.
    Transparent,
    /// The cosine ease at the given exact clock position.
    CosEase { elapsed_ms: u64, total_ms: u64 },
}

/// The blend of a transition frame, as (current-art alpha, goal-art alpha).
/// A crack stage is a hard cut: the current art stays opaque until the state
/// flips. A regular crossfade keeps the fading art opaque for the first and
/// last seventh, eases it in between, and switches which art fades at the
/// half: the current art fades out over the first half, the goal art fades in
/// over the second, never both at once.
pub open spec fn spec_colors(t: Transition) -> (BlendAlpha, BlendAlpha) {
    match t.t_type {
        TransitionType::EggCracking(_) => (BlendAlpha::Opaque, BlendAlpha::Transparent),
        TransitionType::Regular => {
            let e = t.elapsed_ms as int;
            let total = spec_total_ms(t.t_type);
            let fading = if 7 * e <= total || 7 * e >= 6 * total {
                BlendAlpha::Opaque
            } else {
                BlendAlpha::CosEase { elapsed_ms: t.elapsed_ms, total_ms: total as u64 }
            };
            if 2 * e <= total {
                (fading, BlendAlpha::Transparent)
            } else {
                (BlendAlpha::Transparent, fading)
            }
        },
    }
}

impl Transition {
    /// Starts a transition towards `goal_state` with the clock at zero.
    pub fn new(goal_state: WorldState, t_type: TransitionType) -> (t: Transition)
        requires
            is_crack_stage(goal_state) <==> t_type is EggCracking,
            t_type matches TransitionType::EggCracking(k)
                ==> k == ButtonType::Sun || k == ButtonType::Water,
        ensures
            t == (Transition { goal_state, t_type, elapsed_ms: 0, sound_trigger: false }),
            t.wf(),
            !t.spec_completed(),
    {
        Transition { goal_state, t_type, elapsed_ms: 0, sound_trigger: false }
    }

    /// Total duration of this transition, in milliseconds.
    pub fn total_duration(&self) -> (d: u64)
        ensures
            d == spec_total_ms(self.t_type),
    {
        match self.t_type {
            TransitionType::Regular => REGULAR_TOTAL_MS,
            TransitionType::EggCracking(_) => CRACK_TOTAL_MS,
        }
    }

    /// The instant of this transition's sound cue, in milliseconds.
    pub fn cue_threshold(&self) -> (c: u64)
        ensures
            c == spec_cue_threshold_ms(self.t_type),
    {
        match self.t_type {
            TransitionType::Regular => REGULAR_TOTAL_MS * 10 / 19,
            TransitionType::EggCracking(_) => CRACK_TOTAL_MS,
        }
    }

    /// Moves the clock of this transition alone: adds the delta, clamps to
    /// the total, and records whether the cue threshold was crossed.
    fn advance(&mut self, delta_ms: u32)
        requires
            old(self).wf(),
        ensures
            *final(self) == spec_step(*old(self), delta_ms as int),
            final(self).wf(),
    {
        let total = self.total_duration();
        let threshold = self.cue_threshold();
        let raw: u64 = self.elapsed_ms + delta_ms as u64;
        self.sound_trigger = self.elapsed_ms < threshold && raw >= threshold;
        self.elapsed_ms = if raw <= total {
            raw
        } else {
            total
        };
    }

    /// Advances the transition by one frame delta and returns the follow-up
    /// transition, if this one completed and the chaining rule continues it.
    /// The leftover time beyond completion is carried into the follow-up, so
    /// a chained stage is never skipped: the follow-up is returned even when
    /// the leftover completes it too, and it then finishes on a later frame.
    ///
    /// The clock never moves backwards, and a completed transition stays
    /// completed.
    pub fn progress(&mut self, delta_ms: u32) -> (follow: Option<Transition>)
        requires
            old(self).wf(),
        ensures
            *final(self) == spec_step(*old(self), delta_ms as int),
            final(self).wf(),
            follow == spec_progress_follow(*old(self), delta_ms as int),
            follow matches Some(f) ==> f.wf(),
            final(self).elapsed_ms >= old(self).elapsed_ms,
            old(self).spec_completed() ==> final(self).spec_completed(),
    {
        let total = self.total_duration();
        let raw: u64 = self.elapsed_ms + delta_ms as u64;
        self.advance(delta_ms);
        if raw >= total {
            // The leftover never exceeds this frame's delta, so it fits back
            // into a frame delta.
            let leftover: u64 = raw - total;
            match self.subsequent_transition() {
                Some(mut s) => {
                    s.advance(leftover as u32);
                    Some(s)
                },
                None => None,
            }
        } else {
            None
        }
    }

    /// Whether this transition has run its full duration and must be replaced
    /// by its follow-up, or by none.
    pub fn completed(&self) -> (c: bool)
        ensures
            c == self.spec_completed(),
    {
        self.elapsed_ms >= self.total_duration()
    }

    /// The follow-up this transition chains into on completion, with its
    /// clock at zero: the second crack stage after the first, the hatchling
    /// crossfade after the second, nothing after anything else.
    pub fn subsequent_transition(&self) -> (r: Option<Transition>)
        requires
            self.wf(),
        ensures
            r == spec_subsequent(*self),
            r matches Some(s) ==> s.wf() && !s.spec_completed(),
    {
        match self.goal_state {
            WorldState::EggCrack1 => Some(
                Transition::new(WorldState::EggCrack2, self.t_type),
            ),
            WorldState::BigEggCrack1 => Some(
                Transition::new(WorldState::BigEggCrack2, self.t_type),
            ),
            WorldState::EggCrack2 => Some(
                Transition::new(
                    if self.t_type == TransitionType::EggCracking(ButtonType::Sun) {
                        WorldState::Chick
                    } else {
                        WorldState::BabyTurtle
                    },
                    TransitionType::Regular,
                ),
            ),
            WorldState::BigEggCrack2 => Some(
                Transition::new(
                    if self.t_type == TransitionType::EggCracking(ButtonType::Sun) {
                        WorldState::SmallDragon
                    } else {
                        WorldState::Kraken
                    },
                    TransitionType::Regular,
                ),
            ),
            _ => None,
        }
    }

    /// The cue to play this frame, if the latest `progress` call crossed the
    /// cue threshold. The coin picks which of the two hatching scales a
    /// regular transition plays; the host draws it from its random source, so
    /// tests can pin the choice.
    pub fn sound_to_play(&self, scale_pick: bool) -> (r: Option<SoundIndex>)
        requires
            self.wf(),
        ensures
            r == spec_sound(*self, scale_pick),
    {
        if !self.sound_trigger {
            None
        } else {
            match self.t_type {
                TransitionType::Regular => Some(
                    if scale_pick {
                        SoundIndex::Scale1
                    } else {
                        SoundIndex::Scale2
                    },
                ),
                TransitionType::EggCracking(_) => match self.goal_state {
                    WorldState::EggCrack1 | WorldState::BigEggCrack1 => Some(SoundIndex::Crack1),
                    _ => Some(SoundIndex::Crack2),
                },
            }
        }
    }

    /// The blend of the current frame, as (current-art alpha, goal-art alpha).
    pub fn colors(&self) -> (c: (BlendAlpha, BlendAlpha))
        requires
            self.wf(),
        ensures
            c == spec_colors(*self),
    {
        match self.t_type {
            TransitionType::EggCracking(_) => (BlendAlpha::Opaque, BlendAlpha::Transparent),
            TransitionType::Regular => {
                let e = self.elapsed_ms;
                let total = self.total_duration();
                let fading = if 7 * e <= total || 7 * e >= 6 * total {
                    BlendAlpha::Opaque
                } else {
                    BlendAlpha::CosEase { elapsed_ms: e, total_ms: total }
                };
                if 2 * e <= total {
                    (fading, BlendAlpha::Transparent)
                } else {
                    (BlendAlpha::Transparent, fading)
                }
            },
        }
    }
}

/// Playback volume of a cue, in thousandths of unit volume.
pub fn volume_permille(s: SoundIndex) -> (v: u32)
    ensures
        v == spec_volume_permille(s),
{
    match s {
        SoundIndex::Scale1 | SoundIndex::Scale2 => 700,
        SoundIndex::Crack1 | SoundIndex::Crack2 => 1100,
    }
}

/// The transition after a whole sequence of `progress` steps, ignoring the
/// chaining: the clock of this one instance under those frame deltas.
pub open spec fn spec_run(t: Transition, deltas: Seq<u32>) -> Transition
    decreases deltas.len(),
{
    if deltas.len() == 0 {
        t
    } else {
        spec_run(spec_step(t, deltas[0] as int), deltas.drop_first())
    }
}

/// How many of the steps in a sequence cross the cue threshold.
pub open spec fn spec_fire_count(t: Transition, deltas: Seq<u32>) -> int
    decreases deltas.len(),
{
    if deltas.len() == 0 {
        0
    } else {
        (if spec_fires(t, deltas[0] as int) {
            1int
        } else {
            0int
        }) + spec_fire_count(spec_step(t, deltas[0] as int), deltas.drop_first())
    }
}

/// The sum of a sequence of frame deltas.
pub open spec fn spec_delta_sum(deltas: Seq<u32>) -> int
    decreases deltas.len(),
{
    if deltas.len() == 0 {
        0
    } else {
        deltas[0] + spec_delta_sum(deltas.drop_first())
    }
}

/// The clock only grows under a step, stays clamped to the total, and a
/// completed transition stays completed; the goal and kind never change.
pub proof fn lemma_step_monotonic(t: Transition, delta_ms: int)
    requires
        t.wf(),
        delta_ms >= 0,
    ensures
        spec_step(t, delta_ms).wf(),
        spec_step(t, delta_ms).elapsed_ms >= t.elapsed_ms,
        t.spec_completed() ==> spec_step(t, delta_ms).spec_completed(),
        spec_step(t, delta_ms).goal_state == t.goal_state,
        spec_step(t, delta_ms).t_type == t.t_type,
{
}

/// The engine is frame-rate independent: over any sequence of frame deltas,
/// the clock lands exactly where one step of their sum would put it, and the
/// goal and kind never change along the way.
pub proof fn lemma_clock_step_size_independent(t: Transition, deltas: Seq<u32>)
    requires
        t.wf(),
    ensures
        spec_run(t, deltas).elapsed_ms == spec_elapsed_after(t, spec_delta_sum(deltas)),
        spec_run(t, deltas).goal_state == t.goal_state,
        spec_run(t, deltas).t_type == t.t_type,
        spec_run(t, deltas).wf(),
    decreases deltas.len(),
{
    lemma_delta_sum_nonneg(deltas);
    if deltas.len() > 0 {
        let d0 = deltas[0] as int;
        lemma_step_monotonic(t, d0);
        lemma_delta_sum_nonneg(deltas.drop_first());
        lemma_clock_step_size_independent(spec_step(t, d0), deltas.drop_first());
    }
}

/// Splitting one frame delta into two fires the cue exactly as often as the
/// single delta would: the crossing happens in one of the two parts if and
/// only if it happens in the whole, and never in both.
pub proof fn lemma_cue_split(t: Transition, d1: int, d2: int)
    requires
        t.wf(),
        d1 >= 0,
        d2 >= 0,
    ensures
        spec_fires(t, d1 + d2) <==> spec_fires(t, d1) || spec_fires(spec_step(t, d1), d2),
        !(spec_fires(t, d1) && spec_fires(spec_step(t, d1), d2)),
{
}

/// The cue threshold-crossing is step-size independent: over any sequence of
/// frame deltas, the cue fires exactly as often as it would in one step of
/// their sum — once if the sum carries the clock across the threshold, and
/// never otherwise. In particular it fires at most once per transition
/// instance.
pub proof fn lemma_cue_fires_once(t: Transition, deltas: Seq<u32>)
    requires
        t.wf(),
    ensures
        spec_fire_count(t, deltas) == if spec_fires(t, spec_delta_sum(deltas)) {
            1int
        } else {
            0int
        },
        0 <= spec_fire_count(t, deltas) <= 1,
    decreases deltas.len(),
{
    lemma_delta_sum_nonneg(deltas);
    if deltas.len() > 0 {
        let d0 = deltas[0] as int;
        let rest = deltas.drop_first();
        lemma_delta_sum_nonneg(rest);
        lemma_step_monotonic(t, d0);
        lemma_cue_split(t, d0, spec_delta_sum(rest));
        lemma_cue_fires_once(spec_step(t, d0), rest);
    }
}

/// A sum of frame deltas is never negative.
pub proof fn lemma_delta_sum_nonneg(deltas: Seq<u32>)
    ensures
        spec_delta_sum(deltas) >= 0,
    decreases deltas.len(),
{
    if deltas.len() > 0 {
        lemma_delta_sum_nonneg(deltas.drop_first());
    }
}

/// A crack sequence never skips a stage: from the first crack stage the chain
/// visits the second stage under the same carried input, then the hatchling
/// that input determines — Chick or BabyTurtle out of the small egg,
/// SmallDragon or Kraken out of the big one — as a regular crossfade, and the
/// chain ends there.
pub proof fn lemma_crack_chain(t: Transition, start: ButtonType)
    requires
        t.wf(),
        t.goal_state == WorldState::EggCrack1 || t.goal_state == WorldState::BigEggCrack1,
        t.t_type == TransitionType::EggCracking(start),
    ensures
        spec_subsequent(t) matches Some(second) && {
            &&& second.t_type == t.t_type
            &&& second.goal_state == if t.goal_state == WorldState::EggCrack1 {
                WorldState::EggCrack2
            } else {
                WorldState::BigEggCrack2
            }
            &&& spec_subsequent(second) matches Some(hatch) && {
                &&& hatch.t_type is Regular
                &&& !is_crack_stage(hatch.goal_state)
                &&& hatch.goal_state == match (t.goal_state, start) {
                    (WorldState::EggCrack1, ButtonType::Sun) => WorldState::Chick,
                    (WorldState::EggCrack1, _) => WorldState::BabyTurtle,
                    (_, ButtonType::Sun) => WorldState::SmallDragon,
                    (_, _) => WorldState::Kraken,
                }
                &&& spec_subsequent(hatch) is None
            }
        },
{
}

/// The blend of a regular crossfade at its three landmark instants: at the
/// start the current art is opaque and the goal art invisible; at the end the
/// roles are exactly swapped; at the half the goal art is still invisible and
/// the current art sits on the cosine ease at phase pi, the bottom of the
/// fade — so for one frame both arts are at (or easing through) zero and the
/// cut between the two fades is total.
pub proof fn lemma_blend_endpoints(t: Transition)
    requires
        t.wf(),
        t.t_type is Regular,
    ensures
        t.elapsed_ms == 0 ==> spec_colors(t) == (BlendAlpha::Opaque, BlendAlpha::Transparent),
        t.elapsed_ms == spec_total_ms(t.t_type) ==> spec_colors(t) == (
            BlendAlpha::Transparent,
            BlendAlpha::Opaque,
        ),
        2 * t.elapsed_ms == spec_total_ms(t.t_type) ==> spec_colors(t) == (
            BlendAlpha::CosEase {
                elapsed_ms: t.elapsed_ms,
                total_ms: spec_total_ms(t.t_type) as u64,
            },
            BlendAlpha::Transparent,
        ),
{
}

/// Slot of a cue in the host's sound table.
pub fn sound_slot(s: SoundIndex) -> (i: usize)
    ensures
        i < 4,
        s == SoundIndex::Crack1 ==> i == 0,
        s == SoundIndex::Crack2 ==> i == 1,
        s == SoundIndex::Scale1 ==> i == 2,
        s == SoundIndex::Scale2 ==> i == 3,
{
    match s {
        SoundIndex::Crack1 => 0,
        SoundIndex::Crack2 => 1,
        SoundIndex::Scale1 => 2,
        SoundIndex::Scale2 => 3,
    }
}

} // verus!
