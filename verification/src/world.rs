//! The world controller: the single mutable aggregate of the game. It owns
//! the current resting state, the active transition if any, and the fixed
//! button set, and drives the per-frame cycle: poll buttons, start a
//! transition on a click, advance the active transition, finalize completed
//! stages, and hand the host a plan of what to draw.
//!
//! Its well-formedness invariant ties the three together: while no transition
//! runs, each button is enabled exactly when its input is meaningful from the
//! resting state; while one runs, every button is out of play, so only valid
//! (state, input) pairs ever reach the evolution table.

use vstd::prelude::*;

use crate::button::Button;
use crate::button::spec_click;
use crate::button::spec_polled;
use crate::state::ButtonType;
use crate::state::WorldState;
use crate::state::is_crack_stage;
use crate::state::is_reachable;
use crate::state::next_state;
use crate::state::reachable;
use crate::state::spec_next_state;
use crate::transition::BlendAlpha;
use crate::transition::SoundIndex;
use crate::transition::Transition;
use crate::transition::TransitionType;
use crate::transition::spec_colors;
use crate::transition::spec_progress_follow;
use crate::transition::spec_sound;
use crate::transition::spec_step;

verus! {

/// What the host should draw this frame: during a transition, both arts with
/// their blend alphas and no buttons; at rest, the resting art and the
/// enabled buttons.
#[derive(Clone, Copy, PartialEq, Eq, Structural, Debug)]
pub enum RenderPlan {
    Transitioning {
        current: WorldState,
        goal: WorldState,
        current_alpha: BlendAlpha,
        goal_alpha: BlendAlpha,
    },
    Resting { state: WorldState },
}

/// The fixed shape of the button set: four buttons in the order Sun, Water,
/// Arrowhead, Restart, each with a sane rectangle.
pub open spec fn buttons_wf(bs: Seq<Button>) -> bool {
    &&& bs.len() == 4
    &&& bs[0].b_type == ButtonType::Sun
    &&& bs[1].b_type == ButtonType::Water
    &&& bs[2].b_type == ButtonType::Arrowhead
    &&& bs[3].b_type == ButtonType::Restart
    &&& forall|i: int| 0 <= i < 4 ==> (#[trigger] bs[i]).dest.wf()
}

/// Each button is enabled exactly when its input is meaningful from `s`.
pub open spec fn enablement_matches(bs: Seq<Button>, s: WorldState) -> bool {
    forall|i: int| 0 <= i < 4 ==> (#[trigger] bs[i]).disabled == !reachable(s, bs[i].b_type)
}

/// Every button is out of play.
pub open spec fn all_disabled(bs: Seq<Button>) -> bool {
    forall|i: int| 0 <= i < 4 ==> (#[trigger] bs[i]).disabled
}

/// The first enabled button, scanning from `from`, that the frame's pointer
/// sample clicks.
pub open spec fn spec_first_click_from(
    bs: Seq<Button>,
    from: int,
    px: i64,
    py: i64,
    down: bool,
    fresh: bool,
) -> Option<ButtonType>
    decreases bs.len() - from,
{
    if from < 0 || from >= bs.len() {
        None
    } else if spec_click(bs[from], px, py, down, fresh) {
        Some(bs[from].b_type)
    } else {
        spec_first_click_from(bs, from + 1, px, py, down, fresh)
    }
}

/// The first button the frame's pointer sample clicks, in button order.
pub open spec fn spec_first_click(
    bs: Seq<Button>,
    px: i64,
    py: i64,
    down: bool,
    fresh: bool,
) -> Option<ButtonType> {
    spec_first_click_from(bs, 0, px, py, down, fresh)
}

/// The transition a valid click starts: towards the table's next state, as an
/// egg-cracking transition carrying the input when that state is the first
/// crack stage, and as a regular crossfade otherwise.
pub open spec fn spec_start(s: WorldState, k: ButtonType) -> Transition {
    Transition {
        goal_state: spec_next_state(s, k),
        t_type: if spec_next_state(s, k) == WorldState::EggCrack1 || spec_next_state(s, k)
            == WorldState::BigEggCrack1 {
            TransitionType::EggCracking(k)
        } else {
            TransitionType::Regular
        },
        elapsed_ms: 0,
        sound_trigger: false,
    }
}

/// A transition started from a reachable pair is well formed and has its
/// whole duration ahead of it.
pub proof fn lemma_start_wf(s: WorldState, k: ButtonType)
    requires
        reachable(s, k),
    ensures
        spec_start(s, k).wf(),
        !spec_start(s, k).spec_completed(),
{
}

/// A sound cue as a piece of a frame's cue list.
pub open spec fn opt_cue_seq(o: Option<SoundIndex>) -> Seq<SoundIndex> {
    match o {
        None => Seq::empty(),
        Some(c) => seq![c],
    }
}

/// The cues one frame of `World::progress` plays, in order: the advanced
/// transition's own cue if its threshold was crossed, then the immediate cue
/// of the chained follow-up if the leftover time already crossed that one's
/// threshold too.
pub open spec fn spec_world_cues(t: Transition, delta_ms: int, scale_pick: bool) -> Seq<
    SoundIndex,
> {
    opt_cue_seq(spec_sound(spec_step(t, delta_ms), scale_pick)) + match spec_progress_follow(
        t,
        delta_ms,
    ) {
        Some(f) => opt_cue_seq(spec_sound(f, scale_pick)),
        None => Seq::empty(),
    }
}

/// The game world: the current resting evolutionary state, the active
/// transition if one is running, and the fixed button set.
pub struct World {
    pub state: WorldState,
    pub transition: Option<Transition>,
    pub buttons: Vec<Button>,
}

impl World {
    /// The controller's invariant, kept by every per-frame entry point.
    pub open spec fn wf(self) -> bool {
        &&& buttons_wf(self.buttons@)
        &&& match self.transition {
            None => !is_crack_stage(self.state) && enablement_matches(
                self.buttons@,
                self.state,
            ),
            Some(t) => t.wf() && all_disabled(self.buttons@),
        }
    }

    /// A fresh world: resting at the egg, no transition running, and the
    /// initial button pattern — the three elemental inputs offered, restart
    /// withheld.
    pub fn new() -> (w: World)
        ensures
            w.wf(),
            w.state == WorldState::Egg,
            w.transition is None,
    {
        World { state: WorldState::Egg, transition: None, buttons: Button::create() }
    }

    /// Replaces the enabled flag of every button by whether its input is
    /// meaningful from `s`, leaving everything else alone.
    fn set_enablement(&mut self, s: WorldState)
        requires
            old(self).buttons@.len() == 4,
        ensures
            final(self).state == old(self).state,
            final(self).transition == old(self).transition,
            final(self).buttons@.len() == 4,
            forall|i: int|
                0 <= i < 4 ==> final(self).buttons@[i] == (Button {
                    disabled: !reachable(s, old(self).buttons@[i].b_type),
                    ..old(self).buttons@[i]
                }),
    {
        let ghost orig = *self;
        let mut i: usize = 0;
        while i < 4
            invariant
                self.buttons@.len() == 4,
                i <= 4,
                self.state == orig.state,
                self.transition == orig.transition,
                forall|j: int|
                    0 <= j < i ==> self.buttons@[j] == (Button {
                        disabled: !reachable(s, orig.buttons@[j].b_type),
                        ..orig.buttons@[j]
                    }),
                forall|j: int| i <= j < 4 ==> self.buttons@[j] == orig.buttons@[j],
            decreases 4 - i,
        {
            let mut b = self.buttons[i];
            b.disabled = !is_reachable(s, b.b_type);
            self.buttons.set(i, b);
            i += 1;
        }
    }

    /// Starts the transition a click on `b_type` asks for, from the current
    /// resting state. Only callable for a pair of the evolution table.
    fn start_transition(&mut self, b_type: ButtonType)
        requires
            reachable(old(self).state, b_type),
        ensures
            *final(self) == (World {
                transition: Some(spec_start(old(self).state, b_type)),
                ..*old(self)
            }),
    {
        let goal = next_state(self.state, b_type);
        let t_type = match goal {
            WorldState::EggCrack1 | WorldState::BigEggCrack1 => TransitionType::EggCracking(
                b_type,
            ),
            _ => TransitionType::Regular,
        };
        proof {
            lemma_start_wf(self.state, b_type);
        }
        self.transition = Some(Transition::new(goal, t_type));
    }

    /// Consumes one frame's pointer sample. While a transition runs this does
    /// nothing: every button is out of play until the transition settles.
    /// Otherwise each button is polled, and the first click — necessarily on
    /// an input the evolution table defines for the resting state — takes all
    /// buttons out of play and starts the matching transition.
    pub fn handle_input(&mut self, px: i64, py: i64, down: bool, fresh: bool)
        requires
            old(self).wf(),
        ensures
            final(self).wf(),
            old(self).transition is Some ==> *final(self) == *old(self),
            old(self).transition is None ==> {
                &&& final(self).state == old(self).state
                &&& final(self).buttons@.len() == 4
                &&& match spec_first_click(old(self).buttons@, px, py, down, fresh) {
                    None => {
                        &&& final(self).transition is None
                        &&& forall|i: int|
                            0 <= i < 4 ==> final(self).buttons@[i] == spec_polled(
                                old(self).buttons@[i],
                                px,
                                py,
                                down,
                                fresh,
                            )
                    },
                    Some(k) => {
                        &&& final(self).transition == Some(spec_start(old(self).state, k))
                        &&& forall|i: int|
                            0 <= i < 4 ==> final(self).buttons@[i] == (Button {
                                disabled: true,
                                ..spec_polled(old(self).buttons@[i], px, py, down, fresh)
                            })
                    },
                }
            },
    {
        if self.transition.is_some() {
            return ;
        }
        let ghost orig = *self;
        let mut clicked: Option<ButtonType> = None;
        let mut i: usize = 0;
        while i < 4
            invariant
                orig.wf(),
                orig.transition is None,
                self.buttons@.len() == 4,
                i <= 4,
                self.state == orig.state,
                self.transition == orig.transition,
                forall|j: int|
                    0 <= j < i ==> self.buttons@[j] == spec_polled(
                        orig.buttons@[j],
                        px,
                        py,
                        down,
                        fresh,
                    ),
                forall|j: int| i <= j < 4 ==> self.buttons@[j] == orig.buttons@[j],
                spec_first_click(orig.buttons@, px, py, down, fresh) == match clicked {
                    Some(k) => Some(k),
                    None => spec_first_click_from(orig.buttons@, i as int, px, py, down, fresh),
                },
            decreases 4 - i,
        {
            let mut b = self.buttons[i];
            let c = b.update_button_state(px, py, down, fresh);
            self.buttons.set(i, b);
            if c && clicked.is_none() {
                clicked = Some(b.b_type);
            }
            i += 1;
        }
        if let Some(k) = clicked {
            let ghost polled = self.buttons@;
            let mut j: usize = 0;
            while j < 4
                invariant
                    self.buttons@.len() == 4,
                    j <= 4,
                    self.state == orig.state,
                    self.transition == orig.transition,
                    polled.len() == 4,
                    forall|m: int|
                        0 <= m < j ==> self.buttons@[m] == (Button {
                            disabled: true,
                            ..polled[m]
                        }),
                    forall|m: int| j <= m < 4 ==> self.buttons@[m] == polled[m],
                decreases 4 - j,
            {
                let mut b = self.buttons[j];
                b.disable();
                self.buttons.set(j, b);
                j += 1;
            }
            proof {
                lemma_first_click_reachable(orig.buttons@, 0, px, py, down, fresh, orig.state);
            }
            self.start_transition(k);
        }
    }

    /// Advances the active transition by one frame's elapsed milliseconds and
    /// returns the cues to play, in order. When the transition completes, the
    /// resting state becomes its goal, the buttons are re-enabled for exactly
    /// the inputs meaningful there — none, while a chained crack stage takes
    /// over — and the chained follow-up, already carrying the frame's
    /// leftover time, is installed along with its immediate cue if that
    /// already fired. `scale_pick` is the host's coin for choosing between
    /// the two hatching-scale cues.
    pub fn progress(&mut self, delta_ms: u32, scale_pick: bool) -> (cues: Vec<SoundIndex>)
        requires
            old(self).wf(),
        ensures
            final(self).wf(),
            old(self).transition is None ==> *final(self) == *old(self) && cues@ == Seq::<
                SoundIndex,
            >::empty(),
            old(self).transition matches Some(t) ==> {
                &&& cues@ == spec_world_cues(t, delta_ms as int, scale_pick)
                &&& final(self).buttons@.len() == 4
                &&& if spec_step(t, delta_ms as int).spec_completed() {
                    &&& final(self).state == t.goal_state
                    &&& final(self).transition == spec_progress_follow(t, delta_ms as int)
                    &&& forall|i: int|
                        0 <= i < 4 ==> final(self).buttons@[i] == (Button {
                            disabled: !reachable(t.goal_state, old(self).buttons@[i].b_type),
                            ..old(self).buttons@[i]
                        })
                } else {
                    &&& final(self).state == old(self).state
                    &&& final(self).transition == Some(spec_step(t, delta_ms as int))
                    &&& final(self).buttons@ == old(self).buttons@
                }
            },
    {
        let mut cues: Vec<SoundIndex> = Vec::new();
        if let Some(t0) = self.transition {
            let mut t = t0;
            let follow = t.progress(delta_ms);
            if let Some(c) = t.sound_to_play(scale_pick) {
                cues.push(c);
            }
            if t.completed() {
                self.state = t.goal_state;
                self.set_enablement(t.goal_state);
                if let Some(f) = follow {
                    if let Some(c2) = f.sound_to_play(scale_pick) {
                        cues.push(c2);
                    }
                }
                self.transition = follow;
            } else {
                self.transition = Some(t);
            }
        }
        cues
    }

    /// What to draw this frame: during a transition, the current and goal
    /// arts under the transition's blend, buttons hidden; at rest, the
    /// resting art, with the buttons drawn by their own `draw`.
    pub fn render(&self) -> (plan: RenderPlan)
        requires
            self.wf(),
        ensures
            match self.transition {
                Some(t) => plan == (RenderPlan::Transitioning {
                    current: self.state,
                    goal: t.goal_state,
                    current_alpha: spec_colors(t).0,
                    goal_alpha: spec_colors(t).1,
                }),
                None => plan == (RenderPlan::Resting { state: self.state }),
            },
    {
        match self.transition {
            Some(t) => {
                let (current_alpha, goal_alpha) = t.colors();
                RenderPlan::Transitioning {
                    current: self.state,
                    goal: t.goal_state,
                    current_alpha,
                    goal_alpha,
                }
            },
            None => RenderPlan::Resting { state: self.state },
        }
    }
}

/// A first click is always on an enabled button, so under the resting-state
/// enablement invariant its input is in the evolution table's domain.
pub proof fn lemma_first_click_reachable(
    bs: Seq<Button>,
    from: int,
    px: i64,
    py: i64,
    down: bool,
    fresh: bool,
    s: WorldState,
)
    requires
        bs.len() == 4,
        enablement_matches(bs, s),
        0 <= from,
    ensures
        spec_first_click_from(bs, from, px, py, down, fresh) matches Some(k) ==> reachable(s, k),
    decreases bs.len() - from,
{
    if from < bs.len() {
        if spec_click(bs[from], px, py, down, fresh) {
            assert(!bs[from].disabled);
        } else {
            lemma_first_click_reachable(bs, from + 1, px, py, down, fresh, s);
        }
    }
}

} // verus!
