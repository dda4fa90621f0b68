//! The transition engine: monotonic clamped progress, the one-shot sound
//! cue under any step splitting, the chaining rule, and the blend.

use evoclicker::state::ButtonType;
use evoclicker::state::WorldState;
use evoclicker::transition::sound_slot;
use evoclicker::transition::volume_permille;
use evoclicker::transition::BlendAlpha;
use evoclicker::transition::SoundIndex;
use evoclicker::transition::Transition;
use evoclicker::transition::TransitionType;
use evoclicker::transition::CRACK_TOTAL_MS;
use evoclicker::transition::REGULAR_TOTAL_MS;

fn regular_to(goal: WorldState) -> Transition {
    Transition::new(goal, TransitionType::Regular)
}

fn crack_to(goal: WorldState, start: ButtonType) -> Transition {
    Transition::new(goal, TransitionType::EggCracking(start))
}

#[test]
fn durations() {
    assert_eq!(regular_to(WorldState::Duckling).total_duration(), REGULAR_TOTAL_MS);
    assert_eq!(
        crack_to(WorldState::EggCrack1, ButtonType::Sun).total_duration(),
        CRACK_TOTAL_MS
    );
}

#[test]
fn elapsed_is_monotonic_and_clamped() {
    let mut t = regular_to(WorldState::Duckling);
    let mut last = t.elapsed_ms;
    for delta in [0, 16, 1000, 0, 8000, 500, 100000] {
        t.progress(delta);
        assert!(t.elapsed_ms >= last);
        assert!(t.elapsed_ms <= REGULAR_TOTAL_MS);
        last = t.elapsed_ms;
    }
    assert_eq!(t.elapsed_ms, REGULAR_TOTAL_MS);
}

#[test]
fn completed_stays_completed() {
    let mut t = crack_to(WorldState::EggCrack1, ButtonType::Water);
    assert!(!t.completed());
    t.progress(2999);
    assert!(!t.completed());
    t.progress(1);
    assert!(t.completed());
    t.progress(0);
    assert!(t.completed());
    t.progress(12345);
    assert!(t.completed());
    assert_eq!(t.elapsed_ms, CRACK_TOTAL_MS);
}

fn count_cues(t: &mut Transition, deltas: &[u32]) -> usize {
    let mut fired = 0;
    for &d in deltas {
        t.progress(d);
        if t.sound_to_play(true).is_some() {
            fired += 1;
        }
    }
    fired
}

#[test]
fn cue_fires_once_for_one_big_step() {
    let mut t = regular_to(WorldState::Duckling);
    assert_eq!(count_cues(&mut t, &[REGULAR_TOTAL_MS as u32]), 1);
}

#[test]
fn cue_fires_once_for_many_small_steps() {
    // 25 steps of 200 ms sum to 5000 ms, past the regular cue threshold of
    // 9300 * 10 / 19 = 4894 ms: same single cue as one 5000 ms step.
    let mut many = regular_to(WorldState::Duckling);
    assert_eq!(count_cues(&mut many, &[200; 25]), 1);
    let mut one = regular_to(WorldState::Duckling);
    assert_eq!(count_cues(&mut one, &[5000]), 1);
}

#[test]
fn cue_does_not_refire_when_parked_on_the_threshold() {
    let mut t = regular_to(WorldState::Duckling);
    assert_eq!(count_cues(&mut t, &[4894]), 1);
    assert_eq!(count_cues(&mut t, &[0, 0, 10]), 0);
}

#[test]
fn cue_below_threshold_never_fires() {
    let mut t = regular_to(WorldState::Duckling);
    assert_eq!(count_cues(&mut t, &[1000, 1000, 1000, 1000, 893]), 0);
}

#[test]
fn scale_cue_follows_the_coin() {
    let mut t = regular_to(WorldState::Duckling);
    t.progress(5000);
    assert_eq!(t.sound_to_play(true), Some(SoundIndex::Scale1));
    assert_eq!(t.sound_to_play(false), Some(SoundIndex::Scale2));
}

#[test]
fn crack_cues_by_stage_at_the_very_end() {
    let mut first = crack_to(WorldState::EggCrack1, ButtonType::Sun);
    first.progress(2999);
    assert_eq!(first.sound_to_play(true), None);
    first.progress(1);
    assert_eq!(first.sound_to_play(true), Some(SoundIndex::Crack1));

    let mut second = crack_to(WorldState::BigEggCrack2, ButtonType::Water);
    second.progress(3000);
    assert_eq!(second.sound_to_play(false), Some(SoundIndex::Crack2));
}

#[test]
fn chain_visits_both_crack_stages_then_the_hatchling() {
    let mut t = crack_to(WorldState::EggCrack1, ButtonType::Sun);
    let follow = t.progress(3000).expect("first crack stage chains");
    assert_eq!(follow.goal_state, WorldState::EggCrack2);
    assert_eq!(follow.t_type, TransitionType::EggCracking(ButtonType::Sun));
    assert_eq!(follow.elapsed_ms, 0);

    let mut second = follow;
    let hatch = second.progress(3000).expect("second crack stage chains");
    assert_eq!(hatch.goal_state, WorldState::Chick);
    assert_eq!(hatch.t_type, TransitionType::Regular);

    let mut hatch = hatch;
    assert_eq!(hatch.progress(REGULAR_TOTAL_MS as u32), None);
}

#[test]
fn chain_carries_the_input_to_the_hatchling() {
    let mut water = crack_to(WorldState::EggCrack2, ButtonType::Water);
    assert_eq!(water.progress(3000).unwrap().goal_state, WorldState::BabyTurtle);
    let mut big_sun = crack_to(WorldState::BigEggCrack1, ButtonType::Sun);
    assert_eq!(big_sun.progress(3000).unwrap().goal_state, WorldState::BigEggCrack2);
    let mut big_second = crack_to(WorldState::BigEggCrack2, ButtonType::Sun);
    assert_eq!(big_second.progress(3000).unwrap().goal_state, WorldState::SmallDragon);
    let mut big_water = crack_to(WorldState::BigEggCrack2, ButtonType::Water);
    assert_eq!(big_water.progress(3000).unwrap().goal_state, WorldState::Kraken);
}

#[test]
fn leftover_time_carries_into_the_follow_up_without_skipping_it() {
    let mut t = crack_to(WorldState::EggCrack1, ButtonType::Water);
    let follow = t.progress(3000 + 1234).expect("chains");
    assert_eq!(follow.goal_state, WorldState::EggCrack2);
    assert_eq!(follow.elapsed_ms, 1234);
    assert!(!follow.completed());

    // Even a delta long enough to finish two stages returns the second
    // stage, completed, rather than skipping ahead to the hatchling.
    let mut t = crack_to(WorldState::EggCrack1, ButtonType::Water);
    let follow = t.progress(9000).expect("chains");
    assert_eq!(follow.goal_state, WorldState::EggCrack2);
    assert_eq!(follow.elapsed_ms, CRACK_TOTAL_MS);
    assert!(follow.completed());
}

#[test]
fn regular_blend_landmarks() {
    let mut t = regular_to(WorldState::Duckling);
    // 0 %: current art opaque, goal art invisible.
    assert_eq!(t.colors(), (BlendAlpha::Opaque, BlendAlpha::Transparent));
    // 50 %: goal still invisible, current on the ease at phase pi (zero).
    t.progress(4650);
    assert_eq!(
        t.colors(),
        (
            BlendAlpha::CosEase { elapsed_ms: 4650, total_ms: 9300 },
            BlendAlpha::Transparent
        )
    );
    // 100 %: roles exactly swapped.
    let mut done = regular_to(WorldState::Duckling);
    done.progress(9300);
    assert_eq!(done.colors(), (BlendAlpha::Transparent, BlendAlpha::Opaque));
}

#[test]
fn regular_blend_is_opaque_in_the_outer_sevenths() {
    let mut early = regular_to(WorldState::Duckling);
    early.progress(1328);  // 7 * 1328 <= 9300
    assert_eq!(early.colors(), (BlendAlpha::Opaque, BlendAlpha::Transparent));
    let mut easing = regular_to(WorldState::Duckling);
    easing.progress(1329);  // just past the first seventh
    assert_eq!(
        easing.colors(),
        (
            BlendAlpha::CosEase { elapsed_ms: 1329, total_ms: 9300 },
            BlendAlpha::Transparent
        )
    );
    let mut late = regular_to(WorldState::Duckling);
    late.progress(8000);  // 7 * 8000 >= 6 * 9300, second half
    assert_eq!(late.colors(), (BlendAlpha::Transparent, BlendAlpha::Opaque));
}

#[test]
fn crack_blend_is_a_hard_cut() {
    let mut t = crack_to(WorldState::EggCrack1, ButtonType::Sun);
    assert_eq!(t.colors(), (BlendAlpha::Opaque, BlendAlpha::Transparent));
    t.progress(2999);
    assert_eq!(t.colors(), (BlendAlpha::Opaque, BlendAlpha::Transparent));
}

#[test]
fn cracks_are_louder_than_scales() {
    assert_eq!(volume_permille(SoundIndex::Crack1), 1100);
    assert_eq!(volume_permille(SoundIndex::Crack2), 1100);
    assert_eq!(volume_permille(SoundIndex::Scale1), 700);
    assert_eq!(volume_permille(SoundIndex::Scale2), 700);
}

#[test]
fn sound_slots_match_the_host_table_order() {
    assert_eq!(sound_slot(SoundIndex::Crack1), 0);
    assert_eq!(sound_slot(SoundIndex::Crack2), 1);
    assert_eq!(sound_slot(SoundIndex::Scale1), 2);
    assert_eq!(sound_slot(SoundIndex::Scale2), 3);
}
