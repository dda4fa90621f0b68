//! The evolutionary states and the graph of moves between them.
//!
//! The graph is a pure table: for every pair of a resting state and a chosen
//! input that the game can actually offer (`reachable`), it names the state the
//! game evolves into next. Querying any other pair is a programming error, so
//! the executable lookup carries `reachable` as a hard precondition instead of
//! silently returning a default.

use vstd::prelude::*;

verus! {

/// One named creature form of the fixed progression. Each form is backed by
/// one piece of pre-rendered artwork, addressed by `art_index`.
#[derive(Clone, Copy, PartialEq, Eq, Structural, Debug)]
pub enum WorldState {
    Egg,
    EggCrack1,
    EggCrack2,
    Chick,
    Duckling,
    Duck,
    Bird,
    Heron,
    BabyTurtle,
    Salamander,
    Dragonmander,
    Turtle,
    TurtleWizard,
    BigEgg,
    BigEggCrack1,
    BigEggCrack2,
    SmallDragon,
    Nessi,
    Kraken,
    Jellyfish,
}

/// The elemental inputs a player can pick. `Restart` is not part of the
/// evolutionary graph proper: it is only offered at terminal forms and resets
/// the game to the initial egg.
#[derive(Clone, Copy, PartialEq, Eq, Structural, Debug)]
pub enum ButtonType {
    Sun,
    Water,
    Arrowhead,
    Restart,
}

/// Number of states, and therefore of artwork pieces the host must load.
pub const STATE_COUNT: usize = 20;

/// The artwork slot of each state.
pub open spec fn spec_art_index(s: WorldState) -> int {
    match s {
        WorldState::Egg => 0,
        WorldState::EggCrack1 => 1,
        WorldState::EggCrack2 => 2,
        WorldState::Chick => 3,
        WorldState::Duckling => 4,
        WorldState::Duck => 5,
        WorldState::Bird => 6,
        WorldState::Heron => 7,
        WorldState::BabyTurtle => 8,
        WorldState::Salamander => 9,
        WorldState::Dragonmander => 10,
        WorldState::Turtle => 11,
        WorldState::TurtleWizard => 12,
        WorldState::BigEgg => 13,
        WorldState::BigEggCrack1 => 14,
        WorldState::BigEggCrack2 => 15,
        WorldState::SmallDragon => 16,
        WorldState::Nessi => 17,
        WorldState::Kraken => 18,
        WorldState::Jellyfish => 19,
    }
}

/// Artwork slot of a state; always in bounds of the `STATE_COUNT` slots.
pub fn art_index(s: WorldState) -> (i: usize)
    ensures
        i == spec_art_index(s),
        i < STATE_COUNT,
{
    match s {
        WorldState::Egg => 0,
        WorldState::EggCrack1 => 1,
        WorldState::EggCrack2 => 2,
        WorldState::Chick => 3,
        WorldState::Duckling => 4,
        WorldState::Duck => 5,
        WorldState::Bird => 6,
        WorldState::Heron => 7,
        WorldState::BabyTurtle => 8,
        WorldState::Salamander => 9,
        WorldState::Dragonmander => 10,
        WorldState::Turtle => 11,
        WorldState::TurtleWizard => 12,
        WorldState::BigEgg => 13,
        WorldState::BigEggCrack1 => 14,
        WorldState::BigEggCrack2 => 15,
        WorldState::SmallDragon => 16,
        WorldState::Nessi => 17,
        WorldState::Kraken => 18,
        WorldState::Jellyfish => 19,
    }
}

/// A form with no further evolution: only `Restart` is meaningful there.
pub open spec fn is_terminal(s: WorldState) -> bool {
    match s {
        WorldState::Duck
        | WorldState::Heron
        | WorldState::Dragonmander
        | WorldState::TurtleWizard
        | WorldState::Nessi
        | WorldState::Jellyfish => true,
        _ => false,
    }
}

/// An intermediate stage of a two-stage egg-cracking sequence. These states
/// are only ever rested in while a chained transition is running, so no input
/// is offered from them.
pub open spec fn is_crack_stage(s: WorldState) -> bool {
    match s {
        WorldState::EggCrack1
        | WorldState::EggCrack2
        | WorldState::BigEggCrack1
        | WorldState::BigEggCrack2 => true,
        _ => false,
    }
}

/// The domain of the evolution table: exactly the (state, input) pairs the
/// button enablement can produce. Everything else is an invalid combination.
pub open spec fn reachable(s: WorldState, k: ButtonType) -> bool {
    match (s, k) {
        (WorldState::Egg, ButtonType::Sun) => true,
        (WorldState::Egg, ButtonType::Water) => true,
        (WorldState::Egg, ButtonType::Arrowhead) => true,
        (WorldState::Chick, ButtonType::Water) => true,
        (WorldState::Chick, ButtonType::Arrowhead) => true,
        (WorldState::Duckling, ButtonType::Arrowhead) => true,
        (WorldState::Bird, ButtonType::Water) => true,
        (WorldState::BabyTurtle, ButtonType::Sun) => true,
        (WorldState::BabyTurtle, ButtonType::Arrowhead) => true,
        (WorldState::Salamander, ButtonType::Arrowhead) => true,
        (WorldState::Turtle, ButtonType::Sun) => true,
        (WorldState::BigEgg, ButtonType::Sun) => true,
        (WorldState::BigEgg, ButtonType::Water) => true,
        (WorldState::SmallDragon, ButtonType::Water) => true,
        (WorldState::Kraken, ButtonType::Sun) => true,
        (WorldState::Duck, ButtonType::Restart) => true,
        (WorldState::Heron, ButtonType::Restart) => true,
        (WorldState::Dragonmander, ButtonType::Restart) => true,
        (WorldState::TurtleWizard, ButtonType::Restart) => true,
        (WorldState::Nessi, ButtonType::Restart) => true,
        (WorldState::Jellyfish, ButtonType::Restart) => true,
        _ => false,
    }
}

/// The evolution table as a total function. Its value is only meaningful on
/// pairs in `reachable`; elsewhere it is a filler, never exposed, because the
/// executable lookup refuses such pairs outright.
pub open spec fn spec_next_state(s: WorldState, k: ButtonType) -> WorldState {
    match (s, k) {
        (WorldState::Egg, ButtonType::Sun) => WorldState::EggCrack1,
        (WorldState::Egg, ButtonType::Water) => WorldState::EggCrack1,
        (WorldState::Egg, ButtonType::Arrowhead) => WorldState::BigEgg,
        (WorldState::Chick, ButtonType::Water) => WorldState::Duckling,
        (WorldState::Chick, ButtonType::Arrowhead) => WorldState::Bird,
        (WorldState::Duckling, ButtonType::Arrowhead) => WorldState::Duck,
        (WorldState::Bird, ButtonType::Water) => WorldState::Heron,
        (WorldState::BabyTurtle, ButtonType::Sun) => WorldState::Salamander,
        (WorldState::BabyTurtle, ButtonType::Arrowhead) => WorldState::Turtle,
        (WorldState::Salamander, ButtonType::Arrowhead) => WorldState::Dragonmander,
        (WorldState::Turtle, ButtonType::Sun) => WorldState::TurtleWizard,
        (WorldState::BigEgg, ButtonType::Sun) => WorldState::BigEggCrack1,
        (WorldState::BigEgg, ButtonType::Water) => WorldState::BigEggCrack1,
        (WorldState::SmallDragon, ButtonType::Water) => WorldState::Nessi,
        (WorldState::Kraken, ButtonType::Sun) => WorldState::Jellyfish,
        (WorldState::Duck, ButtonType::Restart) => WorldState::Egg,
        (WorldState::Heron, ButtonType::Restart) => WorldState::Egg,
        (WorldState::Dragonmander, ButtonType::Restart) => WorldState::Egg,
        (WorldState::TurtleWizard, ButtonType::Restart) => WorldState::Egg,
        (WorldState::Nessi, ButtonType::Restart) => WorldState::Egg,
        (WorldState::Jellyfish, ButtonType::Restart) => WorldState::Egg,
        _ => WorldState::Egg,
    }
}

/// Looks up the next evolutionary state for a chosen input.
///
/// Defined for every pair the evolution table flags reachable, and for no
/// other: querying an invalid pair is a fatal precondition violation, never a
/// recoverable value, so bookkeeping bugs surface instead of being swallowed.
pub fn next_state(s: WorldState, k: ButtonType) -> (r: WorldState)
    requires
        reachable(s, k),
    ensures
        r == spec_next_state(s, k),
{
    match (s, k) {
        (WorldState::Egg, ButtonType::Sun) => WorldState::EggCrack1,
        (WorldState::Egg, ButtonType::Water) => WorldState::EggCrack1,
        (WorldState::Egg, ButtonType::Arrowhead) => WorldState::BigEgg,
        (WorldState::Chick, ButtonType::Water) => WorldState::Duckling,
        (WorldState::Chick, ButtonType::Arrowhead) => WorldState::Bird,
        (WorldState::Duckling, ButtonType::Arrowhead) => WorldState::Duck,
        (WorldState::Bird, ButtonType::Water) => WorldState::Heron,
        (WorldState::BabyTurtle, ButtonType::Sun) => WorldState::Salamander,
        (WorldState::BabyTurtle, ButtonType::Arrowhead) => WorldState::Turtle,
        (WorldState::Salamander, ButtonType::Arrowhead) => WorldState::Dragonmander,
        (WorldState::Turtle, ButtonType::Sun) => WorldState::TurtleWizard,
        (WorldState::BigEgg, ButtonType::Sun) => WorldState::BigEggCrack1,
        (WorldState::BigEgg, ButtonType::Water) => WorldState::BigEggCrack1,
        (WorldState::SmallDragon, ButtonType::Water) => WorldState::Nessi,
        (WorldState::Kraken, ButtonType::Sun) => WorldState::Jellyfish,
        (WorldState::Duck, ButtonType::Restart) => WorldState::Egg,
        (WorldState::Heron, ButtonType::Restart) => WorldState::Egg,
        (WorldState::Dragonmander, ButtonType::Restart) => WorldState::Egg,
        (WorldState::TurtleWizard, ButtonType::Restart) => WorldState::Egg,
        (WorldState::Nessi, ButtonType::Restart) => WorldState::Egg,
        (WorldState::Jellyfish, ButtonType::Restart) => WorldState::Egg,
        _ => WorldState::Egg,
    }
}

/// Whether an input is currently meaningful from a resting state; the world
/// controller keeps each button's enabled flag equal to this.
pub fn is_reachable(s: WorldState, k: ButtonType) -> (b: bool)
    ensures
        b == reachable(s, k),
{
    match (s, k) {
        (WorldState::Egg, ButtonType::Sun) => true,
        (WorldState::Egg, ButtonType::Water) => true,
        (WorldState::Egg, ButtonType::Arrowhead) => true,
        (WorldState::Chick, ButtonType::Water) => true,
        (WorldState::Chick, ButtonType::Arrowhead) => true,
        (WorldState::Duckling, ButtonType::Arrowhead) => true,
        (WorldState::Bird, ButtonType::Water) => true,
        (WorldState::BabyTurtle, ButtonType::Sun) => true,
        (WorldState::BabyTurtle, ButtonType::Arrowhead) => true,
        (WorldState::Salamander, ButtonType::Arrowhead) => true,
        (WorldState::Turtle, ButtonType::Sun) => true,
        (WorldState::BigEgg, ButtonType::Sun) => true,
        (WorldState::BigEgg, ButtonType::Water) => true,
        (WorldState::SmallDragon, ButtonType::Water) => true,
        (WorldState::Kraken, ButtonType::Sun) => true,
        (WorldState::Duck, ButtonType::Restart) => true,
        (WorldState::Heron, ButtonType::Restart) => true,
        (WorldState::Dragonmander, ButtonType::Restart) => true,
        (WorldState::TurtleWizard, ButtonType::Restart) => true,
        (WorldState::Nessi, ButtonType::Restart) => true,
        (WorldState::Jellyfish, ButtonType::Restart) => true,
        _ => false,
    }
}

/// Every state has its own artwork slot: the indexing into the parallel
/// artwork array never collides.
pub proof fn lemma_art_index_injective(a: WorldState, b: WorldState)
    ensures
        spec_art_index(a) == spec_art_index(b) ==> a == b,
{
}

/// `Restart` is meaningful exactly at the terminal forms, and a terminal form
/// offers nothing else.
pub proof fn lemma_restart_at_terminals(s: WorldState, k: ButtonType)
    ensures
        reachable(s, ButtonType::Restart) <==> is_terminal(s),
        is_terminal(s) && reachable(s, k) ==> k == ButtonType::Restart,
{
}

} // verus!
