//! Proof functions stating the engine's cross-function guarantees: what a
//! successful move does to a follower, that pick-up and drop cancel, what
//! loading and unloading leave behind, how a crossing completes, which
//! unattended pairs lose the game, and that a terminal phase freezes the
//! state.

use vstd::prelude::*;

use crate::engine::{step_spec, InputEvent};
use crate::game::{
    Action, BoatState, Entity, EntityLocation, GameState, LoseReason, PlayerLocation,
    initial_state, CROSSING_DURATION_MS,
};
use crate::world;
use crate::world::{Bank, Direction, GridPos};

verus! {

/// The starting layout satisfies every state invariant.
pub proof fn law_initial_wf()
    ensures
        initial_state().wf(),
{
}

/// After a successful move with an active follower, the follower sits on
/// the cell the player vacated, on that cell's bank.
pub proof fn law_follower_trails(s: GameState, dir: Direction, e: Entity, p: GridPos)
    requires
        s.wf(),
        s.player == PlayerLocation::OnLand(p),
        s.follower == Some(e),
        s.can_move_spec(dir),
    ensures
        s.moved_spec(dir).loc_of(e) matches EntityLocation::OnBank { bank, pos } && Some(bank)
            == world::bank_of_spec(p) && pos == p,
{
}

/// Picking an entity up and dropping it again leaves it on the player's
/// own cell and bank, with empty hands before and after: the follower
/// slot holds it in between and is cleared again.
pub proof fn law_pickup_then_drop(s: GameState, e: Entity, p: GridPos, b: Bank)
    requires
        s.player == PlayerLocation::OnLand(p),
        world::bank_of_spec(p) == Some(b),
    ensures
        ({
            let s1 = s.apply_action_spec(Action::PickUp(e));
            let s2 = s1.apply_action_spec(Action::Drop(e));
            &&& s1.follower == Some(e)
            &&& s1.loc_of(e) is FollowingPlayer
            &&& s2.follower is None
            &&& s2.loc_of(e) == (EntityLocation::OnBank { bank: b, pos: p })
        }),
{
}

/// Loading an entity onto the boat clears the follower slot, fills the
/// single cargo slot with it, and puts its location on the boat.
pub proof fn law_load_onto_boat(s: GameState, e: Entity)
    ensures
        ({
            let s1 = s.apply_action_spec(Action::LoadOntoBoat(e));
            &&& s1.follower is None
            &&& s1.boat_cargo == Some(e)
            &&& s1.loc_of(e) is OnBoat
        }),
{
}

/// Unloading at a docked bank clears the cargo slot and places the entity
/// at that bank's dock.
pub proof fn law_unload_at_dock(s: GameState, e: Entity, bank: Bank)
    requires
        s.boat == BoatState::Docked(bank),
    ensures
        ({
            let s1 = s.apply_action_spec(Action::UnloadFromBoat(e));
            &&& s1.boat_cargo is None
            &&& s1.loc_of(e) == (EntityLocation::OnBank { bank, pos: world::dock_for_spec(bank) })
        }),
{
}

/// A crossing started from a dock completes once the accumulated delta
/// reaches the duration: the boat docks on the opposite bank and the
/// completed-crossing counter increments by exactly one.
pub proof fn law_crossing_completes(s: GameState, b: Bank, dt: u32)
    requires
        s.player is OnBoat,
        s.boat == BoatState::Docked(b),
        dt >= CROSSING_DURATION_MS,
        s.crossing_count < u32::MAX,
    ensures
        ({
            let s1 = s.started_spec().tick_spec(dt);
            &&& s1.boat == BoatState::Docked(b.opposite_spec())
            &&& s1.crossing_count == s.crossing_count + 1
        }),
{
}

/// While the accumulated delta stays below the duration, the boat keeps
/// crossing and its progress equals the accumulated delta; the counter
/// does not move.
pub proof fn law_crossing_accumulates(s: GameState, b: Bank, d1: u32, d2: u32)
    requires
        s.player is OnBoat,
        s.boat == BoatState::Docked(b),
        d1 + d2 < CROSSING_DURATION_MS,
    ensures
        ({
            let s1 = s.started_spec().tick_spec(d1).tick_spec(d2);
            &&& s1.boat == (BoatState::Crossing { from: b, progress: (d1 + d2) as u32 })
            &&& s1.crossing_count == s.crossing_count
        }),
{
}

/// While crossing, progress never decreases: a tick either keeps the boat
/// crossing with at least the progress it had, or completes the crossing
/// on the opposite bank.
pub proof fn law_crossing_progress_monotone(s: GameState, b: Bank, pr: u32, dt: u32)
    requires
        s.wf(),
        s.boat == (BoatState::Crossing { from: b, progress: pr }),
    ensures
        ({
            let s1 = s.tick_spec(dt);
            ||| s1.boat == BoatState::Docked(b.opposite_spec())
            ||| (s1.boat matches BoatState::Crossing { from, progress } && from == b && progress
                >= pr)
        }),
{
}

/// Wolf and sheep resident together on a bank the player does not occupy
/// lose the game as wolf-ate-sheep, wherever the cabbage is.
pub proof fn law_wolf_and_sheep_unattended(s: GameState, b: Bank)
    requires
        s.player_bank_spec() != Some(b),
        s.on_bank_free(Entity::Wolf, b),
        s.on_bank_free(Entity::Sheep, b),
    ensures
        s.eating_spec() == Some(LoseReason::WolfAteSheep),
{
}

/// Sheep and cabbage resident together without the wolf on a bank the
/// player does not occupy lose the game as sheep-ate-cabbage.
pub proof fn law_sheep_and_cabbage_unattended(s: GameState, b: Bank)
    requires
        s.player_bank_spec() != Some(b),
        s.on_bank_free(Entity::Sheep, b),
        s.on_bank_free(Entity::Cabbage, b),
        !s.on_bank_free(Entity::Wolf, b),
    ensures
        s.eating_spec() == Some(LoseReason::SheepAteCabbage),
{
}

/// Wolf and cabbage together are never a forbidden pair: while the sheep
/// is resident on neither bank, no departure loses the game.
pub proof fn law_wolf_and_cabbage_safe(s: GameState)
    requires
        !s.on_bank_free(Entity::Sheep, Bank::Left),
        !s.on_bank_free(Entity::Sheep, Bank::Right),
    ensures
        s.eating_spec() is None,
{
}

/// With all three entities resident on one unattended bank, both
/// forbidden pairs hold and wolf-ate-sheep takes precedence.
pub proof fn law_unattended_trio_precedence(s: GameState, b: Bank)
    requires
        s.player_bank_spec() != Some(b),
        s.on_bank_free(Entity::Wolf, b),
        s.on_bank_free(Entity::Sheep, b),
        s.on_bank_free(Entity::Cabbage, b),
    ensures
        s.eating_spec() == Some(LoseReason::WolfAteSheep),
{
}

/// Once the phase is won or lost, no event but a restart changes the
/// state in any way.
pub proof fn law_terminal_phase_locked(s: GameState, event: InputEvent, dt: u32)
    requires
        s.phase !is Playing,
        event !is Restart,
    ensures
        step_spec(s, event, dt) == s,
{
}

} // verus!
