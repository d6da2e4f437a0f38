//! The interaction resolver: given the current state, the single
//! contextually-correct action for a generic "interact" command, decided
//! by a fixed priority policy, and the human-readable hint derived from
//! it.

use vstd::prelude::*;

use crate::game::{Action, BoatState, Entity, EntityLocation, GameState, PlayerLocation};
use crate::world;
use crate::world::{Bank, GridPos};

verus! {

/// An entity can be picked up from a cell when it is resident on the
/// player's bank at that cell (and, trivially, is not already following).
pub open spec fn pickable_at(s: GameState, e: Entity, at: GridPos, bank: Bank) -> bool {
    &&& s.follower != Some(e)
    &&& s.loc_of(e) matches EntityLocation::OnBank { bank: b, pos } && b == bank && pos == at
}

/// An entity can be called from an adjacent cell when it is resident on
/// the player's bank within one step of the player.
pub open spec fn pickable_near(s: GameState, e: Entity, player_pos: GridPos, bank: Bank) -> bool {
    &&& s.follower != Some(e)
    &&& s.loc_of(e) matches EntityLocation::OnBank { bank: b, pos } && b == bank
        && world::is_adjacent_spec(player_pos, pos)
}

/// The pickup target next to a player on land: same-cell matches first,
/// then adjacent ones, and within each pass sheep before wolf before
/// cabbage.
pub open spec fn find_nearby_spec(s: GameState, player_pos: GridPos, bank: Bank) -> Option<
    Entity,
> {
    if pickable_at(s, Entity::Sheep, player_pos, bank) {
        Some(Entity::Sheep)
    } else if pickable_at(s, Entity::Wolf, player_pos, bank) {
        Some(Entity::Wolf)
    } else if pickable_at(s, Entity::Cabbage, player_pos, bank) {
        Some(Entity::Cabbage)
    } else if pickable_near(s, Entity::Sheep, player_pos, bank) {
        Some(Entity::Sheep)
    } else if pickable_near(s, Entity::Wolf, player_pos, bank) {
        Some(Entity::Wolf)
    } else if pickable_near(s, Entity::Cabbage, player_pos, bank) {
        Some(Entity::Cabbage)
    } else {
        None
    }
}

/// The resolver's verdict with the player on the boat: nothing while
/// crossing; docked, load a follower into an empty cargo slot first, then
/// unload lone cargo, else step off.
pub open spec fn resolve_on_boat_spec(s: GameState) -> Option<Action> {
    match s.boat {
        BoatState::Crossing { .. } => None,
        BoatState::Docked(_) => match (s.follower, s.boat_cargo) {
            (Some(e), None) => Some(Action::LoadOntoBoat(e)),
            (None, Some(e)) => Some(Action::UnloadFromBoat(e)),
            _ => Some(Action::UnboardBoat),
        },
    }
}

/// The resolver's verdict with the player on land: at the bank's dock
/// with the boat there, load a follower (or nothing at all while the
/// cargo slot is taken), else board; away from the dock, drop a follower;
/// empty-handed, pick up a nearby entity.
pub open spec fn resolve_on_land_spec(s: GameState, pos: GridPos) -> Option<Action> {
    match world::bank_of_spec(pos) {
        None => None,
        Some(bank) => {
            let at_dock = pos == world::dock_for_spec(bank) && s.boat == BoatState::Docked(bank);
            if at_dock {
                match s.follower {
                    Some(e) => if s.boat_cargo is None {
                        Some(Action::LoadOntoBoat(e))
                    } else {
                        None
                    },
                    None => Some(Action::BoardBoat),
                }
            } else {
                match s.follower {
                    Some(e) => Some(Action::Drop(e)),
                    None => match find_nearby_spec(s, pos, bank) {
                        Some(e) => Some(Action::PickUp(e)),
                        None => None,
                    },
                }
            }
        },
    }
}

/// What one "interact" command does in a state, if anything.
pub open spec fn resolve_spec(s: GameState) -> Option<Action> {
    match s.player {
        PlayerLocation::OnBoat => resolve_on_boat_spec(s),
        PlayerLocation::OnLand(pos) => resolve_on_land_spec(s, pos),
    }
}

/// Determine what the "interact" command does in the current game state.
/// Returns None if no valid interaction is available.
pub fn resolve_interaction(state: &GameState) -> (r: Option<Action>)
    ensures
        r == resolve_spec(*state),
{
    match state.player {
        PlayerLocation::OnBoat => resolve_on_boat(state),
        PlayerLocation::OnLand(pos) => resolve_on_land(state, pos),
    }
}

/// When the player is on the boat.
fn resolve_on_boat(state: &GameState) -> (r: Option<Action>)
    ensures
        r == resolve_on_boat_spec(*state),
{
    match state.boat {
        BoatState::Crossing { .. } => {
            // No interactions while crossing.
            return None;
        },
        BoatState::Docked(_) => {},
    }

    // Priority 1: a follower goes into an empty cargo slot.
    if let Some(entity) = state.follower {
        if state.boat_cargo.is_none() {
            return Some(Action::LoadOntoBoat(entity));
        }
    }

    // Priority 2: lone cargo is unloaded.
    if let Some(entity) = state.boat_cargo {
        if state.follower.is_none() {
            return Some(Action::UnloadFromBoat(entity));
        }
    }

    // Priority 3: get off the boat.
    Some(Action::UnboardBoat)
}

/// When the player is on land.
fn resolve_on_land(state: &GameState, pos: GridPos) -> (r: Option<Action>)
    ensures
        r == resolve_on_land_spec(*state, pos),
{
    let bank = match world::bank_of(pos) {
        Some(bank) => bank,
        None => {
            return None;
        },
    };

    let boat_here = match state.boat {
        BoatState::Docked(b) => b == bank,
        BoatState::Crossing { .. } => false,
    };
    let at_dock = world::is_dock_position(pos, bank) && boat_here;

    // Priority 1: at the dock with the boat, load a follower or board.
    if at_dock {
        if let Some(entity) = state.follower {
            if state.boat_cargo.is_none() {
                return Some(Action::LoadOntoBoat(entity));
            } else {
                return None;
            }
        }
        return Some(Action::BoardBoat);
    }

    // Priority 2: a follower is dropped.
    if let Some(entity) = state.follower {
        return Some(Action::Drop(entity));
    }

    // Priority 3: a nearby free entity is picked up.
    if let Some(entity) = find_nearby_entity(state, pos, bank) {
        return Some(Action::PickUp(entity));
    }

    None
}

/// Find an entity on the same bank at or adjacent to the player.
/// Priority order: same cell first, then adjacent; within each, sheep,
/// then wolf, then cabbage.
fn find_nearby_entity(state: &GameState, player_pos: GridPos, bank: Bank) -> (r: Option<Entity>)
    ensures
        r == find_nearby_spec(*state, player_pos, bank),
{
    if pickable_at_exec(state, Entity::Sheep, player_pos, bank) {
        return Some(Entity::Sheep);
    }
    if pickable_at_exec(state, Entity::Wolf, player_pos, bank) {
        return Some(Entity::Wolf);
    }
    if pickable_at_exec(state, Entity::Cabbage, player_pos, bank) {
        return Some(Entity::Cabbage);
    }
    if pickable_near_exec(state, Entity::Sheep, player_pos, bank) {
        return Some(Entity::Sheep);
    }
    if pickable_near_exec(state, Entity::Wolf, player_pos, bank) {
        return Some(Entity::Wolf);
    }
    if pickable_near_exec(state, Entity::Cabbage, player_pos, bank) {
        return Some(Entity::Cabbage);
    }
    None
}

fn pickable_at_exec(state: &GameState, e: Entity, at: GridPos, bank: Bank) -> (r: bool)
    ensures
        r == pickable_at(*state, e, at, bank),
{
    if let Some(f) = state.follower {
        if f == e {
            return false;
        }
    }
    match state.entity_location(e) {
        EntityLocation::OnBank { bank: b, pos } => b == bank && pos == at,
        _ => false,
    }
}

fn pickable_near_exec(state: &GameState, e: Entity, player_pos: GridPos, bank: Bank) -> (r: bool)
    ensures
        r == pickable_near(*state, e, player_pos, bank),
{
    if let Some(f) = state.follower {
        if f == e {
            return false;
        }
    }
    match state.entity_location(e) {
        EntityLocation::OnBank { bank: b, pos } => b == bank && world::is_adjacent(player_pos, pos),
        _ => false,
    }
}

/// The fixed hint text for an action.
pub open spec fn describe_spec(action: Action) -> Seq<char> {
    match action {
        Action::PickUp(e) => match e {
            Entity::Wolf => "[E] Call wolf"@,
            Entity::Sheep => "[E] Call sheep"@,
            Entity::Cabbage => "[E] Pick up cabbage"@,
        },
        Action::Drop(e) => match e {
            Entity::Wolf => "[E] Send wolf away"@,
            Entity::Sheep => "[E] Send sheep away"@,
            Entity::Cabbage => "[E] Put down cabbage"@,
        },
        Action::LoadOntoBoat(e) => match e {
            Entity::Wolf => "[E] Load wolf onto boat"@,
            Entity::Sheep => "[E] Load sheep onto boat"@,
            Entity::Cabbage => "[E] Load cabbage onto boat"@,
        },
        Action::UnloadFromBoat(e) => match e {
            Entity::Wolf => "[E] Unload wolf"@,
            Entity::Sheep => "[E] Unload sheep"@,
            Entity::Cabbage => "[E] Unload cabbage"@,
        },
        Action::BoardBoat => "[E] Board boat"@,
        Action::UnboardBoat => "[E] Get off boat"@,
    }
}

/// Return a human-readable hint for what the "interact" command will do:
/// one fixed string per resolved action, none when no action resolves.
pub fn describe_available_action(state: &GameState) -> (r: Option<&'static str>)
    ensures
        match resolve_spec(*state) {
            Some(a) => r matches Some(t) && t@ == describe_spec(a),
            None => r is None,
        },
{
    let action = match resolve_interaction(state) {
        Some(a) => a,
        None => {
            return None;
        },
    };
    let text: &'static str = match action {
        Action::PickUp(e) => match e {
            Entity::Wolf => "[E] Call wolf",
            Entity::Sheep => "[E] Call sheep",
            Entity::Cabbage => "[E] Pick up cabbage",
        },
        Action::Drop(e) => match e {
            Entity::Wolf => "[E] Send wolf away",
            Entity::Sheep => "[E] Send sheep away",
            Entity::Cabbage => "[E] Put down cabbage",
        },
        Action::LoadOntoBoat(e) => match e {
            Entity::Wolf => "[E] Load wolf onto boat",
            Entity::Sheep => "[E] Load sheep onto boat",
            Entity::Cabbage => "[E] Load cabbage onto boat",
        },
        Action::UnloadFromBoat(e) => match e {
            Entity::Wolf => "[E] Unload wolf",
            Entity::Sheep => "[E] Unload sheep",
            Entity::Cabbage => "[E] Unload cabbage",
        },
        Action::BoardBoat => "[E] Board boat",
        Action::UnboardBoat => "[E] Get off boat",
    };
    Some(text)
}

} // verus!
