//! The game state aggregate and its transitions: player movement, the
//! effects of interaction actions, the timed boat crossing, and the
//! win/lose rule checks.
//!
//! Time is measured in integer milliseconds; a crossing takes
//! [`CROSSING_DURATION_MS`] of accumulated delta time, and a crossing's
//! `progress` is the accumulated time clamped at that duration.

use vstd::prelude::*;

use crate::world;
use crate::world::{Bank, Direction, GridPos};

verus! {

/// The three transportable entities.
#[derive(Debug, Clone, Copy, PartialEq, Eq, Hash, Structural)]
pub enum Entity {
    Wolf,
    Sheep,
    Cabbage,
}

impl Entity {
    pub open spec fn name_spec(self) -> Seq<char> {
        match self {
            Entity::Wolf => "wolf"@,
            Entity::Sheep => "sheep"@,
            Entity::Cabbage => "cabbage"@,
        }
    }

    pub fn name(self) -> (r: &'static str)
        ensures
            r@ == self.name_spec(),
    {
        match self {
            Entity::Wolf => "wolf",
            Entity::Sheep => "sheep",
            Entity::Cabbage => "cabbage",
        }
    }

    /// Wolf and sheep are alive; the cabbage is not. Cosmetic flavour,
    /// never consulted by the rules.
    pub fn is_alive(self) -> (r: bool)
        ensures
            r == (self is Wolf || self is Sheep),
    {
        match self {
            Entity::Wolf => true,
            Entity::Sheep => true,
            Entity::Cabbage => false,
        }
    }
}

/// Where an entity currently is.
#[derive(Debug, Clone, Copy, PartialEq, Eq, Structural)]
pub enum EntityLocation {
    OnBank { bank: Bank, pos: GridPos },
    FollowingPlayer,
    OnBoat,
}

/// Where the player currently is.
#[derive(Debug, Clone, Copy, PartialEq, Eq, Structural)]
pub enum PlayerLocation {
    OnLand(GridPos),
    OnBoat,
}

/// The boat's state. While crossing, `progress` is the accumulated
/// crossing time in milliseconds, always below [`CROSSING_DURATION_MS`];
/// the crossed fraction is `progress` divided by the duration.
#[derive(Debug, Clone, Copy, PartialEq, Eq, Structural)]
pub enum BoatState {
    Docked(Bank),
    Crossing { from: Bank, progress: u32 },
}

/// High-level game phase.
#[derive(Debug, Clone, Copy, PartialEq, Eq, Structural)]
pub enum GamePhase {
    Playing,
    Won,
    Lost(LoseReason),
}

/// Why the player lost.
#[derive(Debug, Clone, Copy, PartialEq, Eq, Structural)]
pub enum LoseReason {
    WolfAteSheep,
    SheepAteCabbage,
}

impl LoseReason {
    pub open spec fn message_spec(self) -> Seq<char> {
        match self {
            LoseReason::WolfAteSheep => "The wolf ate the sheep!"@,
            LoseReason::SheepAteCabbage => "The sheep ate the cabbage!"@,
        }
    }

    pub fn message(self) -> (r: &'static str)
        ensures
            r@ == self.message_spec(),
    {
        match self {
            LoseReason::WolfAteSheep => "The wolf ate the sheep!",
            LoseReason::SheepAteCabbage => "The sheep ate the cabbage!",
        }
    }
}

/// All possible interaction actions.
#[derive(Debug, Clone, Copy, PartialEq, Eq, Structural)]
pub enum Action {
    PickUp(Entity),
    Drop(Entity),
    LoadOntoBoat(Entity),
    UnloadFromBoat(Entity),
    BoardBoat,
    UnboardBoat,
}

/// A crossing completes after this much accumulated delta time.
pub const CROSSING_DURATION_MS: u32 = 2000;

/// The full game state.
#[derive(Debug, Clone, Copy, PartialEq, Eq)]
pub struct GameState {
    pub phase: GamePhase,
    pub player: PlayerLocation,
    pub wolf_loc: EntityLocation,
    pub sheep_loc: EntityLocation,
    pub cabbage_loc: EntityLocation,
    pub follower: Option<Entity>,
    pub boat: BoatState,
    pub boat_cargo: Option<Entity>,
    pub crossing_timer: u32,
    pub crossing_count: u32,
}

/// The fixed starting layout: player and all three entities on the left
/// bank, boat docked left, timers zeroed.
pub open spec fn initial_state() -> GameState {
    GameState {
        phase: GamePhase::Playing,
        player: PlayerLocation::OnLand(GridPos { col: 2, row: 4 }),
        wolf_loc: EntityLocation::OnBank { bank: Bank::Left, pos: GridPos { col: 1, row: 2 } },
        sheep_loc: EntityLocation::OnBank { bank: Bank::Left, pos: GridPos { col: 1, row: 4 } },
        cabbage_loc: EntityLocation::OnBank { bank: Bank::Left, pos: GridPos { col: 1, row: 6 } },
        follower: None,
        boat: BoatState::Docked(Bank::Left),
        boat_cargo: None,
        crossing_timer: 0,
        crossing_count: 0,
    }
}

impl GameState {
    // ----- the mathematical model -----

    /// The location of one entity.
    pub open spec fn loc_of(self, e: Entity) -> EntityLocation {
        match e {
            Entity::Wolf => self.wolf_loc,
            Entity::Sheep => self.sheep_loc,
            Entity::Cabbage => self.cabbage_loc,
        }
    }

    /// This state with one entity's location replaced.
    pub open spec fn with_loc(self, e: Entity, loc: EntityLocation) -> GameState {
        match e {
            Entity::Wolf => GameState { wolf_loc: loc, ..self },
            Entity::Sheep => GameState { sheep_loc: loc, ..self },
            Entity::Cabbage => GameState { cabbage_loc: loc, ..self },
        }
    }

    /// The bank the player stands on: none while on the boat.
    pub open spec fn player_bank_spec(self) -> Option<Bank> {
        match self.player {
            PlayerLocation::OnLand(p) => world::bank_of_spec(p),
            PlayerLocation::OnBoat => None,
        }
    }

    /// An entity counts as resident on a bank when its location says so
    /// and it is not the one currently following the player (a followed
    /// entity is attended wherever its nominal position lies).
    pub open spec fn on_bank_free(self, e: Entity, bank: Bank) -> bool {
        &&& self.follower != Some(e)
        &&& self.loc_of(e) matches EntityLocation::OnBank { bank: b, .. } && b == bank
    }

    /// The entities resident on a bank, in the fixed wolf, sheep,
    /// cabbage order.
    pub open spec fn bank_seq_spec(self, bank: Bank) -> Seq<Entity> {
        (if self.on_bank_free(Entity::Wolf, bank) { seq![Entity::Wolf] } else { Seq::<Entity>::empty() })
            + (if self.on_bank_free(Entity::Sheep, bank) { seq![Entity::Sheep] } else { Seq::<Entity>::empty() })
            + (if self.on_bank_free(Entity::Cabbage, bank) { seq![Entity::Cabbage] } else { Seq::<Entity>::empty() })
    }

    /// Well-formedness of the aggregate:
    /// - a player on land stands on a walkable cell;
    /// - an entity tagged as following is the recorded follower;
    /// - an entity is on the boat exactly when it is the recorded cargo;
    /// - the follower is never also the cargo;
    /// - while crossing, the timer runs below the duration and the boat's
    ///   progress equals it.
    pub open spec fn wf(self) -> bool {
        &&& self.player matches PlayerLocation::OnLand(p) ==> world::is_walkable_spec(p)
        &&& self.follow_ok(Entity::Wolf)
        &&& self.follow_ok(Entity::Sheep)
        &&& self.follow_ok(Entity::Cabbage)
        &&& self.boat_ok(Entity::Wolf)
        &&& self.boat_ok(Entity::Sheep)
        &&& self.boat_ok(Entity::Cabbage)
        &&& self.follower matches Some(e) ==> self.boat_cargo != Some(e)
        &&& self.boat matches BoatState::Crossing { progress, .. } ==> self.crossing_timer
            < CROSSING_DURATION_MS && progress == self.crossing_timer
    }

    pub open spec fn follow_ok(self, e: Entity) -> bool {
        self.loc_of(e) is FollowingPlayer ==> self.follower == Some(e)
    }

    pub open spec fn boat_ok(self, e: Entity) -> bool {
        (self.loc_of(e) is OnBoat) <==> (self.boat_cargo == Some(e))
    }

    // ----- movement -----

    /// A move succeeds when the player is on land and the stepped cell is
    /// walkable.
    pub open spec fn can_move_spec(self, dir: Direction) -> bool {
        self.player matches PlayerLocation::OnLand(p) && world::walkable_cell(
            p.col + dir.delta_spec().0,
            p.row + dir.delta_spec().1,
        )
    }

    /// The state after a move attempt: on success the player advances one
    /// cell and a follower, if any, snaps to the cell the player vacated;
    /// on failure the state is unchanged.
    pub open spec fn moved_spec(self, dir: Direction) -> GameState {
        match self.player {
            PlayerLocation::OnLand(p) => {
                let c = p.col + dir.delta_spec().0;
                let r = p.row + dir.delta_spec().1;
                if world::walkable_cell(c, r) {
                    let np = GridPos { col: c as i32, row: r as i32 };
                    let moved = GameState { player: PlayerLocation::OnLand(np), ..self };
                    match self.follower {
                        Some(e) => match world::bank_of_spec(np) {
                            Some(b) => moved.with_loc(e, EntityLocation::OnBank { bank: b, pos: p }),
                            None => moved,
                        },
                        None => moved,
                    }
                } else {
                    self
                }
            },
            PlayerLocation::OnBoat => self,
        }
    }

    // ----- actions -----

    /// The state after executing one action, exactly as `execute_action`
    /// performs it.
    pub open spec fn apply_action_spec(self, action: Action) -> GameState {
        match action {
            Action::PickUp(e) => (GameState { follower: Some(e), ..self }).with_loc(
                e,
                EntityLocation::FollowingPlayer,
            ),
            Action::Drop(e) => {
                let s = GameState { follower: None, ..self };
                match self.player {
                    PlayerLocation::OnLand(p) => match world::bank_of_spec(p) {
                        Some(b) => s.with_loc(e, EntityLocation::OnBank { bank: b, pos: p }),
                        None => s,
                    },
                    PlayerLocation::OnBoat => s,
                }
            },
            Action::LoadOntoBoat(e) => (GameState {
                follower: None,
                boat_cargo: Some(e),
                ..self
            }).with_loc(e, EntityLocation::OnBoat),
            Action::UnloadFromBoat(e) => {
                let s = GameState { boat_cargo: None, ..self };
                match self.boat {
                    BoatState::Docked(bank) => s.with_loc(
                        e,
                        EntityLocation::OnBank { bank, pos: world::dock_for_spec(bank) },
                    ),
                    BoatState::Crossing { .. } => s,
                }
            },
            Action::BoardBoat => GameState { player: PlayerLocation::OnBoat, ..self },
            Action::UnboardBoat => {
                match self.boat {
                    BoatState::Docked(bank) => {
                        let dock = world::dock_for_spec(bank);
                        let s = GameState { player: PlayerLocation::OnLand(dock), ..self };
                        match self.follower {
                            Some(e) => GameState {
                                follower: None,
                                ..s.with_loc(e, EntityLocation::OnBank { bank, pos: dock })
                            },
                            None => s,
                        }
                    },
                    BoatState::Crossing { .. } => self,
                }
            },
        }
    }

    // ----- crossing -----

    /// A crossing can start when the player is on the boat and the boat is
    /// docked.
    pub open spec fn start_ok(self) -> bool {
        self.player is OnBoat && self.boat is Docked
    }

    /// The state after a crossing attempt: on success the boat leaves the
    /// dock with zero progress and the timer resets; on failure the state
    /// is unchanged.
    pub open spec fn started_spec(self) -> GameState {
        match self.boat {
            BoatState::Docked(bank) => if self.player is OnBoat {
                GameState {
                    boat: BoatState::Crossing { from: bank, progress: 0 },
                    crossing_timer: 0,
                    ..self
                }
            } else {
                self
            },
            BoatState::Crossing { .. } => self,
        }
    }

    /// The state after one tick of the crossing timer. While docked time
    /// has no effect. While crossing, the delta accumulates into the
    /// timer (saturating at the integer limit); when the total reaches
    /// the duration, the boat docks on the opposite bank and the
    /// completed-crossing counter increments by exactly one, else
    /// progress carries the total too.
    pub open spec fn tick_spec(self, dt: u32) -> GameState {
        match self.boat {
            BoatState::Docked(_) => self,
            BoatState::Crossing { from, .. } => {
                let total = self.crossing_timer + dt;
                if total >= CROSSING_DURATION_MS {
                    GameState {
                        boat: BoatState::Docked(from.opposite_spec()),
                        crossing_timer: if total <= u32::MAX {
                            total as u32
                        } else {
                            u32::MAX
                        },
                        crossing_count: (self.crossing_count + 1) as u32,
                        ..self
                    }
                } else {
                    GameState {
                        boat: BoatState::Crossing { from, progress: total as u32 },
                        crossing_timer: total as u32,
                        ..self
                    }
                }
            },
        }
    }

    // ----- rules -----

    /// The loss, if any, that an unattended bank yields: the bank the
    /// player occupies is always safe; elsewhere wolf with sheep is
    /// checked before sheep with cabbage.
    pub open spec fn bank_danger_spec(self, bank: Bank) -> Option<LoseReason> {
        if self.player_bank_spec() == Some(bank) {
            None
        } else if self.on_bank_free(Entity::Wolf, bank) && self.on_bank_free(Entity::Sheep, bank) {
            Some(LoseReason::WolfAteSheep)
        } else if self.on_bank_free(Entity::Sheep, bank) && self.on_bank_free(
            Entity::Cabbage,
            bank,
        ) {
            Some(LoseReason::SheepAteCabbage)
        } else {
            None
        }
    }

    /// The forbidden-pair verdict over both banks, left bank first.
    pub open spec fn eating_spec(self) -> Option<LoseReason> {
        if self.bank_danger_spec(Bank::Left) is Some {
            self.bank_danger_spec(Bank::Left)
        } else {
            self.bank_danger_spec(Bank::Right)
        }
    }

    /// The puzzle is won exactly when every entity's location is a cell of
    /// the right bank: none following, none on the boat.
    pub open spec fn win_spec(self) -> bool {
        &&& self.wolf_loc matches EntityLocation::OnBank { bank: Bank::Right, .. }
        &&& self.sheep_loc matches EntityLocation::OnBank { bank: Bank::Right, .. }
        &&& self.cabbage_loc matches EntityLocation::OnBank { bank: Bank::Right, .. }
    }

    // ----- executable interface -----

    pub fn new() -> (r: GameState)
        ensures
            r == initial_state(),
            r.wf(),
    {
        GameState {
            phase: GamePhase::Playing,
            player: PlayerLocation::OnLand(GridPos { col: 2, row: 4 }),
            wolf_loc: EntityLocation::OnBank { bank: Bank::Left, pos: GridPos { col: 1, row: 2 } },
            sheep_loc: EntityLocation::OnBank {
                bank: Bank::Left,
                pos: GridPos { col: 1, row: 4 },
            },
            cabbage_loc: EntityLocation::OnBank {
                bank: Bank::Left,
                pos: GridPos { col: 1, row: 6 },
            },
            follower: None,
            boat: BoatState::Docked(Bank::Left),
            boat_cargo: None,
            crossing_timer: 0,
            crossing_count: 0,
        }
    }

    pub fn reset(&mut self)
        ensures
            *final(self) == initial_state(),
            final(self).wf(),
    {
        *self = GameState::new();
    }

    /// Get the location of a specific entity.
    pub fn entity_location(&self, entity: Entity) -> (r: EntityLocation)
        ensures
            r == self.loc_of(entity),
    {
        match entity {
            Entity::Wolf => self.wolf_loc,
            Entity::Sheep => self.sheep_loc,
            Entity::Cabbage => self.cabbage_loc,
        }
    }

    /// Set the location of a specific entity.
    pub fn set_entity_location(&mut self, entity: Entity, loc: EntityLocation)
        ensures
            *final(self) == old(self).with_loc(entity, loc),
    {
        match entity {
            Entity::Wolf => self.wolf_loc = loc,
            Entity::Sheep => self.sheep_loc = loc,
            Entity::Cabbage => self.cabbage_loc = loc,
        }
    }

    /// Whether an entity is resident on a bank (not following, not cargo).
    pub fn entity_free_on_bank(&self, e: Entity, bank: Bank) -> (r: bool)
        ensures
            r == self.on_bank_free(e, bank),
    {
        if let Some(f) = self.follower {
            if f == e {
                return false;
            }
        }
        match self.entity_location(e) {
            EntityLocation::OnBank { bank: b, .. } => b == bank,
            _ => false,
        }
    }

    /// Get all entities on a given bank (not following player, not on
    /// boat), in the fixed wolf, sheep, cabbage order.
    pub fn entities_on_bank(&self, bank: Bank) -> (r: Vec<Entity>)
        ensures
            r@ == self.bank_seq_spec(bank),
            forall|e: Entity| r@.contains(e) <==> self.on_bank_free(e, bank),
    {
        let mut v: Vec<Entity> = Vec::new();
        if self.entity_free_on_bank(Entity::Wolf, bank) {
            v.push(Entity::Wolf);
        }
        if self.entity_free_on_bank(Entity::Sheep, bank) {
            v.push(Entity::Sheep);
        }
        if self.entity_free_on_bank(Entity::Cabbage, bank) {
            v.push(Entity::Cabbage);
        }
        proof {
            assert(v@ =~= self.bank_seq_spec(bank));
            assert forall|e: Entity| v@.contains(e) <==> self.on_bank_free(e, bank) by {
                let s = self.bank_seq_spec(bank);
                if self.on_bank_free(e, bank) {
                    match e {
                        Entity::Wolf => assert(s[0] == Entity::Wolf),
                        Entity::Sheep => assert(s.contains(Entity::Sheep)) by {
                            if self.on_bank_free(Entity::Wolf, bank) {
                                assert(s[1] == Entity::Sheep);
                            } else {
                                assert(s[0] == Entity::Sheep);
                            }
                        },
                        Entity::Cabbage => assert(s[s.len() - 1] == Entity::Cabbage),
                    }
                }
            }
        }
        v
    }

    /// Try to move the player in a direction. Returns true if successful;
    /// a failed move (player on the boat, or stepping out of bounds or
    /// into the river band) leaves the state unchanged.
    pub fn try_move_player(&mut self, dir: Direction) -> (r: bool)
        ensures
            r == old(self).can_move_spec(dir),
            *final(self) == old(self).moved_spec(dir),
            !r ==> *final(self) == *old(self),
            old(self).wf() ==> final(self).wf(),
    {
        let p = match self.player {
            PlayerLocation::OnLand(p) => p,
            PlayerLocation::OnBoat => {
                return false;
            },
        };

        let (dc, dr) = dir.delta();
        let nc: i64 = p.col as i64 + dc as i64;
        let nr: i64 = p.row as i64 + dr as i64;
        let walkable = nr >= 0 && nr < world::GRID_ROWS as i64 && nc >= 0 && nc
            < world::GRID_COLS as i64 && !(nc >= world::RIVER_COL_MIN as i64 && nc
            <= world::RIVER_COL_MAX as i64);
        if !walkable {
            return false;
        }

        let new_pos = GridPos { col: nc as i32, row: nr as i32 };
        self.player = PlayerLocation::OnLand(new_pos);

        // Move the follower to the player's old position.
        if let Some(entity) = self.follower {
            if let Some(bank) = world::bank_of(new_pos) {
                self.set_entity_location(entity, EntityLocation::OnBank { bank, pos: p });
            }
        }

        true
    }

    /// Execute an interaction action. The executor applies the action
    /// as-is; validation is the resolver's business.
    pub fn execute_action(&mut self, action: Action)
        ensures
            *final(self) == old(self).apply_action_spec(action),
    {
        match action {
            Action::PickUp(entity) => {
                self.follower = Some(entity);
                self.set_entity_location(entity, EntityLocation::FollowingPlayer);
            },
            Action::Drop(entity) => {
                self.follower = None;
                if let PlayerLocation::OnLand(pos) = self.player {
                    if let Some(bank) = world::bank_of(pos) {
                        self.set_entity_location(entity, EntityLocation::OnBank { bank, pos });
                    }
                }
            },
            Action::LoadOntoBoat(entity) => {
                self.follower = None;
                self.boat_cargo = Some(entity);
                self.set_entity_location(entity, EntityLocation::OnBoat);
            },
            Action::UnloadFromBoat(entity) => {
                self.boat_cargo = None;
                if let BoatState::Docked(bank) = self.boat {
                    let dock = world::dock_for(bank);
                    self.set_entity_location(entity, EntityLocation::OnBank { bank, pos: dock });
                }
            },
            Action::BoardBoat => {
                // A follower is not transferred to cargo here: it stays
                // following and is loaded by a later interact.
                self.player = PlayerLocation::OnBoat;
            },
            Action::UnboardBoat => {
                if let BoatState::Docked(bank) = self.boat {
                    let dock = world::dock_for(bank);
                    self.player = PlayerLocation::OnLand(dock);
                    if let Some(entity) = self.follower {
                        self.set_entity_location(
                            entity,
                            EntityLocation::OnBank { bank, pos: dock },
                        );
                        self.follower = None;
                    }
                }
            },
        }
    }

    /// Start a river crossing. Returns true if a crossing started; a
    /// rejected start (player not on the boat, or boat not docked) leaves
    /// the state unchanged.
    pub fn start_crossing(&mut self) -> (r: bool)
        ensures
            r == old(self).start_ok(),
            *final(self) == old(self).started_spec(),
            !r ==> *final(self) == *old(self),
            old(self).wf() ==> final(self).wf(),
    {
        match self.player {
            PlayerLocation::OnBoat => {},
            PlayerLocation::OnLand(_) => {
                return false;
            },
        }
        let bank = match self.boat {
            BoatState::Docked(bank) => bank,
            BoatState::Crossing { .. } => {
                return false;
            },
        };

        self.boat = BoatState::Crossing { from: bank, progress: 0 };
        self.crossing_timer = 0;
        true
    }

    /// Advance the crossing timer by a delta. No-op while docked.
    pub fn update_crossing(&mut self, dt: u32)
        requires
            (old(self).boat is Crossing && old(self).crossing_timer + dt >= CROSSING_DURATION_MS)
                ==> old(self).crossing_count < u32::MAX,
        ensures
            *final(self) == old(self).tick_spec(dt),
            old(self).wf() ==> final(self).wf(),
    {
        if let BoatState::Crossing { from, .. } = self.boat {
            let total: u64 = self.crossing_timer as u64 + dt as u64;
            if total >= CROSSING_DURATION_MS as u64 {
                self.boat = BoatState::Docked(from.opposite());
                self.crossing_timer = if total <= u32::MAX as u64 {
                    total as u32
                } else {
                    u32::MAX
                };
                self.crossing_count = self.crossing_count + 1;
            } else {
                let t: u32 = total as u32;
                self.crossing_timer = t;
                self.boat = BoatState::Crossing { from, progress: t };
            }
        }
    }

    /// The loss an unattended bank yields right now, if any.
    pub fn bank_danger(&self, bank: Bank) -> (r: Option<LoseReason>)
        ensures
            r == self.bank_danger_spec(bank),
    {
        let player_bank: Option<Bank> = match self.player {
            PlayerLocation::OnLand(pos) => world::bank_of(pos),
            PlayerLocation::OnBoat => None,
        };
        if let Some(b) = player_bank {
            if b == bank {
                return None;
            }
        }

        let has_wolf = self.entity_free_on_bank(Entity::Wolf, bank);
        let has_sheep = self.entity_free_on_bank(Entity::Sheep, bank);
        let has_cabbage = self.entity_free_on_bank(Entity::Cabbage, bank);

        if has_wolf && has_sheep {
            return Some(LoseReason::WolfAteSheep);
        }
        if has_sheep && has_cabbage {
            return Some(LoseReason::SheepAteCabbage);
        }
        None
    }

    /// Check if any forbidden pair is left unattended: left bank first,
    /// and on a bank wolf-with-sheep before sheep-with-cabbage.
    pub fn check_eating_rules(&self) -> (r: Option<LoseReason>)
        ensures
            r == self.eating_spec(),
    {
        let left = self.bank_danger(Bank::Left);
        if left.is_some() {
            return left;
        }
        self.bank_danger(Bank::Right)
    }

    /// Check if all entities are on the right bank.
    pub fn check_win(&self) -> (r: bool)
        ensures
            r == self.win_spec(),
    {
        let wolf_there = match self.wolf_loc {
            EntityLocation::OnBank { bank: Bank::Right, .. } => true,
            _ => false,
        };
        let sheep_there = match self.sheep_loc {
            EntityLocation::OnBank { bank: Bank::Right, .. } => true,
            _ => false,
        };
        let cabbage_there = match self.cabbage_loc {
            EntityLocation::OnBank { bank: Bank::Right, .. } => true,
            _ => false,
        };
        wolf_there && sheep_there && cabbage_there
    }
}

} // verus!
