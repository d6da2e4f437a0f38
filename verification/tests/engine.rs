use river_crossing::engine::{step, InputEvent};
use river_crossing::game::{
    BoatState, Entity, EntityLocation, GamePhase, GameState, LoseReason, PlayerLocation,
};
use river_crossing::world::{Bank, Direction, GridPos};

#[test]
fn ferrying_the_sheep_across() {
    let mut s = GameState::new();

    // from (2,4) onto the sheep's cell (1,4)
    step(&mut s, InputEvent::Move(Direction::Left), 16);
    assert_eq!(s.player, PlayerLocation::OnLand(GridPos::new(1, 4)));

    // interact: picks the sheep up
    step(&mut s, InputEvent::Interact, 16);
    assert_eq!(s.follower, Some(Entity::Sheep));
    assert_eq!(s.entity_location(Entity::Sheep), EntityLocation::FollowingPlayer);

    // back to the dock at (3,4)
    step(&mut s, InputEvent::Move(Direction::Right), 16);
    step(&mut s, InputEvent::Move(Direction::Right), 16);
    assert_eq!(s.player, PlayerLocation::OnLand(GridPos::new(3, 4)));

    // interact at the dock with empty cargo: loads the sheep
    step(&mut s, InputEvent::Interact, 16);
    assert_eq!(s.follower, None);
    assert_eq!(s.boat_cargo, Some(Entity::Sheep));
    assert_eq!(s.entity_location(Entity::Sheep), EntityLocation::OnBoat);

    // interact again: boards
    step(&mut s, InputEvent::Interact, 16);
    assert_eq!(s.player, PlayerLocation::OnBoat);

    // cast off: wolf and cabbage stay behind, not a forbidden pair
    step(&mut s, InputEvent::CrossRiver, 0);
    assert_eq!(s.phase, GamePhase::Playing);
    assert_eq!(s.boat, BoatState::Crossing { from: Bank::Left, progress: 0 });

    // the full crossing duration elapses
    step(&mut s, InputEvent::Idle, 2000);
    assert_eq!(s.boat, BoatState::Docked(Bank::Right));
    assert_eq!(s.crossing_count, 1);
    assert_eq!(s.phase, GamePhase::Playing);
}

#[test]
fn leaving_wolf_and_sheep_loses_at_departure() {
    let mut s = GameState::new();

    // straight to the dock, empty-handed
    step(&mut s, InputEvent::Move(Direction::Right), 16);
    // board
    step(&mut s, InputEvent::Interact, 16);
    assert_eq!(s.player, PlayerLocation::OnBoat);

    // departure leaves wolf and sheep unattended on the left bank
    step(&mut s, InputEvent::CrossRiver, 0);
    assert_eq!(s.phase, GamePhase::Lost(LoseReason::WolfAteSheep));

    // terminal phase: nothing but a restart acts
    let frozen = s;
    step(&mut s, InputEvent::Move(Direction::Left), 16);
    assert_eq!(s, frozen);
    step(&mut s, InputEvent::Interact, 16);
    assert_eq!(s, frozen);
    step(&mut s, InputEvent::CrossRiver, 16);
    assert_eq!(s, frozen);
    step(&mut s, InputEvent::Idle, 5000);
    assert_eq!(s, frozen);

    // restart reinitializes the whole aggregate
    step(&mut s, InputEvent::Restart, 16);
    assert_eq!(s, GameState::new());
}

#[test]
fn winning_turns_the_phase() {
    let mut s = GameState::new();
    // stage the end of a game: wolf and sheep already ferried, the player
    // back with the cabbage loaded, boat docked right
    s.set_entity_location(
        Entity::Wolf,
        EntityLocation::OnBank { bank: Bank::Right, pos: GridPos::new(9, 3) },
    );
    s.set_entity_location(
        Entity::Sheep,
        EntityLocation::OnBank { bank: Bank::Right, pos: GridPos::new(9, 5) },
    );
    s.set_entity_location(Entity::Cabbage, EntityLocation::OnBoat);
    s.boat_cargo = Some(Entity::Cabbage);
    s.boat = BoatState::Docked(Bank::Right);
    s.player = PlayerLocation::OnBoat;

    // interact: unloads the cabbage at the right dock and wins
    step(&mut s, InputEvent::Interact, 16);
    assert_eq!(
        s.entity_location(Entity::Cabbage),
        EntityLocation::OnBank { bank: Bank::Right, pos: GridPos::new(8, 4) }
    );
    assert_eq!(s.phase, GamePhase::Won);

    // terminal phase: moving does nothing until a restart
    let frozen = s;
    step(&mut s, InputEvent::Move(Direction::Up), 16);
    assert_eq!(s, frozen);
    step(&mut s, InputEvent::Restart, 16);
    assert_eq!(s.phase, GamePhase::Playing);
}

#[test]
fn idle_steps_only_advance_the_crossing() {
    let mut s = GameState::new();
    step(&mut s, InputEvent::Move(Direction::Right), 16);
    step(&mut s, InputEvent::Interact, 16); // board
    step(&mut s, InputEvent::Interact, 16); // hop off again
    assert_eq!(s.player, PlayerLocation::OnLand(GridPos::new(3, 4)));
    let before = s;
    step(&mut s, InputEvent::Idle, 1000);
    assert_eq!(s, before); // docked boat: time has no effect
}

#[test]
fn crossing_progress_accumulates_across_steps() {
    let mut s = GameState::new();
    step(&mut s, InputEvent::Move(Direction::Left), 0); // onto the sheep
    step(&mut s, InputEvent::Interact, 0); // pick it up
    step(&mut s, InputEvent::Move(Direction::Right), 0);
    step(&mut s, InputEvent::Move(Direction::Right), 0); // at the dock
    step(&mut s, InputEvent::Interact, 0); // load the sheep
    step(&mut s, InputEvent::Interact, 0); // board
    step(&mut s, InputEvent::CrossRiver, 300);
    assert_eq!(s.phase, GamePhase::Playing); // wolf with cabbage is safe
    assert_eq!(s.boat, BoatState::Crossing { from: Bank::Left, progress: 300 });
    step(&mut s, InputEvent::Idle, 400);
    assert_eq!(s.boat, BoatState::Crossing { from: Bank::Left, progress: 700 });
    assert_eq!(s.crossing_timer, 700);
    step(&mut s, InputEvent::Idle, 1300);
    assert_eq!(s.boat, BoatState::Docked(Bank::Right));
    assert_eq!(s.crossing_count, 1);
}

#[test]
fn restart_while_playing_reinitializes() {
    let mut s = GameState::new();
    step(&mut s, InputEvent::Move(Direction::Left), 16);
    step(&mut s, InputEvent::Interact, 16);
    step(&mut s, InputEvent::Restart, 16);
    assert_eq!(s, GameState::new());
}
