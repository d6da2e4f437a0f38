//! The stepping engine: one discrete step consumes a single abstract
//! input event and an elapsed-time delta, applies at most one
//! state-mutating action, advances the crossing timer, and evaluates the
//! rule checkers at the points the rules prescribe. While the phase is
//! terminal, only a restart has any effect.

use vstd::prelude::*;

use crate::game::{GamePhase, GameState, initial_state};
use crate::interaction;
use crate::world::Direction;

verus! {

/// Abstract events handed to the engine, one per step.
#[derive(Debug, Clone, Copy, PartialEq, Eq, Structural)]
pub enum InputEvent {
    Move(Direction),
    Interact,
    CrossRiver,
    Restart,
    Idle,
}

/// The state one step later. While playing, the event's mutation is
/// applied first - an interact that completes the puzzle turns the phase
/// to won, and a crossing start that leaves a forbidden pair unattended
/// turns it to lost - and the crossing timer then advances by the delta.
/// In a terminal phase only a restart acts, and it reinitializes the
/// whole aggregate.
pub open spec fn step_spec(s: GameState, event: InputEvent, dt: u32) -> GameState {
    if s.phase is Playing {
        let s1 = match event {
            InputEvent::Move(dir) => s.moved_spec(dir),
            InputEvent::Interact => match interaction::resolve_spec(s) {
                Some(a) => {
                    let s2 = s.apply_action_spec(a);
                    if s2.win_spec() {
                        GameState { phase: GamePhase::Won, ..s2 }
                    } else {
                        s2
                    }
                },
                None => s,
            },
            InputEvent::CrossRiver => if s.start_ok() {
                let s2 = s.started_spec();
                match s2.eating_spec() {
                    Some(reason) => GameState { phase: GamePhase::Lost(reason), ..s2 },
                    None => s2,
                }
            } else {
                s
            },
            InputEvent::Restart => initial_state(),
            InputEvent::Idle => s,
        };
        s1.tick_spec(dt)
    } else {
        if event is Restart {
            initial_state()
        } else {
            s
        }
    }
}

/// A resolved action keeps the aggregate well-formed: the resolver's
/// priority policy only ever yields actions whose effect respects the
/// state invariants.
pub proof fn lemma_resolved_action_preserves_wf(s: GameState)
    requires
        s.wf(),
    ensures
        interaction::resolve_spec(s) matches Some(a) ==> s.apply_action_spec(a).wf(),
{
}

/// Every transition out of a well-formed state is well-formed again: the
/// state invariants hold after every step, whatever the event and delta.
pub proof fn lemma_step_preserves_wf(s: GameState, event: InputEvent, dt: u32)
    requires
        s.wf(),
    ensures
        step_spec(s, event, dt).wf(),
{
    if s.phase is Playing && event is Interact {
        lemma_resolved_action_preserves_wf(s);
    }
}

/// Feed one step into the engine: at most one mutating action, then the
/// crossing timer. Call once per frame.
pub fn step(state: &mut GameState, event: InputEvent, dt: u32)
    requires
        old(state).crossing_count < u32::MAX,
    ensures
        *final(state) == step_spec(*old(state), event, dt),
        old(state).wf() ==> final(state).wf(),
{
    proof {
        if old(state).wf() {
            lemma_step_preserves_wf(*old(state), event, dt);
        }
    }
    match state.phase {
        GamePhase::Playing => {
            match event {
                InputEvent::Move(dir) => {
                    let _moved = state.try_move_player(dir);
                },
                InputEvent::Interact => {
                    if let Some(action) = interaction::resolve_interaction(state) {
                        state.execute_action(action);
                        if state.check_win() {
                            state.phase = GamePhase::Won;
                        }
                    }
                },
                InputEvent::CrossRiver => {
                    if state.start_crossing() {
                        if let Some(reason) = state.check_eating_rules() {
                            state.phase = GamePhase::Lost(reason);
                        }
                    }
                },
                InputEvent::Restart => {
                    state.reset();
                },
                InputEvent::Idle => {},
            }
            state.update_crossing(dt);
        },
        GamePhase::Won | GamePhase::Lost(_) => {
            if let InputEvent::Restart = event {
                state.reset();
            }
        },
    }
}

} // verus!
