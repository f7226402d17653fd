//! The viewer's control state and the two events that change it: a key going
//! down or up, and a physics tick.

use crate::camera::{camera_moves, lemma_single_key, tick_moves, CameraMove};
use crate::keys::{binding_for, binding_of, Binding, Key, KeysPressed};
use vstd::prelude::*;

verus! {

/// Milliseconds between two physics ticks.
pub const PHYSICS_INTERVAL: i32 = 10;

/// Milliseconds between two drawn frames.
pub const DRAW_INTERVAL: i32 = 100;

/// One thing to do during a physics tick.
#[derive(Clone, Copy, Debug, PartialEq, Eq, Structural)]
pub enum TickAction {
    /// Perform this camera move.
    Camera(CameraMove),
    /// Advance the body by one physics interval.
    Integrate,
}

/// What the viewer remembers between events, apart from the body and the camera
/// themselves: the number of ticks so far, the display mode and the held keys.
#[derive(Clone, Copy, Debug, PartialEq, Eq, Structural)]
pub struct RunnerState {
    pub counter: i32,
    pub wireframe: bool,
    pub keys_pressed: KeysPressed,
}

impl RunnerState {
    /// The state after the key with code `code` went down (`pressed`) or up.
    /// The wireframe key switches the display mode each time it goes down and
    /// does nothing when it goes up; a camera key is held from when it goes down
    /// until it goes up; any other code changes nothing.
    pub open spec fn after_key(self, code: Seq<char>, pressed: bool) -> RunnerState {
        match binding_for(code) {
            Some(Binding::Wireframe) => if pressed {
                RunnerState { wireframe: !self.wireframe, ..self }
            } else {
                self
            },
            Some(Binding::Camera(key)) => RunnerState {
                keys_pressed: self.keys_pressed.with(key, pressed),
                ..self
            },
            None => self,
        }
    }

    /// What a physics tick does, in order: the camera moves of the held keys,
    /// then the integration of the body.
    pub open spec fn tick_plan(self) -> Seq<TickAction> {
        tick_moves(self.keys_pressed@).map_values(|step: CameraMove| TickAction::Camera(step)).push(
            TickAction::Integrate,
        )
    }

    /// The state after a physics tick: one more tick counted, nothing else changed.
    pub open spec fn after_tick(self) -> RunnerState {
        RunnerState { counter: (self.counter + 1) as i32, ..self }
    }

    /// The state at start-up: no tick counted, solid display, no key held.
    pub open spec fn initial() -> RunnerState {
        RunnerState { counter: 0, wireframe: false, keys_pressed: KeysPressed::none() }
    }

    /// Gives the state at start-up.
    pub fn new() -> (state: Self)
        ensures
            state == RunnerState::initial(),
    {
        RunnerState { counter: 0, wireframe: false, keys_pressed: KeysPressed::new() }
    }

    /// Takes note of a key event that the host reports.
    pub fn on_key(&mut self, code: &str, pressed: bool)
        ensures
            *final(self) == old(self).after_key(code@, pressed),
    {
        match binding_of(code) {
            Some(Binding::Wireframe) => {
                if pressed {
                    self.wireframe = !self.wireframe;
                }
            },
            Some(Binding::Camera(key)) => {
                self.keys_pressed.set(key, pressed);
            },
            None => {},
        }
    }

    /// Counts a physics tick and says what the tick has to do. The caller
    /// performs the actions in the order given.
    pub fn physics_step(&mut self) -> (plan: Vec<TickAction>)
        requires
            old(self).counter < i32::MAX,
        ensures
            *final(self) == old(self).after_tick(),
            final(self).counter == old(self).counter + 1,
            plan@ == old(self).tick_plan(),
    {
        let moves = camera_moves(&self.keys_pressed);
        let ghost wrap = |step: CameraMove| TickAction::Camera(step);
        let mut plan: Vec<TickAction> = Vec::new();
        let mut done: usize = 0;
        while done < moves.len()
            invariant
                done <= moves@.len(),
                wrap == |step: CameraMove| TickAction::Camera(step),
                plan@ == moves@.take(done as int).map_values(wrap),
            decreases moves@.len() - done,
        {
            proof {
                assert(moves@.take(done + 1) =~= moves@.take(done as int).push(moves@[done as int]));
                moves@.take(done as int).lemma_push_map_commute(wrap, moves@[done as int]);
            }
            plan.push(TickAction::Camera(moves[done]));
            done = done + 1;
        }
        assert(moves@.take(done as int) =~= moves@);
        plan.push(TickAction::Integrate);
        self.counter = self.counter + 1;
        plan
    }
}

/// Pressing the wireframe key twice brings back the display mode, and the rest
/// of the state, as it was.
pub proof fn lemma_wireframe_toggles_back(state: RunnerState)
    ensures
        state.after_key(Binding::Wireframe.code(), true).wireframe == !state.wireframe,
        state.after_key(Binding::Wireframe.code(), true).after_key(
            Binding::Wireframe.code(),
            true,
        ) == state,
        state.after_key(Binding::Wireframe.code(), false) == state,
{
}

/// A key event changes at most the flag of the key that it names: a camera key
/// is held exactly from its press to its release, and no key event touches the
/// tick count.
pub proof fn lemma_key_event_changes_one_flag(state: RunnerState, key: Key, pressed: bool)
    ensures
        state.after_key(Binding::Camera(key).code(), pressed).keys_pressed@ == if pressed {
            state.keys_pressed@.insert(key)
        } else {
            state.keys_pressed@.remove(key)
        },
        state.after_key(Binding::Camera(key).code(), pressed).wireframe == state.wireframe,
        state.after_key(Binding::Camera(key).code(), pressed).counter == state.counter,
{
    state.keys_pressed.lemma_with_view(key, pressed);
}

/// A code that is bound to nothing changes nothing.
pub proof fn lemma_unbound_key_ignored(state: RunnerState, code: Seq<char>, pressed: bool)
    requires
        forall|binding: Binding| code != binding.code(),
    ensures
        state.after_key(code, pressed) == state,
{
    if binding_for(code) is Some {
        crate::keys::lemma_bound_code_is_own_code(code, binding_for(code).unwrap());
    }
}

/// While one camera key alone is held, a tick makes that key's move and then
/// integrates the body.
pub proof fn lemma_single_key_plan(state: RunnerState, key: Key)
    requires
        state.keys_pressed@ == set![key],
    ensures
        state.tick_plan() == seq![
            TickAction::Camera(crate::camera::key_move(key)),
            TickAction::Integrate,
        ],
{
    lemma_single_key(key);
    assert(state.tick_plan() =~= seq![
        TickAction::Camera(crate::camera::key_move(key)),
        TickAction::Integrate,
    ]);
}

/// Within a tick the camera moves come first and the integration of the body
/// comes last, once.
pub proof fn lemma_integration_last(state: RunnerState, i: int)
    requires
        0 <= i < state.tick_plan().len(),
    ensures
        state.tick_plan()[i] is Integrate <==> i == state.tick_plan().len() - 1,
{
}

} // verus!
