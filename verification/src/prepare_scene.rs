//! The scene that runs before the game: it watches the input stream and
//! collects players until two are ready, then the game scene starts with
//! those controllers.
//!
//! The shell blocks on input events and feeds each one in; this module
//! decides which events admit a player and which controller the player
//! gets.

use vstd::prelude::*;

use crate::input::{
    controller_green, controller_red, Controller, GamepadController, InputCenter, KEY_CODE_M,
    KEY_CODE_Q,
};

verus! {

/// Render half of the preparation scene: it draws nothing.
pub struct PrepareSceneRender {}

/// Update half of the preparation scene: the players collected so far.
pub struct PrepareSceneUpdater {
    pub players: Vec<Controller>,
}

/// A fresh preparation scene with no players yet.
pub fn new() -> (r: (PrepareSceneRender, PrepareSceneUpdater))
    ensures
        r.1.players@.len() == 0,
{
    (PrepareSceneRender {}, PrepareSceneUpdater { players: Vec::new() })
}

impl PrepareSceneUpdater {
    /// Enough players to start the game.
    pub open spec fn ready(&self) -> bool {
        self.players@.len() >= 2
    }

    pub fn is_ready(&self) -> (r: bool)
        ensures
            r == self.ready(),
    {
        self.players.len() >= 2
    }

    /// One keyboard event: pressing Q admits a player on the first preset
    /// keyboard controller, pressing M on the second; everything else
    /// changes nothing.
    pub fn handle_keyboard(&mut self, input: &InputCenter, pressed: bool, virtual_keycode: Option<
        u32,
    >)
        ensures
            final(self).players@ == if pressed && virtual_keycode == Some(KEY_CODE_Q) {
                old(self).players@.push(controller_red())
            } else if pressed && virtual_keycode == Some(KEY_CODE_M) {
                old(self).players@.push(controller_green())
            } else {
                old(self).players@
            },
    {
        if pressed {
            match virtual_keycode {
                Some(code) => {
                    if code == KEY_CODE_Q {
                        self.players.push(input.create_controller_red());
                    } else if code == KEY_CODE_M {
                        self.players.push(input.create_controller_green());
                    }
                },
                None => {},
            }
        }
    }

    /// One gamepad button event: pressing the south face button admits a
    /// player on that gamepad; the device is registered with the input
    /// center so its polls reach the new controller.
    pub fn handle_gamepad_button(&mut self, input: &mut InputCenter, id: u64, south_pressed: bool)
        requires
            old(input).wf(),
        ensures
            final(input).wf(),
            if south_pressed {
                &&& final(self).players@ == old(self).players@.push(
                    (Controller::Gamepad(GamepadController { id })),
                )
                &&& final(input).keyboard == old(input).keyboard
            } else {
                final(self).players@ == old(self).players@ && *final(input) == *old(input)
            },
    {
        if south_pressed {
            let controller = input.create_gamepad_controller(id);
            self.players.push(controller);
        }
    }

    /// Hand the collected players over to the game scene.
    pub fn take_players(&mut self) -> (r: Vec<Controller>)
        ensures
            r@ == old(self).players@,
            final(self).players@.len() == 0,
    {
        let mut r: Vec<Controller> = Vec::new();
        std::mem::swap(&mut r, &mut self.players);
        r
    }
}

} // verus!
