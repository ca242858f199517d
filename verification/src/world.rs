//! The simulation world: the list of tanks, the tick counter, and the
//! per-tick translation of control signals into physics commands.
//!
//! The rigid-body integration itself runs in the physics engine, outside
//! this library; each tick this module computes, from every tank's latest
//! control signal, the force and torque the engine must apply, and the shell
//! writes the integrated kinematic state back before the snapshot is taken.
//!
//! Kinematic values are fixed-point integers in thousandths of a world unit
//! (or radian); forces and torques are in thousandths of the engine's units.

use vstd::prelude::*;

use crate::input::{controller_signal, ControlSignal, Controller, InputCenter};

verus! {

/// By-value copy of one tank's kinematic state, in thousandths: position,
/// linear velocity, rotation (radians) and angular velocity. Safe to hand
/// across a thread boundary; independent of physics-engine internals.
#[derive(Clone, Copy, Debug, PartialEq, Eq, Structural)]
pub struct TankInstance {
    pub pos_x: i32,
    pub pos_y: i32,
    pub vel_x: i32,
    pub vel_y: i32,
    pub rotation: i32,
    pub rotation_v: i32,
}

/// The state a freshly admitted tank spawns with: the origin transform at
/// rest, exactly as the physics engine builds a default rigid body.
pub open spec fn spawn_instance() -> TankInstance {
    TankInstance { pos_x: 0, pos_y: 0, vel_x: 0, vel_y: 0, rotation: 0, rotation_v: 0 }
}

/// What the physics engine must apply to one tank for one tick: a forward
/// force in the tank's local frame and a torque, in thousandths.
#[derive(Clone, Copy, Debug, PartialEq, Eq, Structural)]
pub struct TankCommand {
    /// `acceleration * 30`: forward thrust along the tank's local axis.
    pub force_forward: i32,
    /// `-rotation * 40`: turning torque.
    pub torque: i32,
}

/// The command a control signal translates to.
pub open spec fn command_for(sig: ControlSignal) -> TankCommand {
    TankCommand { force_forward: (sig.acceleration * 30) as i32, torque: (-sig.rotation * 40) as i32 }
}

/// One admitted tank: its controller and the last kinematic state the
/// physics engine reported for it.
pub struct Tank {
    pub controller: Controller,
    pub instance: TankInstance,
}

/// All simulation-owned state: the tank list and the tick counter. Owned
/// exclusively by the scheduler's driving thread.
pub struct PhysicalStatus {
    pub tanks: Vec<Tank>,
    /// Ticks since the scene started; increases by exactly one per tick.
    pub seq_number: u32,
}

impl PhysicalStatus {
    pub fn new() -> (r: PhysicalStatus)
        ensures
            r.tanks@.len() == 0,
            r.seq_number == 0,
    {
        PhysicalStatus { tanks: Vec::new(), seq_number: 0 }
    }

    /// Admit one tank: it appears at the spawn transform and takes part in
    /// every following tick. Tanks are never removed during a scene.
    pub fn add_player(&mut self, controller: Controller)
        ensures
            final(self).tanks@ == old(self).tanks@.push(
                (Tank { controller, instance: spawn_instance() }),
            ),
            final(self).seq_number == old(self).seq_number,
    {
        let instance = TankInstance { pos_x: 0, pos_y: 0, vel_x: 0, vel_y: 0, rotation: 0, rotation_v: 0 };
        self.tanks.push(Tank { controller, instance });
    }

    /// Advance one tick: read every tank's latest control signal, translate
    /// it into the force and torque the physics engine must apply, and
    /// increment the tick counter. One command per tank, in tank order.
    pub fn update_tick(&mut self, input: &InputCenter) -> (commands: Vec<TankCommand>)
        requires
            input.wf(),
            old(self).seq_number < u32::MAX,
        ensures
            final(self).seq_number == old(self).seq_number + 1,
            final(self).tanks == old(self).tanks,
            commands@.len() == old(self).tanks@.len(),
            forall|i: int|
                0 <= i < commands@.len() ==> commands@[i] == command_for(
                    controller_signal(&old(self).tanks@[i].controller, input),
                ),
    {
        let mut commands: Vec<TankCommand> = Vec::new();
        let tank_count = self.tanks.len();
        for i in 0..tank_count
            invariant
                tank_count == self.tanks@.len(),
                input.wf(),
                commands@.len() == i,
                forall|j: int|
                    0 <= j < i ==> commands@[j] == command_for(
                        controller_signal(&self.tanks@[j].controller, input),
                    ),
        {
            let sig = self.tanks[i].controller.movement_status(input);
            commands.push(TankCommand { force_forward: sig.acceleration * 30, torque: -sig.rotation
                * 40 });
        }
        self.seq_number = self.seq_number + 1;
        commands
    }

    /// Record the kinematic state the physics engine integrated for one
    /// tank. Nothing else changes.
    pub fn set_tank_state(&mut self, index: usize, instance: TankInstance)
        requires
            index < old(self).tanks@.len(),
        ensures
            final(self).tanks@ == old(self).tanks@.update(
                index as int,
                (Tank { controller: old(self).tanks@[index as int].controller, instance }),
            ),
            final(self).seq_number == old(self).seq_number,
    {
        self.tanks[index].instance = instance;
    }

    /// The snapshot published after a tick: one entry per tank, in tank
    /// order, each a plain copy of that tank's kinematic state.
    pub fn snapshot(&self) -> (r: Vec<TankInstance>)
        ensures
            r@.len() == self.tanks@.len(),
            forall|i: int| 0 <= i < r@.len() ==> r@[i] == self.tanks@[i].instance,
    {
        let mut r: Vec<TankInstance> = Vec::new();
        let tank_count = self.tanks.len();
        for i in 0..tank_count
            invariant
                tank_count == self.tanks@.len(),
                r@.len() == i,
                forall|j: int| 0 <= j < i ==> r@[j] == self.tanks@[j].instance,
        {
            r.push(self.tanks[i].instance);
        }
        r
    }
}

} // verus!
