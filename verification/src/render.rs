//! The render-side consumer of the simulation's output. Each frame it polls
//! (non-blocking) for a snapshot and, once, for maze data, decides whether
//! the GPU instance buffer must grow or can be updated in place, and
//! computes the motion-extrapolation forecast that bridges the fixed
//! simulation rate and the variable display rate.
//!
//! Time is carried in nanoseconds; the shell samples the clock and hands
//! plain values in.

use vstd::prelude::*;

use crate::scheduler::PHYSICAL_DT_NANOS;

verus! {

/// The forecast for an elapsed time since the last snapshot: 99% of the
/// elapsed time, never more than one physics timestep, so extrapolation can
/// never outrun the simulation's own step size.
pub open spec fn forecast_spec(elapsed: int) -> int {
    let scaled = elapsed * 99 / 100;
    if scaled < PHYSICAL_DT_NANOS {
        scaled
    } else {
        PHYSICAL_DT_NANOS as int
    }
}

/// What the shell must do with the GPU instance buffer after a snapshot.
#[derive(Clone, Copy, Debug, PartialEq, Eq, Structural)]
pub enum BufferPlan {
    /// The snapshot outgrew the buffer: recreate it at the new size.
    Reallocate,
    /// The snapshot fits: write it over the existing buffer.
    WriteInPlace,
}

/// Render-side state: last known maze dimensions and buffer sizes, and the
/// instant the last snapshot arrived.
pub struct RenderConsumer {
    /// Maze cell counts for the projection; `(1, 1)` until maze data arrives.
    pub maze_width: usize,
    pub maze_height: usize,
    /// How many tank instances the GPU buffer currently has room for.
    pub instance_capacity: usize,
    /// How many triangle indices the maze index buffer holds.
    pub maze_index_count: usize,
    /// When the last snapshot arrived, in nanoseconds of the shell's clock.
    pub last_update_nanos: u64,
}

impl RenderConsumer {
    pub fn new(now_nanos: u64) -> (r: RenderConsumer)
        ensures
            r.maze_width == 1,
            r.maze_height == 1,
            r.instance_capacity == 0,
            r.maze_index_count == 0,
            r.last_update_nanos == now_nanos,
    {
        RenderConsumer {
            maze_width: 1,
            maze_height: 1,
            instance_capacity: 0,
            maze_index_count: 0,
            last_update_nanos: now_nanos,
        }
    }

    /// A snapshot with `tank_count` entries arrived now: remember the
    /// instant, and decide whether the instance buffer must be recreated
    /// (only when the tank count outgrew it) or written in place.
    pub fn on_snapshot(&mut self, now_nanos: u64, tank_count: usize) -> (plan: BufferPlan)
        ensures
            final(self).last_update_nanos == now_nanos,
            final(self).maze_width == old(self).maze_width,
            final(self).maze_height == old(self).maze_height,
            final(self).maze_index_count == old(self).maze_index_count,
            if old(self).instance_capacity < tank_count {
                plan == BufferPlan::Reallocate && final(self).instance_capacity == tank_count
            } else {
                plan == BufferPlan::WriteInPlace && final(self).instance_capacity == old(
                    self,
                ).instance_capacity
            },
    {
        self.last_update_nanos = now_nanos;
        if self.instance_capacity < tank_count {
            self.instance_capacity = tank_count;
            BufferPlan::Reallocate
        } else {
            BufferPlan::WriteInPlace
        }
    }

    /// Maze data arrived (once, at scene start): remember its dimensions
    /// and the index count for the draw call.
    pub fn on_maze_data(&mut self, width: usize, height: usize, index_count: usize)
        ensures
            final(self).maze_width == width,
            final(self).maze_height == height,
            final(self).maze_index_count == index_count,
            final(self).instance_capacity == old(self).instance_capacity,
            final(self).last_update_nanos == old(self).last_update_nanos,
    {
        self.maze_width = width;
        self.maze_height = height;
        self.maze_index_count = index_count;
    }

    /// The forecast handed to the renderer this frame: 99% of the time
    /// since the last snapshot, clamped to one physics timestep.
    pub fn forecast_nanos(&self, now_nanos: u64) -> (r: u64)
        requires
            now_nanos >= self.last_update_nanos,
        ensures
            r == forecast_spec(now_nanos - self.last_update_nanos),
            r <= PHYSICAL_DT_NANOS,
    {
        let elapsed = now_nanos - self.last_update_nanos;
        if elapsed >= 100000000 {
            proof {
                assert(elapsed * 99 / 100 >= PHYSICAL_DT_NANOS) by (nonlinear_arith)
                    requires
                        elapsed >= 100000000,
                ;
            }
            PHYSICAL_DT_NANOS
        } else {
            let scaled = elapsed * 99 / 100;
            if scaled < PHYSICAL_DT_NANOS {
                scaled
            } else {
                PHYSICAL_DT_NANOS
            }
        }
    }
}

} // verus!
