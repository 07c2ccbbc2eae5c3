//! The player: a position with movement bounds, mutated only by single-step
//! directional moves. The terrain-passability gate sits in the control loop
//! (see `orchestrator`); these methods enforce the boundary checks alone.

use vstd::prelude::*;

verus! {

/// Position plus inclusive movement limits; the limits equal the map's
/// dimensions minus one.
#[derive(Clone, Copy, Debug, PartialEq, Eq, Structural)]
pub struct Player {
    pub x: usize,
    pub y: usize,
    pub limit_x: usize,
    pub limit_y: usize,
}

impl Player {
    /// The position stays inside `[0, limit_x] x [0, limit_y]`.
    pub open spec fn wf(self) -> bool {
        self.x <= self.limit_x && self.y <= self.limit_y
    }

    /// Step one tile north (decreasing `y`); a no-op at the northern edge.
    pub fn try_north(&mut self)
        ensures
            final(self).y == if old(self).y == 0 { 0int } else { old(self).y - 1 },
            final(self).x == old(self).x,
            final(self).limit_x == old(self).limit_x,
            final(self).limit_y == old(self).limit_y,
            old(self).wf() ==> final(self).wf(),
    {
        if self.y == 0 {
            return ;
        }
        self.y -= 1;
    }

    /// Step one tile east (increasing `x`); a no-op at `limit_x`.
    pub fn try_east(&mut self)
        requires
            old(self).wf(),
        ensures
            final(self).x == if old(self).x == old(self).limit_x {
                old(self).x as int
            } else {
                old(self).x + 1
            },
            final(self).y == old(self).y,
            final(self).limit_x == old(self).limit_x,
            final(self).limit_y == old(self).limit_y,
            final(self).wf(),
    {
        if self.x == self.limit_x {
            return ;
        }
        self.x += 1;
    }

    /// Step one tile south (increasing `y`); a no-op at `limit_y`.
    pub fn try_south(&mut self)
        requires
            old(self).wf(),
        ensures
            final(self).y == if old(self).y == old(self).limit_y {
                old(self).y as int
            } else {
                old(self).y + 1
            },
            final(self).x == old(self).x,
            final(self).limit_x == old(self).limit_x,
            final(self).limit_y == old(self).limit_y,
            final(self).wf(),
    {
        if self.y == self.limit_y {
            return ;
        }
        self.y += 1;
    }

    /// Step one tile west (decreasing `x`); a no-op at the western edge.
    pub fn try_west(&mut self)
        ensures
            final(self).x == if old(self).x == 0 { 0int } else { old(self).x - 1 },
            final(self).y == old(self).y,
            final(self).limit_x == old(self).limit_x,
            final(self).limit_y == old(self).limit_y,
            old(self).wf() ==> final(self).wf(),
    {
        if self.x == 0 {
            return ;
        }
        self.x -= 1;
    }
}

} // verus!
