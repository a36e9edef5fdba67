use vstd::prelude::*;

use crate::names::{is_player, player_name};

verus! {

/// Where a step of at most `step` units from `current` towards `target` ends.
pub open spec fn advance(current: int, target: int, step: int) -> int {
    if current < target {
        if current + step > target {
            target
        } else {
            current + step
        }
    } else {
        if current - step < target {
            target
        } else {
            current - step
        }
    }
}

/// A patrol step never passes its target: it ends between the current
/// position and the target, and never farther from the target than it began.
pub proof fn lemma_advance_never_overshoots(current: int, target: int, step: int)
    requires
        step >= 0,
    ensures
        current <= target ==> current <= advance(current, target, step) <= target,
        target <= current ==> target <= advance(current, target, step) <= current,
        (advance(current, target, step) - target) * (advance(current, target, step) - target)
            <= (current - target) * (current - target),
{
    let n = advance(current, target, step);
    assert((n - target) * (n - target) <= (current - target) * (current - target)) by (nonlinear_arith)
        requires
            current <= target ==> current <= n <= target,
            target <= current ==> target <= n <= current,
    ;
}

/// An enemy that walks back and forth along x between its start position and
/// the point `move_distance` beyond it.
///
/// Positions and distances are in thousandths of a unit, so that a frame of
/// whole milliseconds moves it by an exact amount.
pub struct Enemy {
    /// Units per second, which is thousandths of a unit per millisecond.
    pub speed: u32,
    pub move_distance: i64,
    pub start_position: i64,
    pub target_position: i64,
}

impl Enemy {
    /// The far end of the patrol.
    pub open spec fn far_position(&self) -> int {
        self.start_position + self.move_distance
    }

    /// The target is one end of the patrol, and the far end is a position.
    pub open spec fn wf(&self) -> bool {
        i64::MIN <= self.far_position() <= i64::MAX && (self.target_position == self.start_position
            || self.target_position == self.far_position())
    }

    pub fn new() -> (r: Enemy)
        ensures
            r.speed == 0,
            r.move_distance == 0,
            r.start_position == 0,
            r.target_position == 0,
            r.wf(),
    {
        Enemy { speed: 0, move_distance: 0, start_position: 0, target_position: 0 }
    }

    /// Fixes the patrol at the enemy's position when it becomes active and
    /// heads for the far end.
    pub fn ready(&mut self, position_x: i64)
        requires
            i64::MIN <= position_x + old(self).move_distance <= i64::MAX,
        ensures
            final(self).speed == old(self).speed,
            final(self).move_distance == old(self).move_distance,
            final(self).start_position == position_x,
            final(self).target_position == position_x + old(self).move_distance,
            final(self).wf(),
    {
        self.start_position = position_x;
        self.target_position = position_x + self.move_distance;
    }

    /// Moves `current` by at most `step` towards `to`, stopping at `to`.
    pub fn move_to(current: i64, to: i64, step: u64) -> (r: i64)
        ensures
            r == advance(current as int, to as int, step as int),
    {
        let c = current as i128;
        let t = to as i128;
        let s = step as i128;
        let next: i128 = if c < t {
            if c + s > t {
                t
            } else {
                c + s
            }
        } else {
            if c - s < t {
                t
            } else {
                c - s
            }
        };
        next as i64
    }

    /// One frame of patrol: the new x position for an enemy at `position_x`
    /// after `delta_ms` milliseconds. On reaching its target the enemy turns
    /// towards the other end.
    pub fn process(&mut self, position_x: i64, delta_ms: u32) -> (r: i64)
        requires
            old(self).wf(),
        ensures
            r == advance(
                position_x as int,
                old(self).target_position as int,
                old(self).speed * delta_ms,
            ),
            final(self).speed == old(self).speed,
            final(self).move_distance == old(self).move_distance,
            final(self).start_position == old(self).start_position,
            final(self).target_position == if r != old(self).target_position {
                old(self).target_position as int
            } else if old(self).target_position == old(self).start_position {
                old(self).far_position()
            } else {
                old(self).start_position as int
            },
            final(self).wf(),
    {
        let speed = self.speed as u64;
        let delta = delta_ms as u64;
        assert(speed * delta <= u32::MAX * u32::MAX) by (nonlinear_arith)
            requires
                speed <= u32::MAX,
                delta <= u32::MAX,
        ;
        let step: u64 = speed * delta;
        let next = Enemy::move_to(position_x, self.target_position, step);
        if next == self.target_position {
            if self.target_position == self.start_position {
                self.target_position = next + self.move_distance;
            } else {
                self.target_position = self.start_position;
            }
        }
        next
    }

    /// Whether a body that starts touching the enemy is killed by it: only
    /// the player is.
    pub fn on_body_entered(&self, body_name: &str) -> (kills: bool)
        ensures
            kills == (body_name@ == player_name()),
    {
        is_player(body_name)
    }
}

} // verus!
