use vstd::prelude::*;

use crate::names::{is_player, player_name};

verus! {

/// A coin that spins and is worth `value` points to the player who touches it.
pub struct Coin {
    /// Degrees per second.
    pub rotation_speed: i32,
    pub value: i32,
}

impl Coin {
    pub fn new() -> (r: Coin)
        ensures
            r.rotation_speed == 90,
            r.value == 1,
    {
        Coin { rotation_speed: 90, value: 1 }
    }

    /// The turn over `delta_ms` milliseconds, in thousandths of a degree.
    pub fn process(&self, delta_ms: u32) -> (r: i64)
        ensures
            r == self.rotation_speed * delta_ms,
    {
        let speed = self.rotation_speed as i64;
        let delta = delta_ms as i64;
        assert(i64::MIN <= speed * delta <= i64::MAX) by (nonlinear_arith)
            requires
                i32::MIN <= speed <= i32::MAX,
                0 <= delta <= u32::MAX,
        ;
        speed * delta
    }

    /// What a body that touches the coin is credited: the coin's value if it
    /// is the player, else nothing. The coin is removed either way.
    pub fn on_body_entered(&self, body_name: &str) -> (r: Option<i32>)
        ensures
            r == if body_name@ == player_name() {
                Some(self.value)
            } else {
                None::<i32>
            },
    {
        if is_player(body_name) {
            Some(self.value)
        } else {
            None
        }
    }
}

} // verus!
