use vstd::prelude::*;

verus! {

/// Downward acceleration of 800 units per second per second, as the velocity
/// gained in each millisecond, in thousandths of a unit per second.
pub const GRAVITY: i64 = 800;

/// Upward velocity a jump adds: 600 units per second, in thousandths of a
/// unit per second.
pub const JUMP_FORCE: i64 = 600_000;

/// Horizontal speed a new player runs at: 200 units per second, in
/// thousandths of a unit per second.
pub const INITIAL_SPEED: i32 = 200_000;

/// A 2D vector; y grows downwards.
#[derive(Clone, Copy, Debug, PartialEq, Eq, Structural)]
pub struct Vector2 {
    pub x: i64,
    pub y: i64,
}

/// The movement actions held down this frame.
#[derive(Clone, Copy, Debug, PartialEq, Eq, Structural)]
pub struct MoveInput {
    pub move_right: bool,
    pub move_left: bool,
}

/// What the player asks of other nodes after taking a coin.
#[derive(Clone, Copy, Debug, PartialEq, Eq, Structural)]
pub enum Notice {
    /// Show this score.
    SetScoreText(i32),
    /// Play the coin sound.
    PlayCoinSfx,
}

/// Horizontal velocity asked for: right wins when both directions are held.
pub open spec fn horizontal(move_right: bool, move_left: bool, speed: int) -> int {
    if move_right {
        speed
    } else if move_left {
        -speed
    } else {
        0
    }
}

/// Vertical velocity after gravity has acted for `delta_ms` milliseconds.
pub open spec fn fall(y: int, delta_ms: int) -> int {
    y + GRAVITY * delta_ms
}

/// Vertical velocity at the end of a physics frame: gravity, then a jump if
/// one was pressed this frame while standing on the floor.
pub open spec fn after_slide_y(y: int, delta_ms: int, jump_just_pressed: bool, on_floor: bool) -> int {
    if jump_just_pressed && on_floor {
        fall(y, delta_ms) - JUMP_FORCE
    } else {
        fall(y, delta_ms)
    }
}

/// Whether the sprite faces left (`Some(true)`), right (`Some(false)`), or
/// keeps its facing (`None`) for a horizontal velocity `x`.
pub open spec fn flip(x: int) -> Option<bool> {
    if x < 0 {
        Some(true)
    } else if x > 0 {
        Some(false)
    } else {
        None
    }
}

/// The jump term changes vertical velocity only when a jump was pressed this
/// frame while on the floor; in every other case only gravity acts.
pub proof fn lemma_jump_only_on_floor(y: int, delta_ms: int, jump_just_pressed: bool, on_floor: bool)
    ensures
        (jump_just_pressed && on_floor) <==> after_slide_y(y, delta_ms, jump_just_pressed, on_floor)
            != fall(y, delta_ms),
        jump_just_pressed && on_floor ==> after_slide_y(y, delta_ms, jump_just_pressed, on_floor)
            == fall(y, delta_ms) - JUMP_FORCE,
{
}

/// The horizontal velocity for the held directions at `speed`.
pub fn horizontal_velocity(move_right: bool, move_left: bool, speed: i32) -> (r: i64)
    ensures
        r == horizontal(move_right, move_left, speed as int),
{
    let mut x: i64 = 0;
    if move_right {
        x = x + speed as i64;
    } else if move_left {
        x = x - speed as i64;
    }
    x
}

/// The sprite facing for horizontal velocity `x`.
pub fn flip_for(x: i64) -> (r: Option<bool>)
    ensures
        r == flip(x as int),
{
    if x < 0 {
        Some(true)
    } else if x > 0 {
        Some(false)
    } else {
        None
    }
}

/// The velocity gravity adds over `delta_ms` milliseconds.
fn gravity_step(delta_ms: u32) -> (r: i64)
    ensures
        r == GRAVITY * delta_ms,
{
    let d = delta_ms as i64;
    assert(0 <= GRAVITY * d <= 800 * u32::MAX) by (nonlinear_arith)
        requires
            0 <= d <= u32::MAX,
            GRAVITY == 800,
    ;
    GRAVITY * d
}

/// The player: score, running speed and current velocity.
///
/// Speed and velocity are in thousandths of a unit per second, so that
/// gravity over a frame of whole milliseconds is exact.
pub struct Player {
    pub score: i32,
    pub speed: i32,
    pub velocity: Vector2,
}

impl Player {
    /// The vertical velocity at the end of the frame stays in range.
    pub open spec fn slide_fits(slid: Vector2, delta_ms: int, jump_just_pressed: bool, on_floor: bool) -> bool {
        i64::MIN <= after_slide_y(slid.y as int, delta_ms, jump_just_pressed, on_floor)
            && fall(slid.y as int, delta_ms) <= i64::MAX
    }

    /// Whether the vertical velocity stays in range through a frame of
    /// `delta_ms` milliseconds after the slide returned `slid`.
    pub fn fits_after_slide(slid: Vector2, delta_ms: u32, jump_just_pressed: bool, on_floor: bool) -> (r: bool)
        ensures
            r == Player::slide_fits(slid, delta_ms as int, jump_just_pressed, on_floor),
    {
        let fallen: i128 = slid.y as i128 + gravity_step(delta_ms) as i128;
        let last: i128 = if jump_just_pressed && on_floor {
            fallen - JUMP_FORCE as i128
        } else {
            fallen
        };
        i64::MIN as i128 <= last && fallen <= i64::MAX as i128
    }

    pub fn new() -> (r: Player)
        ensures
            r.score == 0,
            r.speed == INITIAL_SPEED,
            r.velocity == (Vector2 { x: 0, y: 0 }),
    {
        Player { score: 0, speed: INITIAL_SPEED, velocity: Vector2 { x: 0, y: 0 } }
    }

    /// First half of a physics frame: sets the horizontal velocity from the
    /// input and returns the velocity to hand to the slide.
    pub fn begin_physics(&mut self, input: MoveInput) -> (r: Vector2)
        ensures
            final(self).velocity == (Vector2 {
                x: horizontal(input.move_right, input.move_left, old(self).speed as int) as i64,
                y: old(self).velocity.y,
            }),
            r == final(self).velocity,
            final(self).score == old(self).score,
            final(self).speed == old(self).speed,
    {
        self.velocity.x = horizontal_velocity(input.move_right, input.move_left, self.speed);
        self.velocity
    }

    /// Second half of a physics frame: takes the velocity the slide returned,
    /// applies gravity and a jump, and returns the sprite facing.
    pub fn finish_physics(&mut self, slid: Vector2, delta_ms: u32, jump_just_pressed: bool, on_floor: bool) -> (r: Option<bool>)
        requires
            Player::slide_fits(slid, delta_ms as int, jump_just_pressed, on_floor),
        ensures
            final(self).velocity.x == slid.x,
            final(self).velocity.y == after_slide_y(slid.y as int, delta_ms as int, jump_just_pressed, on_floor),
            r == flip(slid.x as int),
            final(self).score == old(self).score,
            final(self).speed == old(self).speed,
    {
        self.velocity = slid;
        self.velocity.y = self.velocity.y + gravity_step(delta_ms);
        if jump_just_pressed && on_floor {
            self.velocity.y = self.velocity.y - JUMP_FORCE;
        }
        flip_for(self.velocity.x)
    }

    /// Adds a coin's value to the score and returns what the display and the
    /// sound player are told, in order.
    pub fn collect_coin(&mut self, value: i32) -> (r: Vec<Notice>)
        requires
            i32::MIN <= old(self).score + value <= i32::MAX,
        ensures
            final(self).score == old(self).score + value,
            final(self).speed == old(self).speed,
            final(self).velocity == old(self).velocity,
            r@ == seq![Notice::SetScoreText(final(self).score), Notice::PlayCoinSfx],
    {
        self.score = self.score + value;
        let mut r: Vec<Notice> = Vec::new();
        r.push(Notice::SetScoreText(self.score));
        r.push(Notice::PlayCoinSfx);
        r
    }
}

} // verus!
