//! Game logic of a small 2D platformer: enemy patrols, player movement and
//! scoring, coins, camera follow and the score display.
//!
//! Frame times are whole milliseconds, and positions and velocities are in
//! thousandths of a unit, so the motion of each frame is exact.
//! The engine that renders, collides and plays sound stays outside: it hands
//! these types plain values and carries out what they decide.

mod camera;
mod coin;
mod enemy;
mod names;
mod player;
mod ui;

pub use camera::CameraController;
pub use coin::Coin;
pub use enemy::{Enemy, advance, lemma_advance_never_overshoots};
pub use names::{is_player, player_name};
pub use player::{
    Player, Vector2, MoveInput, Notice, horizontal_velocity, flip_for, horizontal, fall, flip,
    after_slide_y, lemma_jump_only_on_floor, GRAVITY, JUMP_FORCE, INITIAL_SPEED,
};
pub use ui::{UI, decimal, digits};
