//! The typed attributes that an entity of the world may carry.

mod animation;
mod camera;
mod intent;
mod name;
mod orientation;
mod player;
mod position;

pub use animation::{Animation, AnimationType, FRAMES};
pub use camera::Camera;
pub use intent::{Action, Intent};
pub use name::Name;
pub use orientation::Orientation;
pub use player::Player;
pub use position::Position;
