//! A single sprite walking over the screen: its facing, its movement step,
//! its animation cursor, the keyboard rules that steer it, and the geometry
//! that places one frame of its sprite sheet on the screen.

pub mod direction;
pub mod geometry;
pub mod player;
pub mod input;
pub mod view;
