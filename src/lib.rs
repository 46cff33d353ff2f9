//! Core of a tile-based lunar base-building game: the mission catalog, the
//! procedurally generated terrain grid, the camera with its coordinate
//! transforms, and the session state that ties them together.

pub mod camera;
pub mod dialog;
pub mod game_state;
pub mod grid;
pub mod mission;
pub mod session;
