//! Simulation core of a grid-based snake game: the snake's ring-buffer body,
//! movement and growth, collision checks, apple eating, scoring and speed-up.
//! The host supplies random apple cells, draws the frames and relays events.

pub mod direction;
pub mod snake;
pub mod game;
