//! A two-player Pong simulation in fixed-point arithmetic: the geometry of
//! puck and paddles, the reflection of the puck off a paddle, the motion of
//! both per frame, and the match with its scores, its winner and its restart.

pub mod fixed;
pub mod geometry;
pub mod paddle;
pub mod angle;
pub mod puck;
pub mod game;
