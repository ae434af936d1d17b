//! The rules of a two-paddle ball game, on whole numbers.
//!
//! Every length is a whole number of thirds of a world unit, so that the
//! distance a paddle or the ball covers in one tick, ten thirds, is exact.
//! The modules go from the arena's fixed geometry up to a whole tick of play:
//!
//! * [`geometry`]: vectors, transform records, the arena's constants and walls;
//! * [`collision`]: the overlap test between two boxes and the side that was hit;
//! * [`ball`]: the ball's movement and its reflection off a list of colliders;
//! * [`paddle`]: the keys that are held down and the paddle movement they ask for;
//! * [`game`]: the six colliders and the ball as one state, and one tick of it.

pub mod ball;
pub mod collision;
pub mod game;
pub mod geometry;
pub mod paddle;
