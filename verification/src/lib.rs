pub mod bullet;
pub mod laws;
pub mod player;
pub mod round;
pub mod shotgun;
