pub mod board;
pub mod round;
pub mod session;
pub mod laws;
