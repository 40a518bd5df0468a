pub mod emulator;
pub mod laws;
pub mod loader;
pub mod parity;
pub mod semantics;
pub mod sign;
pub mod space_invaders;
pub mod state_8080;
