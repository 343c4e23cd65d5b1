//! Side-view arcade game cores: gravity physics for a single actor, a
//! scrolling obstacle, and the Menu / Playing / End mode machine, plus a small
//! visitor roster. Rendering and input devices live with the host.

pub mod engine;
pub mod flappy;
pub mod log_jump;
pub mod treehouse;
