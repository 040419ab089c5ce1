//! Acquisition core of a game-session companion: the decisions behind packet
//! capture across network devices, and the discovery of the wish-history URL
//! that the game client leaves in its web cache.

mod text;

pub mod capture;
pub mod wish;
