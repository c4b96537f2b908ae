//! Endpoints of the signed-in user.

pub mod following;
pub mod player;
