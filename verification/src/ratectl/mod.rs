//! Client-side rate control: a token-bucket counter per limit, and the
//! limits kept for a team.

pub mod team_limits;
pub mod throttling_counter;

