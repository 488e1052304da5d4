//! The rate limits kept for one team: an optional team-wide counter and the
//! counters of method tiers and special limits, filled in as they are used.

use std::collections::HashMap;
use vstd::prelude::*;

use crate::ratectl::throttling_counter::{fresh_counter, ThrottlingCounter, clock_now_millis};

verus! {

/// The counters of one team.
#[derive(Debug)]
pub struct SlackTeamLimits {
    pub team_limit_counter: Option<ThrottlingCounter>,
    /// Counters by method rate tier number.
    pub tier_limits: HashMap<u8, ThrottlingCounter>,
    /// Counters by special limit key.
    pub special_limits: HashMap<String, ThrottlingCounter>,
    /// Clock reading, in milliseconds, of the last change.
    pub updated: u64,
}

impl SlackTeamLimits {
    /// The limits of a team at the current clock reading, with a team-wide
    /// counter when `team_max_rate_limit` gives its capacity and rate period
    /// in milliseconds.
    pub fn new(team_max_rate_limit: Option<(usize, u64)>) -> (r: Self)
        ensures
            r.tier_limits@ == Map::<u8, ThrottlingCounter>::empty(),
            r.special_limits@ == Map::<String, ThrottlingCounter>::empty(),
            match team_max_rate_limit {
                Some((capacity, rate)) => r.team_limit_counter matches Some(counter)
                    && counter@ == fresh_counter(capacity as nat, rate as nat, r.updated as nat),
                None => r.team_limit_counter is None,
            },
    {
        let now = clock_now_millis();
        Self::new_at(team_max_rate_limit, now)
    }

    /// The limits of a team at clock reading `now`.
    pub fn new_at(team_max_rate_limit: Option<(usize, u64)>, now: u64) -> (r: Self)
        ensures
            r.updated == now,
            r.tier_limits@ == Map::<u8, ThrottlingCounter>::empty(),
            r.special_limits@ == Map::<String, ThrottlingCounter>::empty(),
            match team_max_rate_limit {
                Some((capacity, rate)) => r.team_limit_counter matches Some(counter)
                    && counter@ == fresh_counter(capacity as nat, rate as nat, now as nat),
                None => r.team_limit_counter is None,
            },
    {
        let team_limit_counter = match team_max_rate_limit {
            Some((capacity, rate)) => Some(ThrottlingCounter::new_at(capacity, rate, now)),
            None => None,
        };
        SlackTeamLimits {
            team_limit_counter,
            tier_limits: HashMap::new(),
            special_limits: HashMap::new(),
            updated: now,
        }
    }
}

} // verus!
