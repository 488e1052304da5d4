//! How the Socket Mode clients manager numbers its clients and staggers
//! their start.

use vstd::prelude::*;

verus! {

/// The ids of the clients that a new token adds to `existing_clients`
/// clients: `max_connections_count` of them, numbered on from the existing
/// ones, each with its index among the token's clients.
pub fn new_client_ids(existing_clients: usize, max_connections_count: u32) -> (r: Vec<(u32, u32)>)
    requires
        existing_clients + max_connections_count <= u32::MAX,
    ensures
        r.len() == max_connections_count,
        forall|i: int| 0 <= i < r.len() ==> #[trigger] r[i] == ((existing_clients + i) as u32, i as u32),
{
    let first = existing_clients as u32;
    let mut r: Vec<(u32, u32)> = Vec::new();
    let mut k: u32 = 0;
    while k < max_connections_count
        invariant
            k <= max_connections_count,
            first == existing_clients,
            existing_clients + max_connections_count <= u32::MAX,
            r.len() == k,
            forall|i: int| 0 <= i < r.len() ==> #[trigger] r[i] == ((existing_clients + i) as u32, i as u32),
        decreases max_connections_count - k,
    {
        let id = first + k;
        r.push((id, id - first));
        k = k + 1;
    }
    r
}

/// The delays, in seconds, after which the clients start, given the initial
/// backoff of each client's configuration in order: each waits its index
/// times its own initial backoff.
pub fn start_delays(initial_backoffs: &Vec<u64>) -> (r: Vec<u64>)
    requires
        forall|i: int| 0 <= i < initial_backoffs.len() ==> i * #[trigger] initial_backoffs[i] <= u64::MAX,
    ensures
        r.len() == initial_backoffs.len(),
        forall|i: int| 0 <= i < r.len() ==> #[trigger] r[i] == i * initial_backoffs[i],
{
    let mut r: Vec<u64> = Vec::new();
    let mut k: usize = 0;
    while k < initial_backoffs.len()
        invariant
            k <= initial_backoffs.len(),
            forall|i: int| 0 <= i < initial_backoffs.len() ==> i * #[trigger] initial_backoffs[i] <= u64::MAX,
            r.len() == k,
            forall|i: int| 0 <= i < r.len() ==> #[trigger] r[i] == i * initial_backoffs[i],
        decreases initial_backoffs.len() - k,
    {
        let backoff = initial_backoffs[k];
        assert(k * backoff <= u64::MAX) by {
            assert(k as int * initial_backoffs[k as int] <= u64::MAX);
        }
        r.push(k as u64 * backoff);
        k = k + 1;
    }
    r
}

/// Where the client to restart stands among the active clients, by its id:
/// the first place that holds the id, or `None` when no client has it (and
/// there is nothing to restart).
pub fn restart_index(active: &Vec<(u32, u32)>, id: (u32, u32)) -> (r: Option<usize>)
    ensures
        match r {
            Some(i) => i < active.len() && active[i as int] == id
                && forall|j: int| 0 <= j < i ==> active[j] != id,
            None => forall|j: int| 0 <= j < active.len() ==> active[j] != id,
        },
{
    let mut i: usize = 0;
    while i < active.len()
        invariant
            i <= active.len(),
            forall|j: int| 0 <= j < i ==> active[j] != id,
        decreases active.len() - i,
    {
        if active[i].0 == id.0 && active[i].1 == id.1 {
            return Some(i);
        }
        i = i + 1;
    }
    None
}

} // verus!
