//! Which worker host the next dispatch attempt runs on: here, or one of the
//! SSH pool's hosts, by the number of workers each already runs.

use vstd::prelude::*;

use crate::orchestrator::retry::WorkerHostSelection;
use crate::text::str_eq;

verus! {

/// How many running workers are on a host.
pub open spec fn host_load(running_hosts: Seq<Option<String>>, host: Seq<char>) -> nat
    decreases running_hosts.len(),
{
    if running_hosts.len() == 0 {
        0
    } else {
        host_load(running_hosts.drop_last(), host) + (if running_hosts.last() matches Some(h) && h@
            == host {
            1nat
        } else {
            0nat
        })
    }
}

/// A host with this load may take one more worker: it is under the cap per
/// host, when there is one.
pub open spec fn under_cap(load: nat, cap: Option<u32>) -> bool {
    match cap {
        Some(c) => load < c,
        None => true,
    }
}

/// A pool host that may take one more worker.
pub open spec fn eligible_host(
    hosts: Seq<String>,
    running_hosts: Seq<Option<String>>,
    cap: Option<u32>,
    i: int,
) -> bool {
    0 <= i < hosts.len() && under_cap(host_load(running_hosts, hosts[i]@), cap)
}

/// The least-loaded eligible host of the pool, the first in the pool's
/// order among equally loaded ones.
pub open spec fn least_loaded(
    hosts: Seq<String>,
    running_hosts: Seq<Option<String>>,
    cap: Option<u32>,
    i: int,
) -> bool {
    &&& eligible_host(hosts, running_hosts, cap, i)
    &&& forall|j: int|
        #[trigger] eligible_host(hosts, running_hosts, cap, j) ==> host_load(running_hosts, hosts[i]@)
            <= host_load(running_hosts, hosts[j]@)
    &&& forall|j: int|
        0 <= j < i && #[trigger] eligible_host(hosts, running_hosts, cap, j) ==> host_load(
            running_hosts,
            hosts[i]@,
        ) < host_load(running_hosts, hosts[j]@)
}

/// The host the next attempt runs on: here when workspaces are isolated in
/// Docker or no SSH host is configured; else the preferred host while it is
/// under the cap; else the least-loaded host under the cap; else none.
pub open spec fn worker_host_choice(
    docker_isolation: bool,
    ssh_hosts: Seq<String>,
    running_hosts: Seq<Option<String>>,
    cap: Option<u32>,
    preferred: Option<Seq<char>>,
    res: WorkerHostSelection,
) -> bool {
    let preferred_fits = match preferred {
        Some(p) => under_cap(host_load(running_hosts, p), cap),
        None => false,
    };
    if docker_isolation || ssh_hosts.len() == 0 {
        res == WorkerHostSelection::Local
    } else if preferred_fits {
        res matches WorkerHostSelection::Remote(h) && Some(h@) == preferred
    } else if exists|i: int| #[trigger] eligible_host(ssh_hosts, running_hosts, cap, i) {
        res matches WorkerHostSelection::Remote(h) && exists|i: int|
            least_loaded(ssh_hosts, running_hosts, cap, i) && #[trigger] ssh_hosts[i]@ == h@
    } else {
        res == WorkerHostSelection::NoneAvailable
    }
}

/// The number of running workers on a host.
pub fn count_host_load(running_hosts: &Vec<Option<String>>, host: &str) -> (res: usize)
    ensures
        res == host_load(running_hosts@, host@),
{
    let mut n: usize = 0;
    let mut i: usize = 0;
    while i < running_hosts.len()
        invariant
            i <= running_hosts@.len(),
            n == host_load(running_hosts@.take(i as int), host@),
            n <= i,
        decreases running_hosts@.len() - i,
    {
        proof {
            assert(running_hosts@.take(i + 1).drop_last() =~= running_hosts@.take(i as int));
        }
        match &running_hosts[i] {
            Some(h) => {
                if str_eq(h.as_str(), host) {
                    n = n + 1;
                }
            },
            None => {},
        }
        i = i + 1;
    }
    assert(running_hosts@.take(running_hosts@.len() as int) =~= running_hosts@);
    n
}

fn is_under_cap(load: usize, cap: Option<u32>) -> (res: bool)
    ensures
        res == under_cap(load as nat, cap),
{
    match cap {
        Some(c) => load < c as usize,
        None => true,
    }
}

/// Select a worker host for the next dispatch attempt, given where the
/// running workers are (`running_hosts`, `None` for a local worker) and
/// the cap of workers per host (none when unlimited).
pub fn select_worker_host(
    docker_isolation: bool,
    ssh_hosts: &Vec<String>,
    running_hosts: &Vec<Option<String>>,
    cap: Option<u32>,
    preferred: Option<&str>,
) -> (res: WorkerHostSelection)
    ensures
        worker_host_choice(
            docker_isolation,
            ssh_hosts@,
            running_hosts@,
            cap,
            match preferred {
                Some(p) => Some(p@),
                None => None,
            },
            res,
        ),
{
    if docker_isolation || ssh_hosts.len() == 0 {
        return WorkerHostSelection::Local;
    }
    match preferred {
        Some(p) => {
            if is_under_cap(count_host_load(running_hosts, p), cap) {
                return WorkerHostSelection::Remote(p.to_owned());
            }
        },
        None => {},
    }
    let ghost hs = ssh_hosts@;
    let ghost rh = running_hosts@;
    let mut best: Option<(usize, usize)> = None;
    let mut i: usize = 0;
    while i < ssh_hosts.len()
        invariant
            i <= hs.len(),
            hs == ssh_hosts@,
            rh == running_hosts@,
            match best {
                None => forall|j: int| 0 <= j < i ==> !#[trigger] eligible_host(hs, rh, cap, j),
                Some((b, l)) => {
                    &&& b < i
                    &&& l == host_load(rh, hs[b as int]@)
                    &&& eligible_host(hs, rh, cap, b as int)
                    &&& forall|j: int|
                        0 <= j < i && #[trigger] eligible_host(hs, rh, cap, j) ==> l <= host_load(
                            rh,
                            hs[j]@,
                        )
                    &&& forall|j: int|
                        0 <= j < b && #[trigger] eligible_host(hs, rh, cap, j) ==> l < host_load(
                            rh,
                            hs[j]@,
                        )
                },
            },
        decreases hs.len() - i,
    {
        let load = count_host_load(running_hosts, ssh_hosts[i].as_str());
        if is_under_cap(load, cap) {
            match best {
                None => {
                    best = Some((i, load));
                },
                Some((_, l)) => {
                    if load < l {
                        best = Some((i, load));
                    }
                },
            }
        }
        i = i + 1;
    }
    match best {
        Some((b, _)) => {
            proof {
                assert(least_loaded(hs, rh, cap, b as int));
            }
            WorkerHostSelection::Remote(ssh_hosts[b].clone())
        },
        None => WorkerHostSelection::NoneAvailable,
    }
}

} // verus!
