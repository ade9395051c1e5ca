//! The port selector: which ports are tried, in which order, and which one
//! is taken.

use crate::seqs::{first_position, lemma_first_position_bounds, lemma_first_position_is};
use crate::startup::StartupError;
use vstd::prelude::*;

verus! {

/// The ports of `ports` in their order, each kept where it first occurs.
pub open spec fn dedup(ports: Seq<u16>) -> Seq<u16>
    decreases ports.len(),
{
    if ports.len() == 0 {
        Seq::empty()
    } else {
        let front = dedup(ports.drop_last());
        if front.contains(ports.last()) {
            front
        } else {
            front.push(ports.last())
        }
    }
}

/// The requested port, if there is one, followed by the fallback ports.
pub open spec fn requested_then_fallback(requested: Option<u16>, fallback: Seq<u16>) -> Seq<u16> {
    match requested {
        Some(port) => seq![port] + fallback,
        None => fallback,
    }
}

/// The candidate list: the requested port first, then the fallback ports in
/// their configured order, no port twice.
pub open spec fn candidate_ports(requested: Option<u16>, fallback: Seq<u16>) -> Seq<u16> {
    dedup(requested_then_fallback(requested, fallback))
}

/// What `dedup` keeps: every port once, none that was not there, and the
/// ports in the order of their first occurrences.
pub proof fn lemma_dedup(ports: Seq<u16>)
    ensures
        dedup(ports).no_duplicates(),
        forall|port: u16| dedup(ports).contains(port) <==> ports.contains(port),
        forall|i: int, j: int|
            0 <= i < j < dedup(ports).len() ==> first_position(ports, dedup(ports)[i])
                < first_position(ports, dedup(ports)[j]),
        dedup(ports).len() <= ports.len(),
        ports.len() > 0 ==> dedup(ports).len() > 0 && dedup(ports)[0] == ports[0],
    decreases ports.len(),
{
    if ports.len() > 0 {
        let front = ports.drop_last();
        let last = ports.last();
        let kept = dedup(front);
        let all = dedup(ports);
        lemma_dedup(front);
        assert forall|port: u16| all.contains(port) <==> ports.contains(port) by {
            if all.contains(port) {
                let k = choose|k: int| 0 <= k < all.len() && all[k] == port;
                if k < kept.len() {
                    assert(kept[k] == port);
                    assert(kept.contains(port));
                    assert(front.contains(port));
                    let m = choose|m: int| 0 <= m < front.len() && front[m] == port;
                    assert(ports[m] == port);
                } else {
                    assert(ports[ports.len() - 1] == port);
                }
            }
            if ports.contains(port) {
                let m = choose|m: int| 0 <= m < ports.len() && ports[m] == port;
                if m < front.len() {
                    assert(front[m] == port);
                    assert(front.contains(port));
                    let k = choose|k: int| 0 <= k < kept.len() && kept[k] == port;
                    assert(all[k] == port);
                } else if kept.contains(last) {
                } else {
                    assert(all[all.len() - 1] == port);
                }
            }
        }
        assert forall|port: u16| front.contains(port) implies first_position(ports, port)
            == first_position(front, port) by {
            lemma_first_position_bounds(front, port);
            let n = first_position(front, port);
            let m = choose|m: int| 0 <= m < front.len() && front[m] == port;
            assert(n < front.len());
            assert forall|k: int| 0 <= k < n implies ports[k] != port by {
                assert(ports[k] == front[k]);
            }
            assert(ports[n] == front[n]);
            lemma_first_position_is(ports, port, n);
        }
        assert forall|i: int, j: int| 0 <= i < j < all.len() implies first_position(ports, all[i])
            < first_position(ports, all[j]) by {
            assert(all[i] == kept[i]);
            assert(kept.contains(kept[i]));
            assert(front.contains(kept[i]));
            if j < kept.len() {
                assert(all[j] == kept[j]);
                assert(kept.contains(kept[j]));
                assert(front.contains(kept[j]));
            } else {
                assert(all[j] == last);
                assert(!kept.contains(last));
                assert(!front.contains(last));
                lemma_first_position_bounds(front, kept[i]);
                let m = choose|m: int| 0 <= m < front.len() && front[m] == kept[i];
                assert(first_position(front, kept[i]) < front.len());
                assert forall|k: int| 0 <= k < ports.len() - 1 implies ports[k] != last by {
                    if ports[k] == last {
                        assert(front[k] == last);
                    }
                }
                lemma_first_position_is(ports, last, ports.len() - 1);
            }
        }
        if front.len() > 0 {
            assert(front[0] == ports[0]);
        }
    }
}

/// The candidate list is empty exactly where no port was asked for and no
/// fallback port is configured.
pub proof fn lemma_no_candidates(requested: Option<u16>, fallback: Seq<u16>)
    ensures
        candidate_ports(requested, fallback).len() == 0 <==> (requested is None && fallback.len()
            == 0),
{
    lemma_dedup(requested_then_fallback(requested, fallback));
}

/// Builds the candidate list from the requested port and the fallback ports.
pub fn port_candidates(requested: Option<u16>, fallback: &Vec<u16>) -> (candidates: Vec<u16>)
    ensures
        candidates@ == candidate_ports(requested, fallback@),
{
    let mut candidates: Vec<u16> = Vec::new();
    let ghost head = requested_then_fallback(requested, Seq::empty());
    if let Some(port) = requested {
        candidates.push(port);
        proof {
            assert(seq![port].drop_last() == Seq::<u16>::empty());
            assert(dedup(seq![port].drop_last()) == Seq::<u16>::empty());
            assert(candidates@ == dedup(seq![port]));
            assert(seq![port] + Seq::<u16>::empty() == seq![port]);
        }
    }
    let mut i: usize = 0;
    while i < fallback.len()
        invariant
            i <= fallback.len(),
            head == requested_then_fallback(requested, Seq::empty()),
            candidates@ == dedup(head + fallback@.take(i as int)),
        decreases fallback.len() - i,
    {
        let port = fallback[i];
        proof {
            let next = head + fallback@.take(i + 1);
            assert(next.drop_last() == head + fallback@.take(i as int));
            assert(next.last() == port);
        }
        if !contains_port(&candidates, port) {
            candidates.push(port);
        }
        i += 1;
    }
    proof {
        assert(fallback@.take(fallback.len() as int) == fallback@);
        assert(head + fallback@ == requested_then_fallback(requested, fallback@));
    }
    candidates
}

fn contains_port(ports: &Vec<u16>, port: u16) -> (found: bool)
    ensures
        found == ports@.contains(port),
{
    let mut i: usize = 0;
    while i < ports.len()
        invariant
            i <= ports.len(),
            forall|k: int| 0 <= k < i ==> ports@[k] != port,
        decreases ports.len() - i,
    {
        if ports[i] == port {
            return true;
        }
        i += 1;
    }
    false
}

/// `port` is what a search through `ports` ends with: the first port for
/// which the probe answered that it can be bound, after it answered for every
/// port before it that it cannot; or nothing, after it answered so for all.
pub open spec fn first_available<F: Fn(&str, u16) -> bool>(
    probe: F,
    bind_addr: &str,
    ports: Seq<u16>,
    port: Option<u16>,
) -> bool {
    match port {
        Some(found) => exists|i: int|
            #![trigger ports[i]]
            {
                &&& 0 <= i < ports.len()
                &&& ports[i] == found
                &&& call_ensures(probe, (bind_addr, found), true)
                &&& forall|j: int|
                    0 <= j < i ==> call_ensures(probe, (bind_addr, #[trigger] ports[j]), false)
            },
        None => forall|j: int|
            0 <= j < ports.len() ==> call_ensures(probe, (bind_addr, #[trigger] ports[j]), false),
    }
}

/// Tries the ports in their order and returns the first that the probe
/// reports as available on `bind_addr`. Ports behind it are not tried.
pub fn get_available_port<F: Fn(&str, u16) -> bool>(
    bind_addr: &str,
    ports_to_check: Vec<u16>,
    port_is_available: F,
) -> (port: Option<u16>)
    requires
        forall|i: int|
            0 <= i < ports_to_check.len() ==> call_requires(
                port_is_available,
                (bind_addr, #[trigger] ports_to_check[i]),
            ),
    ensures
        first_available(port_is_available, bind_addr, ports_to_check@, port),
{
    let mut i: usize = 0;
    while i < ports_to_check.len()
        invariant
            i <= ports_to_check.len(),
            forall|k: int|
                0 <= k < ports_to_check.len() ==> call_requires(
                    port_is_available,
                    (bind_addr, #[trigger] ports_to_check[k]),
                ),
            forall|j: int|
                0 <= j < i ==> call_ensures(
                    port_is_available,
                    (bind_addr, #[trigger] ports_to_check@[j]),
                    false,
                ),
        decreases ports_to_check.len() - i,
    {
        let port = ports_to_check[i];
        if port_is_available(bind_addr, port) {
            assert(ports_to_check@[i as int] == port);
            return Some(port);
        }
        i += 1;
    }
    None
}

/// The first port of `ports` that is free; nothing where none is.
pub open spec fn first_free(ports: Seq<u16>, free: spec_fn(u16) -> bool) -> Option<u16>
    decreases ports.len(),
{
    if ports.len() == 0 {
        None
    } else if free(ports[0]) {
        Some(ports[0])
    } else {
        first_free(ports.skip(1), free)
    }
}

/// Where the probe tells for each port whether it is free, the search ends
/// with the first free port of the list, and with nothing only where no port
/// of the list is free.
pub proof fn lemma_first_free_is_selected<F: Fn(&str, u16) -> bool>(
    probe: F,
    bind_addr: &str,
    ports: Seq<u16>,
    free: spec_fn(u16) -> bool,
    port: Option<u16>,
)
    requires
        first_available(probe, bind_addr, ports, port),
        forall|p: u16, answer: bool|
            call_ensures(probe, (bind_addr, p), answer) ==> answer == free(p),
    ensures
        port == first_free(ports, free),
        port is None <==> forall|i: int| 0 <= i < ports.len() ==> !free(ports[i]),
    decreases ports.len(),
{
    if ports.len() > 0 {
        let rest = ports.skip(1);
        if free(ports[0]) {
            match port {
                Some(found) => {
                    let i = choose|i: int|
                        #![trigger ports[i]]
                        {
                            &&& 0 <= i < ports.len()
                            &&& ports[i] == found
                            &&& call_ensures(probe, (bind_addr, found), true)
                            &&& forall|j: int|
                                0 <= j < i ==> call_ensures(
                                    probe,
                                    (bind_addr, #[trigger] ports[j]),
                                    false,
                                )
                        };
                    if i > 0 {
                        assert(call_ensures(probe, (bind_addr, ports[0]), false));
                    }
                },
                None => {
                    assert(call_ensures(probe, (bind_addr, ports[0]), false));
                },
            }
        } else {
            match port {
                Some(found) => {
                    let i = choose|i: int|
                        #![trigger ports[i]]
                        {
                            &&& 0 <= i < ports.len()
                            &&& ports[i] == found
                            &&& call_ensures(probe, (bind_addr, found), true)
                            &&& forall|j: int|
                                0 <= j < i ==> call_ensures(
                                    probe,
                                    (bind_addr, #[trigger] ports[j]),
                                    false,
                                )
                        };
                    assert(i > 0);
                    assert(rest[i - 1] == found);
                    assert forall|j: int| 0 <= j < i - 1 implies call_ensures(
                        probe,
                        (bind_addr, #[trigger] rest[j]),
                        false,
                    ) by {
                        assert(rest[j] == ports[j + 1]);
                    }
                    assert(first_available(probe, bind_addr, rest, port));
                },
                None => {
                    assert forall|j: int| 0 <= j < rest.len() implies call_ensures(
                        probe,
                        (bind_addr, #[trigger] rest[j]),
                        false,
                    ) by {
                        assert(rest[j] == ports[j + 1]);
                    }
                },
            }
            lemma_first_free_is_selected(probe, bind_addr, rest, free, port);
            if port is None {
                assert forall|i: int| 0 <= i < ports.len() implies !free(ports[i]) by {
                    if i > 0 {
                        assert(ports[i] == rest[i - 1]);
                    }
                }
            } else {
                let k = choose|k: int| 0 <= k < rest.len() && free(rest[k]);
                assert(free(ports[k + 1]));
            }
        }
    }
}

/// Selects the port to listen on: the first candidate that the probe reports
/// as available on `bind_addr`. Without any candidate the probe is not asked.
pub fn select_port<F: Fn(&str, u16) -> bool>(
    bind_addr: &str,
    requested: Option<u16>,
    fallback: &Vec<u16>,
    port_is_available: F,
) -> (selected: Result<u16, StartupError>)
    requires
        forall|i: int|
            0 <= i < candidate_ports(requested, fallback@).len() ==> call_requires(
                port_is_available,
                (bind_addr, #[trigger] candidate_ports(requested, fallback@)[i]),
            ),
    ensures
        selected == Err::<u16, StartupError>(StartupError::NoFallbackPorts) <==> (requested is None
            && fallback@.len() == 0),
        selected matches Ok(port) ==> first_available(
            port_is_available,
            bind_addr,
            candidate_ports(requested, fallback@),
            Some(port),
        ),
        selected matches Err(error) ==> error == StartupError::NoFallbackPorts || (error
            == StartupError::NoPortAvailable && first_available(
            port_is_available,
            bind_addr,
            candidate_ports(requested, fallback@),
            None,
        )),
{
    let candidates = port_candidates(requested, fallback);
    proof {
        lemma_no_candidates(requested, fallback@);
    }
    if candidates.len() == 0 {
        return Err(StartupError::NoFallbackPorts);
    }
    match get_available_port(bind_addr, candidates, port_is_available) {
        Some(port) => Ok(port),
        None => Err(StartupError::NoPortAvailable),
    }
}

} // verus!
