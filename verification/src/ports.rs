//! The search for two consecutive free ports.

use vstd::prelude::*;
use crate::error::CliError;

verus! {

/// The last port at which a pair may begin.
pub const LAST_PAIR_START: u16 = 65534;

/// Whether the probe turned down the pair that begins at `port`: either the port was taken, or
/// it was free and the next one was taken.
pub open spec fn turned_down<F: Fn(u16) -> bool>(probe: F, port: int) -> bool {
    ||| call_ensures(probe, (port as u16,), false)
    ||| call_ensures(probe, (port as u16,), true) && call_ensures(
        probe,
        ((port + 1) as u16,),
        false,
    )
}

/// Whether the probe turned down every pair from the port `start` on.
pub open spec fn all_turned_down<F: Fn(u16) -> bool>(probe: F, start: u16) -> bool {
    forall|p: int| start <= p < 65535 ==> #[trigger] turned_down(probe, p)
}

/// Whether the probe reports a port as free exactly if `free` holds of it.
pub open spec fn reports<F: Fn(u16) -> bool>(probe: F, free: spec_fn(int) -> bool) -> bool {
    forall|port: u16, answer: bool|
        #[trigger] call_ensures(probe, (port,), answer) ==> answer == free(port as int)
}

/// Whether `found` begins the first free pair from `start` on, or is `None` if there is none.
pub open spec fn first_free_pair(
    free: spec_fn(int) -> bool,
    start: int,
    found: Option<int>,
) -> bool {
    match found {
        Some(port) => {
            &&& start <= port <= LAST_PAIR_START
            &&& free(port)
            &&& free(port + 1)
            &&& forall|p: int| #![trigger free(p)] start <= p < port ==> !(free(p) && free(p + 1))
        },
        None => forall|p: int|
            #![trigger free(p)]
            start <= p <= LAST_PAIR_START ==> !(free(p) && free(p + 1)),
    }
}

/// The first port of the pair that a search returned.
pub open spec fn found_port(res: Result<(u16, u16), CliError>) -> Option<int> {
    match res {
        Ok(pair) => Some(pair.0 as int),
        Err(_) => None,
    }
}

/// Finds two consecutive available ports, starting from the given port.
///
/// The probe is asked of each port in turn, and of the next one only if the first is available.
pub fn find_consecutive_ports<F: Fn(u16) -> bool>(start_port: u16, is_port_available: F) -> (res:
    Result<(u16, u16), CliError>)
    requires
        forall|port: u16| call_requires(is_port_available, (port,)),
    ensures
        match res {
            Ok(pair) => {
                &&& start_port <= pair.0 <= LAST_PAIR_START
                &&& pair.1 == pair.0 + 1
                &&& call_ensures(is_port_available, (pair.0,), true)
                &&& call_ensures(is_port_available, (pair.1,), true)
                &&& forall|p: int|
                    start_port <= p < pair.0 ==> #[trigger] turned_down(is_port_available, p)
            },
            Err(e) => {
                &&& e@ == (crate::error::Problem::<Seq<char>>::NoConsecutivePorts { start_port })
                &&& forall|p: int|
                    start_port <= p <= LAST_PAIR_START ==> #[trigger] turned_down(
                        is_port_available,
                        p,
                    )
            },
        },
        res is Err ==> all_turned_down(is_port_available, start_port),
        forall|free: spec_fn(int) -> bool| #[trigger]
            reports(is_port_available, free) ==> first_free_pair(
                free,
                start_port as int,
                found_port(res),
            ),
{
    let mut port: u16 = start_port;
    while port <= LAST_PAIR_START
        invariant
            start_port <= port,
            port <= LAST_PAIR_START + 1 || port == start_port,
            forall|p: u16| call_requires(is_port_available, (p,)),
            forall|p: int| start_port <= p < port ==> #[trigger] turned_down(is_port_available, p),
        decreases LAST_PAIR_START + 1 - port,
    {
        if is_port_available(port) {
            if is_port_available(port + 1) {
                let res = Ok((port, (port + 1) as u16));
                proof {
                    assert forall|free: spec_fn(int) -> bool| #[trigger]
                        reports(is_port_available, free) implies first_free_pair(
                        free,
                        start_port as int,
                        found_port(res),
                    ) by {
                        assert forall|p: int|
                            #![trigger free(p)]
                            start_port <= p < port implies !(free(p) && free(p + 1)) by {
                            assert(turned_down(is_port_available, p));
                        }
                    }
                }
                return res;
            }
        }
        assert(turned_down(is_port_available, port as int));
        port += 1;
    }
    let res = Err(CliError::NoConsecutivePorts { start_port });
    proof {
        assert forall|free: spec_fn(int) -> bool| #[trigger]
            reports(is_port_available, free) implies first_free_pair(
            free,
            start_port as int,
            found_port(res),
        ) by {
            assert forall|p: int|
                #![trigger free(p)]
                start_port <= p <= LAST_PAIR_START implies !(free(p) && free(p + 1)) by {
                assert(turned_down(is_port_available, p));
            }
        }
    }
    res
}

} // verus!
