use reth_bench_compare::error::CliError;
use reth_bench_compare::ports::find_consecutive_ports;
use std::cell::RefCell;

#[test]
fn first_pair_is_taken_when_all_ports_are_free() {
    assert_eq!(find_consecutive_ports(3000, |_| true), Ok((3000, 3001)));
}

#[test]
fn a_pair_needs_both_ports() {
    let free = |port: u16| port != 3001 && port != 3003;
    assert_eq!(find_consecutive_ports(3000, free), Ok((3004, 3005)));
}

#[test]
fn the_second_port_is_probed_only_if_the_first_is_free() {
    let probed = RefCell::new(Vec::new());
    let probe = |port: u16| {
        probed.borrow_mut().push(port);
        port != 3000 && port != 3002
    };
    assert_eq!(find_consecutive_ports(3000, probe), Ok((3003, 3004)));
    assert_eq!(*probed.borrow(), vec![3000, 3001, 3002, 3002, 3003, 3004]);
}

#[test]
fn the_last_pair_ends_at_the_last_port() {
    assert_eq!(find_consecutive_ports(65533, |_| true), Ok((65533, 65534)));
    assert_eq!(find_consecutive_ports(65534, |_| true), Ok((65534, 65535)));
    assert_eq!(find_consecutive_ports(3000, |port| port >= 65534), Ok((65534, 65535)));
    assert_eq!(
        find_consecutive_ports(65535, |_| true),
        Err(CliError::NoConsecutivePorts { start_port: 65535 })
    );
}

#[test]
fn no_pair_is_an_error() {
    assert_eq!(
        find_consecutive_ports(3000, |_| false),
        Err(CliError::NoConsecutivePorts { start_port: 3000 })
    );
    assert_eq!(
        find_consecutive_ports(0, |port| port % 2 == 0),
        Err(CliError::NoConsecutivePorts { start_port: 0 })
    );
}
