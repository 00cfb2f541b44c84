use rewire_viewer::control::{candidate_ports, pick_port, DEFAULT_PORT};

#[test]
fn candidates_are_the_default_then_an_ephemeral_port() {
    assert_eq!(candidate_ports(), vec![DEFAULT_PORT, 0]);
    assert_eq!(DEFAULT_PORT, 9878);
}

#[test]
fn pick_port_prefers_the_default_port() {
    assert_eq!(pick_port(&vec![Some(DEFAULT_PORT)]), DEFAULT_PORT);
    assert_eq!(pick_port(&vec![Some(DEFAULT_PORT), Some(40000)]), DEFAULT_PORT);
}

#[test]
fn pick_port_falls_back_when_the_default_is_taken() {
    assert_eq!(pick_port(&vec![None, Some(51234)]), 51234);
}

#[test]
fn pick_port_defaults_when_nothing_binds() {
    assert_eq!(pick_port(&vec![None, None]), DEFAULT_PORT);
    assert_eq!(pick_port(&Vec::new()), DEFAULT_PORT);
}

use rewire_viewer::control::pick_addr;

#[test]
fn pick_addr_is_loopback_at_the_picked_port() {
    let addr = pick_addr(&vec![None, Some(51234)]);
    assert_eq!(addr.octets, [127, 0, 0, 1]);
    assert_eq!(addr.port, 51234);
    let addr = pick_addr(&vec![Some(DEFAULT_PORT)]);
    assert_eq!(addr.octets, [127, 0, 0, 1]);
    assert_eq!(addr.port, DEFAULT_PORT);
    assert_eq!(pick_addr(&Vec::new()).port, DEFAULT_PORT);
}
