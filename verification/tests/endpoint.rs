//! The address:port join used for binding and for the server's logs.

use quido_node::endpoint::{decimal_string, listen_endpoint};

#[test]
fn joins_address_and_default_port() {
    assert_eq!(listen_endpoint("0.0.0.0", 443), "0.0.0.0:443");
}

#[test]
fn joins_loopback_and_largest_port() {
    assert_eq!(listen_endpoint("127.0.0.1", 65535), "127.0.0.1:65535");
}

#[test]
fn renders_ports_in_decimal() {
    assert_eq!(decimal_string(0), "0");
    assert_eq!(decimal_string(7), "7");
    assert_eq!(decimal_string(80), "80");
    assert_eq!(decimal_string(8080), "8080");
}
