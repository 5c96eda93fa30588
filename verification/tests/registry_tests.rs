use mirrord_layer::error::LayerError;
use mirrord_layer::protocol::{IpAddress, Listen, Protocol, SocketAddress};
use mirrord_layer::registry::PortRegistry;

fn listen(port: u16, bound: u16) -> Listen {
    Listen {
        requested_port: port,
        actual_local_addr: SocketAddress { ip: IpAddress::V4(0x7f00_0001), port: bound },
        protocol: Protocol::Tcp,
    }
}

#[test]
fn empty_registry() {
    let registry = PortRegistry::new();
    assert_eq!(registry.len(), 0);
    assert!(!registry.contains(80));
    assert_eq!(registry.get(80), None);
}

#[test]
fn subscribe_then_get() {
    let mut registry = PortRegistry::new();
    assert_eq!(registry.subscribe(listen(80, 8080)), Ok(()));
    assert_eq!(registry.subscribe(listen(443, 8443)), Ok(()));
    assert_eq!(registry.len(), 2);
    assert_eq!(registry.get(80), Some(listen(80, 8080)));
    assert_eq!(registry.get(443), Some(listen(443, 8443)));
    assert_eq!(registry.get(8080), None);
}

#[test]
fn subscribe_twice_fails_without_side_effects() {
    let mut registry = PortRegistry::new();
    assert_eq!(registry.subscribe(listen(80, 8080)), Ok(()));
    assert_eq!(registry.subscribe(listen(80, 9090)), Err(LayerError::ListenAlreadyExists));
    assert_eq!(registry.len(), 1);
    assert_eq!(registry.get(80), Some(listen(80, 8080)));
}

#[test]
fn edge_ports() {
    let mut registry = PortRegistry::new();
    assert_eq!(registry.subscribe(listen(0, 1)), Ok(()));
    assert_eq!(registry.subscribe(listen(65535, 2)), Ok(()));
    assert!(registry.contains(0));
    assert!(registry.contains(65535));
    assert_eq!(
        registry.get(65535).unwrap().actual_local_addr,
        SocketAddress { ip: IpAddress::V4(0x7f00_0001), port: 2 }
    );
}

#[test]
fn listens_over_ipv6() {
    let mut registry = PortRegistry::new();
    let record = Listen {
        requested_port: 80,
        actual_local_addr: SocketAddress { ip: IpAddress::V6(1), port: 8080 },
        protocol: Protocol::Tcp,
    };
    assert_eq!(registry.subscribe(record), Ok(()));
    assert_eq!(registry.get(80), Some(record));
}
