use agama::network::{NetworkConfig, NetworkStateError};

fn state_with_eth0() -> NetworkConfig {
    let inner_state: nmstate::NetworkState = serde_json::from_str(
        r#"{
              "interfaces": [
                { "name": "eth0", "type": "ethernet" }
              ]
            }"#,
    )
    .unwrap();
    NetworkConfig(inner_state)
}

#[test]
fn test_interfaces() {
    let state = state_with_eth0();
    let interfaces = state.interfaces().to_vec();
    assert_eq!(interfaces.len(), 1);
    let eth0 = interfaces.get(0).unwrap();
    assert_eq!(eth0.base_iface().name, "eth0");
    assert_eq!(
        eth0.base_iface().iface_type,
        nmstate::InterfaceType::Ethernet
    );
}

#[test]
fn test_get_iface() {
    let state = state_with_eth0();
    let iface = state.get_iface("eth0").unwrap();
    assert_eq!(iface.base_iface().name, "eth0");
    assert!(state.get_iface("eth1").is_none());
}

#[test]
fn test_update_device() {
    let mut state = state_with_eth0();
    let device: nmstate::Interface =
        serde_json::from_str(r#"{ "name": "eth1", "type": "ethernet" }"#).unwrap();
    state.update_device(device).unwrap();
    assert!(state.get_iface("eth0").is_some());
    assert!(state.get_iface("eth1").is_some());
}

#[test]
fn test_set_default_gateway() {
    let mut state = state_with_eth0();
    state.set_default_gateway("192.168.1.1", "eth0").unwrap();
    let routes = state.routes_mut().config.clone().expect("routes were configured");
    assert_eq!(routes.len(), 2);
    let removal = &routes[0];
    assert_eq!(removal.state, Some(nmstate::RouteState::Absent));
    assert_eq!(removal.destination.as_deref(), Some("0.0.0.0/0"));
    assert_eq!(removal.next_hop_iface.as_deref(), Some("eth0"));
    assert_eq!(removal.next_hop_addr, None);
    let gateway = &routes[1];
    assert_eq!(gateway.state, None);
    assert_eq!(gateway.destination.as_deref(), Some("0.0.0.0/0"));
    assert_eq!(gateway.next_hop_iface.as_deref(), Some("eth0"));
    assert_eq!(gateway.next_hop_addr.as_deref(), Some("192.168.1.1"));
}

#[test]
fn test_network_error_messages() {
    assert_eq!(
        NetworkStateError::UnknownInterface("eth3".to_string()).message(),
        "Unknown network interface eth3"
    );
    assert_eq!(
        NetworkStateError::MissingIpv4Settings.message(),
        "Missing IPv4 data"
    );
    assert_eq!(
        NetworkStateError::InvalidIpAddr("500.1.1.1".to_string()).message(),
        "Invalid IP address 500.1.1.1"
    );
}
