use gateway_supervisor::identity::{DaemonIdentity, GATEWAY_PORT};

#[test]
fn the_gateway_listens_on_its_well_known_port() {
    assert_eq!(GATEWAY_PORT, 18789);
    assert_eq!(DaemonIdentity::gateway().port, 18789);
}

#[test]
fn base_url_names_the_port() {
    assert_eq!(DaemonIdentity::gateway().base_url(), "http://127.0.0.1:18789/");
    assert_eq!(DaemonIdentity { port: 8080 }.base_url(), "http://127.0.0.1:8080/");
}

#[test]
fn probe_address_names_the_port() {
    assert_eq!(DaemonIdentity::gateway().probe_address(), "127.0.0.1:18789");
    assert_eq!(DaemonIdentity { port: 1 }.probe_address(), "127.0.0.1:1");
}

#[test]
fn base_url_wraps_the_probe_address() {
    let identity = DaemonIdentity { port: 49152 };
    assert_eq!(identity.base_url(), format!("http://{}/", identity.probe_address()));
}

#[test]
fn different_ports_give_different_addresses() {
    let a = DaemonIdentity { port: 1878 };
    let b = DaemonIdentity { port: 18789 };
    assert_ne!(a.probe_address(), b.probe_address());
    assert_ne!(a.base_url(), b.base_url());
}
