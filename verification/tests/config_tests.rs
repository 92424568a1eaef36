use conicrypt_bridge::config::Config;

#[test]
fn derive_address_keeps_explicit_port() {
    assert_eq!(
        Config::host_port_from_url("http://127.0.0.1:5000", "9999"),
        "127.0.0.1:5000"
    );
    assert_eq!(
        Config::host_port_from_url("https://example.com:8080/api/v1", "1234"),
        "example.com:8080"
    );
}

#[test]
fn derive_address_appends_default_port() {
    assert_eq!(
        Config::host_port_from_url("http://localhost", "5000"),
        "localhost:5000"
    );
    assert_eq!(
        Config::host_port_from_url("http://example.com/path/deep", "80"),
        "example.com:80"
    );
}

#[test]
fn derive_address_tolerates_missing_scheme() {
    assert_eq!(Config::host_port_from_url("myhost", "5001"), "myhost:5001");
    assert_eq!(Config::host_port_from_url("", "7"), ":7");
}

#[test]
fn from_overrides_uses_defaults_when_absent() {
    let c = Config::from_overrides(None, None, None, None);
    assert_eq!(c.core_url, "http://127.0.0.1:5000");
    assert_eq!(c.plotter_url, "http://127.0.0.1:5001");
    assert_eq!(c.ws_host, "127.0.0.1");
    assert_eq!(c.ws_port, "9191");
}

#[test]
fn from_overrides_prefers_overrides() {
    let c = Config::from_overrides(
        Some("http://core:1".to_string()),
        Some("http://plot:2".to_string()),
        Some("0.0.0.0".to_string()),
        Some("7777".to_string()),
    );
    assert_eq!(c.core_url, "http://core:1");
    assert_eq!(c.plotter_url, "http://plot:2");
    assert_eq!(c.ws_host, "0.0.0.0");
    assert_eq!(c.ws_port, "7777");
}

#[test]
fn ws_address_interpolates_host_and_port() {
    let c = Config::from_overrides(None, None, None, None);
    assert_eq!(c.ws_address(), "ws://127.0.0.1:9191");
}

#[test]
fn service_addrs_use_service_default_ports() {
    let c = Config::from_overrides(
        Some("http://corehost".to_string()),
        Some("http://plothost:9000/x".to_string()),
        None,
        None,
    );
    assert_eq!(c.core_addr(), "corehost:5000");
    assert_eq!(c.plotter_addr(), "plothost:9000");
}
