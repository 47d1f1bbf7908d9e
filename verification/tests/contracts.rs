use tun_provider::IpAddress;
use tun_provider::MockTunProvider;
use tun_provider::StubTunProvider;
use tun_provider::Tun;
use tun_provider::TunConfig;
use tun_provider::TunError;
use tun_provider::TunProvider;

fn sample_addresses() -> Vec<IpAddress> {
    vec![
        IpAddress::v4(10, 0, 0, 2),
        IpAddress::v6(0xfd00, 0, 0, 0, 0, 0, 0, 2),
    ]
}

#[test]
fn tun_config_preserves_addresses() {
    let addrs = vec![
        IpAddress::v4(10, 0, 0, 2),
        IpAddress::v4(10, 0, 0, 2),
        IpAddress::v6(0xfd00, 0, 0, 0, 0, 0, 0, 2),
        IpAddress::v4(192, 168, 1, 1),
    ];
    let config = TunConfig::new(addrs.clone());
    assert_eq!(config.addresses, addrs);
}

#[test]
fn tun_config_accepts_empty_sequence() {
    let config = TunConfig::new(Vec::new());
    assert_eq!(config.addresses.len(), 0);
}

#[test]
fn stub_create_tun_always_unsupported() {
    let provider = StubTunProvider::new();
    let r = provider.create_tun(TunConfig::new(Vec::new()));
    assert!(matches!(r, Err(TunError::UnsupportedPlatform)));
    let r = provider.create_tun(TunConfig::new(sample_addresses()));
    assert!(matches!(r, Err(TunError::UnsupportedPlatform)));
    let r = provider.create_tun(TunConfig::new(vec![IpAddress::v4(127, 0, 0, 1)]));
    assert!(matches!(r, Err(TunError::UnsupportedPlatform)));
}

#[test]
fn created_device_name_nonempty_and_stable() {
    let provider = MockTunProvider::new("utun3".to_string(), 7).unwrap();
    let tun = provider.create_tun(TunConfig::new(sample_addresses())).unwrap();
    let first = tun.interface_name().to_string();
    let second = tun.interface_name().to_string();
    assert!(!first.is_empty());
    assert_eq!(first, second);
    assert_eq!(tun.raw_fd(), tun.raw_fd());
    assert!(tun.raw_fd() >= 0);
    tun.release();
}

#[test]
fn platform_provider_scenario() {
    // A config with one IPv4 and one IPv6 address, handed to a provider
    // standing in for the platform backend behind the OS name "tun0".
    let config = TunConfig::new(vec![
        IpAddress::v4(10, 0, 0, 2),
        IpAddress::v6(0xfd00, 0, 0, 0, 0, 0, 0, 2),
    ]);
    let provider = MockTunProvider::new("tun0".to_string(), 3).unwrap();
    let tun = provider.create_tun(config).unwrap();
    assert_eq!(tun.interface_name(), "tun0");
    let fd = tun.raw_fd();
    assert!(fd >= 0, "descriptor must be valid for polling");
    assert_eq!(fd, 3);
    tun.release();
}

#[test]
fn sequential_create_tun_reconnect() {
    // Two sequential tunnel sessions against one provider: the first device
    // is fully released before the second is requested, and each creation
    // succeeds independently.
    let provider = MockTunProvider::new("tun0".to_string(), 3).unwrap();
    let first = provider.create_tun(TunConfig::new(sample_addresses())).unwrap();
    assert_eq!(first.interface_name(), "tun0");
    first.release();
    let second = provider.create_tun(TunConfig::new(sample_addresses())).unwrap();
    assert_eq!(second.interface_name(), "tun0");
    assert!(second.raw_fd() >= 0);
    second.release();
}

#[test]
fn release_consumes_device() {
    // Release takes the device by value: a second release of the same
    // device is rejected by the compiler, so the OS resource can only be
    // given up once.  This exercises the single permitted release.
    let provider = MockTunProvider::new("tun1".to_string(), 4).unwrap();
    let tun = provider.create_tun(TunConfig::new(sample_addresses())).unwrap();
    tun.release();
}

#[test]
fn mock_provider_rejects_empty_config() {
    let provider = MockTunProvider::new("tun0".to_string(), 3).unwrap();
    let r = provider.create_tun(TunConfig::new(Vec::new()));
    assert!(matches!(r, Err(TunError::InvalidConfiguration)));
}

#[test]
fn mock_provider_rejects_bad_parts() {
    assert!(matches!(
        MockTunProvider::new(String::new(), 3),
        Err(TunError::InvalidConfiguration)
    ));
    assert!(matches!(
        MockTunProvider::new("tun0".to_string(), -1),
        Err(TunError::InvalidConfiguration)
    ));
}
