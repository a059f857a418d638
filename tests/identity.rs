use aziot_keys::identity::{InitializeErrorReason, Protocol, Provisioner, Server};

#[test]
fn it_parses_protocol() {
    let cases = [
        ("tls", Protocol::Tls10),
        ("tls1", Protocol::Tls10),
        ("tls10", Protocol::Tls10),
        ("tls1.0", Protocol::Tls10),
        ("tls1_0", Protocol::Tls10),
        ("Tlsv10", Protocol::Tls10),
        ("TLS10", Protocol::Tls10),
        ("tls11", Protocol::Tls11),
        ("tls1.1", Protocol::Tls11),
        ("tls1_1", Protocol::Tls11),
        ("Tlsv11", Protocol::Tls11),
        ("TLS11", Protocol::Tls11),
        ("tls12", Protocol::Tls12),
        ("tls1.2", Protocol::Tls12),
        ("tls1_2", Protocol::Tls12),
        ("Tlsv12", Protocol::Tls12),
        ("TLS12", Protocol::Tls12),
    ];
    for (value, expected) in cases {
        assert_eq!(Protocol::from_str(value), Ok(expected));
    }
}

#[test]
fn it_fails_to_parse_protocol() {
    for value in ["", "Sslv3", "TLS2"] {
        assert_eq!(Protocol::from_str(value), Err(format!("Unsupported TLS protocol version: {}", value)));
    }
}

#[test]
fn protocol_names_and_default() {
    assert_eq!(Protocol::default(), Protocol::Tls10);
    assert_eq!(Protocol::Tls12.name(), "TLS 1.2");
    assert_eq!(Protocol::from_lowercase("tlsv11"), Some(Protocol::Tls11));
    assert_eq!(Protocol::from_lowercase("TLS11"), None);
}

#[test]
fn stubs_succeed() {
    assert!(Provisioner::new().is_ok());
    assert_eq!(Provisioner::provision(), Ok(true));
    assert!(Server::new().is_ok());
    assert_eq!(InitializeErrorReason::LoadSettings.message(), "Could not load settings");
}
