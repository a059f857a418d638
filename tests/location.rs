use aziot_keys::location::key_file_for_digest;
use aziot_keys::error::{KeygenError, PolicyError};
use aziot_keys::location::{KeyStoreConfig, Location, PreloadedKeyLocation};
use aziot_keys::pkcs11_uri::Pkcs11Uri;

fn fully_configured() -> KeyStoreConfig {
    let mut c = KeyStoreConfig::new();
    c.set_parameter("HOMEDIR_PATH", Some("/var/lib/keys")).unwrap();
    c.set_parameter("PKCS11_LIB_PATH", Some("/usr/lib/libsofthsm2.so")).unwrap();
    c.set_parameter("PKCS11_BASE_SLOT", Some("pkcs11:token=Key pairs;slot-id=0")).unwrap();
    c
}

#[test]
fn preloaded_file_wins_over_pkcs11() {
    let mut c = fully_configured();
    c.set_parameter("PRELOADED_KEY:device-id", Some("file:///etc/keys/device-id.key")).unwrap();
    match Location::of(&c, "device-id").unwrap() {
        Location::Filesystem(p) => assert_eq!(p, "/etc/keys/device-id.key"),
        other => panic!("unexpected location {:?}", other),
    }
}

#[test]
fn pkcs11_base_slot_serves_unlisted_key() {
    let mut c = KeyStoreConfig::new();
    c.set_parameter("PKCS11_LIB_PATH", Some("/usr/lib/libsofthsm2.so")).unwrap();
    c.set_parameter("PKCS11_BASE_SLOT", Some("pkcs11:token=Key pairs;slot-id=0")).unwrap();
    match Location::of(&c, "k1").unwrap() {
        Location::Pkcs11 { lib_path, uri } => {
            assert_eq!(lib_path, "/usr/lib/libsofthsm2.so");
            assert_eq!(uri.object_label.as_deref(), Some("k1"));
            assert_eq!(uri.slot_attributes.len(), 2);
            assert_eq!(uri.slot_attributes[0].name, "token");
            assert_eq!(uri.slot_attributes[0].value, "Key pairs");
            assert_eq!(uri.slot_attributes[1].name, "slot-id");
            assert_eq!(uri.slot_attributes[1].value, "0");
        },
        other => panic!("unexpected location {:?}", other),
    }
}

#[test]
fn pkcs11_preferred_over_home_directory() {
    let c = fully_configured();
    assert!(matches!(Location::of(&c, "k1").unwrap(), Location::Pkcs11 { .. }));
}

#[test]
fn home_directory_uses_hashed_file_name() {
    let mut c = KeyStoreConfig::new();
    c.set_parameter("HOMEDIR_PATH", Some("/var/lib/keys")).unwrap();
    match Location::of(&c, "k1").unwrap() {
        Location::Filesystem(p) => assert_eq!(
            p,
            "/var/lib/keys/6ab9f1eb8f7d3388f4f9d586f66e99fd54080df2c446f0e58668b09c08a16dd0.key"
        ),
        other => panic!("unexpected location {:?}", other),
    }
}

#[test]
fn home_directory_with_trailing_slash() {
    let mut c = KeyStoreConfig::new();
    c.set_parameter("HOMEDIR_PATH", Some("/keys/")).unwrap();
    match Location::of(&c, "k1").unwrap() {
        Location::Filesystem(p) => assert_eq!(
            p,
            "/keys/6ab9f1eb8f7d3388f4f9d586f66e99fd54080df2c446f0e58668b09c08a16dd0.key"
        ),
        other => panic!("unexpected location {:?}", other),
    }
}

#[test]
fn nothing_configured_has_no_way_to_create_keys() {
    let c = KeyStoreConfig::new();
    assert_eq!(
        Location::of(&c, "k1").unwrap_err(),
        KeygenError::Policy(PolicyError::NoWayToCreateKeys)
    );
}

#[test]
fn preloaded_pkcs11_key_requires_library() {
    let mut c = KeyStoreConfig::new();
    c.set_parameter("HOMEDIR_PATH", Some("/var/lib/keys")).unwrap();
    c.set_parameter("PRELOADED_KEY:hsm-key", Some("pkcs11:token=t;object=hsm")).unwrap();
    assert_eq!(
        Location::of(&c, "hsm-key").unwrap_err(),
        KeygenError::Policy(PolicyError::Pkcs11ParametersRequired)
    );
    c.set_parameter("PKCS11_LIB_PATH", Some("/lib/p11.so")).unwrap();
    match Location::of(&c, "hsm-key").unwrap() {
        Location::Pkcs11 { lib_path, uri } => {
            assert_eq!(lib_path, "/lib/p11.so");
            assert_eq!(uri.object_label.as_deref(), Some("hsm"));
        },
        other => panic!("unexpected location {:?}", other),
    }
}

#[test]
fn later_preloaded_entry_overrides() {
    let mut c = KeyStoreConfig::new();
    c.set_parameter("PRELOADED_KEY:a", Some("file:///one")).unwrap();
    c.set_parameter("PRELOADED_KEY:a", Some("file:///two")).unwrap();
    match Location::of(&c, "a").unwrap() {
        Location::Filesystem(p) => assert_eq!(p, "/two"),
        other => panic!("unexpected location {:?}", other),
    }
}

#[test]
fn setter_rejects_bad_input_and_keeps_config() {
    let mut c = KeyStoreConfig::new();
    assert_eq!(c.set_parameter("SOMETHING_ELSE", Some("x")), Err(KeygenError::InvalidParameter));
    assert_eq!(c.set_parameter("HOMEDIR_PATH", None), Err(KeygenError::InvalidParameter));
    assert_eq!(c.set_parameter("PRELOADED_KEY:", Some("file:///x")), Err(KeygenError::InvalidParameter));
    assert_eq!(c.set_parameter("PRELOADED_KEY:k", Some("http://x")), Err(KeygenError::InvalidParameter));
    assert_eq!(c.set_parameter("PRELOADED_KEY:k", Some("no scheme")), Err(KeygenError::InvalidParameter));
    assert_eq!(c.set_parameter("PKCS11_BASE_SLOT", Some("pkcs11:token")), Err(KeygenError::InvalidParameter));
    assert!(c.homedir_path.is_none());
    assert!(c.pkcs11_base_slot.is_none());
    assert!(c.preloaded_keys.is_empty());
}

#[test]
fn preloaded_location_parsing() {
    assert!(matches!(
        PreloadedKeyLocation::parse("file:///a/b.key"),
        Ok(PreloadedKeyLocation::Filesystem { ref path }) if path == "/a/b.key"
    ));
    assert!(matches!(PreloadedKeyLocation::parse("pkcs11:object=x"), Ok(PreloadedKeyLocation::Pkcs11 { .. })));
    assert_eq!(PreloadedKeyLocation::parse("ftp://a").unwrap_err(), KeygenError::InvalidParameter);
}

#[test]
fn pkcs11_uri_parsing() {
    let u = Pkcs11Uri::parse("pkcs11:").unwrap();
    assert!(u.slot_attributes.is_empty());
    assert!(u.object_label.is_none());
    let u = Pkcs11Uri::parse("pkcs11:slot-id=1;object=a=b").unwrap();
    assert_eq!(u.slot_attributes.len(), 1);
    assert_eq!(u.object_label.as_deref(), Some("a=b"));
    assert!(Pkcs11Uri::parse("pkcs11:=x").is_err());
    assert!(Pkcs11Uri::parse("pkcs11:a=1;;b=2").is_err());
    assert!(Pkcs11Uri::parse("PKCS11:a=1").is_err());
}

#[test]
fn pkcs11_uri_values_are_decoded_and_query_read() {
    let u = Pkcs11Uri::parse("pkcs11:token=Key%20pairs;object=a%3Bb?pin-value=1234&module-name=softhsm").unwrap();
    assert_eq!(u.slot_attributes.len(), 1);
    assert_eq!(u.slot_attributes[0].name, "token");
    assert_eq!(u.slot_attributes[0].value, "Key pairs");
    assert_eq!(u.object_label.as_deref(), Some("a;b"));
    assert_eq!(u.query_attributes.len(), 2);
    assert_eq!(u.query_attributes[0].name, "pin-value");
    assert_eq!(u.query_attributes[0].value, "1234");
    assert_eq!(u.query_attributes[1].value, "softhsm");
    let labelled = u.with_object_label("k1".to_owned());
    assert_eq!(labelled.object_label.as_deref(), Some("k1"));
    assert_eq!(labelled.query_attributes.len(), 2);
    assert!(Pkcs11Uri::parse("pkcs11:token=%ff").is_err());
    assert!(Pkcs11Uri::parse("pkcs11:token=t?pin").is_err());
    let empty_query = Pkcs11Uri::parse("pkcs11:token=t?").unwrap();
    assert!(empty_query.query_attributes.is_empty());
}


#[test]
fn key_file_name_from_digest() {
    assert_eq!(key_file_for_digest("/home", &[0xab, 0x01, 0x7f]), "/home/ab017f.key");
    assert_eq!(key_file_for_digest("", &[0x00]), "00.key");
    assert_eq!(key_file_for_digest("/", &[0xff]), "/ff.key");
}
