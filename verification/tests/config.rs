use holomess::config::KeystoreMode;
use holomess::config::NetworkConfig;
use holomess::config::NodeConfig;
use holomess::config::load_or_init;
use holomess::config::parse_config;
use holomess::config::render_config;
use holomess::errors::ErrorKind;
use holomess::ports::PortRange;

fn sample_config() -> NodeConfig {
    NodeConfig {
        storage_root: b"/tmp/holomess-node".to_vec(),
        keystore_mode: KeystoreMode::InProcess,
        admin_port: 64001,
        network: NetworkConfig {
            bootstrap_url: b"https://bootstrap.holo.host".to_vec(),
            relay_url: b"wss://signal.holo.host".to_vec(),
        },
    }
}

#[test]
fn document_is_human_readable() {
    let doc = render_config(&sample_config());
    let text = String::from_utf8(doc).unwrap();
    assert_eq!(
        text,
        "storage_root: /tmp/holomess-node\n\
         keystore: in_process\n\
         admin_port: 64001\n\
         bootstrap_url: https://bootstrap.holo.host\n\
         relay_url: wss://signal.holo.host\n"
    );
}

#[test]
fn render_parse_round_trip() {
    let c = sample_config();
    let doc = render_config(&c);
    assert_eq!(parse_config(&doc), Some(c));
}

#[test]
fn external_keystore_round_trip() {
    let mut c = sample_config();
    c.keystore_mode = KeystoreMode::External;
    let doc = render_config(&c);
    let text = String::from_utf8(doc.clone()).unwrap();
    assert!(text.contains("keystore: external\n"));
    assert_eq!(parse_config(&doc), Some(c));
}

#[test]
fn corrupt_documents_are_refused() {
    assert_eq!(parse_config(&b"".to_vec()), None);
    assert_eq!(parse_config(&b"storage_root: /a\n".to_vec()), None);
    // wrong key order
    let swapped = b"keystore: in_process\nstorage_root: /a\nadmin_port: 1\nbootstrap_url: b\nrelay_url: r\n".to_vec();
    assert_eq!(parse_config(&swapped), None);
    // unknown keystore token
    let bad_mode = b"storage_root: /a\nkeystore: cloud\nadmin_port: 1\nbootstrap_url: b\nrelay_url: r\n".to_vec();
    assert_eq!(parse_config(&bad_mode), None);
    // port with a leading zero is not canonical
    let bad_port = b"storage_root: /a\nkeystore: in_process\nadmin_port: 01\nbootstrap_url: b\nrelay_url: r\n".to_vec();
    assert_eq!(parse_config(&bad_port), None);
    // port beyond u16
    let big_port = b"storage_root: /a\nkeystore: in_process\nadmin_port: 65536\nbootstrap_url: b\nrelay_url: r\n".to_vec();
    assert_eq!(parse_config(&big_port), None);
    // trailing garbage after the last line
    let mut doc = render_config(&sample_config());
    doc.push(b'x');
    assert_eq!(parse_config(&doc), None);
}

#[test]
fn load_or_init_is_idempotent() {
    let root = b"/tmp/holomess-node".to_vec();
    let range = PortRange { min: 39000, max: 64000 };
    let (config, doc) = load_or_init(None, root.clone(), range).expect("some port must be free");
    assert_eq!(config.storage_root, root);
    assert_eq!(config.keystore_mode, KeystoreMode::InProcess);
    assert!(range.min <= config.admin_port && config.admin_port <= range.max);

    // a second call against the persisted document returns byte-identical
    // configuration
    let (config2, doc2) = load_or_init(Some(doc.clone()), root.clone(), range).unwrap();
    assert_eq!(config2, config);
    assert_eq!(doc2, doc);

    // and so does a third
    let (config3, doc3) = load_or_init(Some(doc2.clone()), root, range).unwrap();
    assert_eq!(config3, config);
    assert_eq!(doc3, doc);
}

#[test]
fn load_of_corrupt_document_fails() {
    let err = load_or_init(
        Some(b"not a config".to_vec()),
        b"/tmp/x".to_vec(),
        PortRange { min: 1024, max: 65535 },
    )
    .unwrap_err();
    assert_eq!(err.kind, ErrorKind::ConfigCorrupt);
}

#[test]
fn init_with_exhausted_range_fails() {
    let err = load_or_init(None, b"/tmp/x".to_vec(), PortRange { min: 2, max: 1 }).unwrap_err();
    assert_eq!(err.kind, ErrorKind::ResourceExhausted);
}
