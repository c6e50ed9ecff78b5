use etcd_session::client::{
    connect_plan, endpoint_address, first_item, items_from_kvs, keys_from_kvs, should_refresh,
    decode_item, KeyValue, OpError,
};
use tonic::Code;
use etcd_session::config::{Endpoint, Profile};

fn kv(key: &[u8], value: &[u8], rev: i64) -> KeyValue {
    KeyValue {
        key: key.to_vec(),
        value: value.to_vec(),
        version: 1,
        create_revision: rev,
        mod_revision: rev + 1,
        lease: 7,
    }
}

#[test]
fn decode_keeps_metadata() {
    let item = decode_item(&kv(b"k", b"v", 5)).unwrap();
    assert_eq!(item.key, "k");
    assert_eq!(item.value, "v");
    assert_eq!(item.version, 1);
    assert_eq!(item.create_revision, 5);
    assert_eq!(item.mod_revision, 6);
    assert_eq!(item.lease, 7);
}

#[test]
fn decode_drops_invalid_utf8() {
    assert!(decode_item(&kv(&[0xff], b"v", 1)).is_none());
    assert!(decode_item(&kv(b"k", &[0xc3], 1)).is_none());
    let item = decode_item(&kv("ключ".as_bytes(), "値".as_bytes(), 1)).unwrap();
    assert_eq!(item.key, "ключ");
    assert_eq!(item.value, "値");
}

#[test]
fn listing_filters_and_keeps_order() {
    let kvs = vec![kv(b"a", b"1", 1), kv(&[0xfe, 0xff], b"2", 2), kv(b"c", &[0x80], 3), kv(b"d", b"4", 4)];
    let items = items_from_kvs(&kvs);
    assert_eq!(items.len(), 2);
    assert_eq!(items[0].key, "a");
    assert_eq!(items[1].key, "d");
    assert_eq!(items[1].value, "4");
    assert!(items_from_kvs(&vec![]).is_empty());
}

#[test]
fn keys_only_filters_on_key() {
    let kvs = vec![kv(b"a", &[0xff], 1), kv(&[0xff], b"x", 2), kv(b"b", b"", 3)];
    assert_eq!(keys_from_kvs(&kvs), vec!["a".to_string(), "b".to_string()]);
}

#[test]
fn point_read_takes_first_record() {
    assert!(first_item(&vec![]).is_none());
    assert_eq!(first_item(&vec![kv(b"x", b"old", 3), kv(b"y", b"z", 4)]).unwrap().value, "old");
    assert!(first_item(&vec![kv(&[0xff], b"v", 3), kv(b"y", b"z", 4)]).is_none());
}

#[test]
fn endpoint_address_formats_host_and_port() {
    let e = |h: &str, p: u16| endpoint_address(&Endpoint { host: h.to_string(), port: p });
    assert_eq!(e("localhost", 2379), "localhost:2379");
    assert_eq!(e("10.0.0.1", 0), "10.0.0.1:0");
    assert_eq!(e("h", 65535), "h:65535");
    assert_eq!(e("h", 10), "h:10");
}

#[test]
fn plan_mirrors_profile() {
    let p = Profile {
        name: "dev".to_string(),
        endpoints: vec![
            Endpoint { host: "a".to_string(), port: 1 },
            Endpoint { host: "b".to_string(), port: 2380 },
        ],
        user: Some(("root".to_string(), "SECRET-REDACTED".to_string())),
        timeout_ms: Some(500),
        connect_timeout_ms: None,
        locked: None,
    };
    let plan = connect_plan(&p);
    assert_eq!(plan.endpoints, vec!["a:1".to_string(), "b:2380".to_string()]);
    assert_eq!(plan.user, Some(("root".to_string(), "SECRET-REDACTED".to_string())));
    assert_eq!(plan.timeout_ms, Some(500));
    assert_eq!(plan.connect_timeout_ms, None);
    let anon = Profile { user: None, timeout_ms: None, connect_timeout_ms: Some(9), ..p };
    let plan = connect_plan(&anon);
    assert_eq!(plan.user, None);
    assert_eq!(plan.timeout_ms, None);
    assert_eq!(plan.connect_timeout_ms, Some(9));
}

fn status(code: Code, message: &str) -> Result<(), OpError> {
    Err(OpError::Status { code, message: message.to_string(), text: format!("status: {message}") })
}

#[test]
fn stale_auth_is_recognised() {
    assert!(should_refresh(&status(Code::Unauthenticated, "etcdserver: invalid auth token")));
    assert!(should_refresh(&status(Code::Unauthenticated, "invalid auth token")));
}

#[test]
fn other_failures_are_not_stale_auth() {
    assert!(!should_refresh(&status(Code::Unauthenticated, "etcdserver: user name is empty")));
    assert!(!should_refresh(&status(Code::Unauthenticated, "invalid auth")));
    assert!(!should_refresh(&status(Code::Unavailable, "invalid auth token")));
    assert!(!should_refresh(&status(Code::PermissionDenied, "etcdserver: invalid auth token")));
    let other: Result<(), OpError> = Err(OpError::Other { text: "invalid auth token".to_string() });
    assert!(!should_refresh(&other));
    assert!(!should_refresh(&Ok::<u8, OpError>(3)));
}

#[test]
fn error_description_is_full_text() {
    let e = OpError::Status { code: Code::NotFound, message: "m".to_string(), text: "grpc: m".to_string() };
    assert_eq!(e.describe(), "grpc: m");
    assert_eq!(OpError::Other { text: "io".to_string() }.describe(), "io");
}
