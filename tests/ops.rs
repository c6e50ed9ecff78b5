use etcd_session::ops::{
    delete_key, get_cluster_members, get_cluster_status, get_key_at_revision, get_values_in_range,
    list_keys, list_keys_only, put_key, Operation, Scope,
};
use etcd_session::range::{bytes_less, make_exclusive_end_from_inclusive};

#[test]
fn exclusive_end_appends_zero() {
    assert_eq!(make_exclusive_end_from_inclusive("b"), vec![b'b', 0]);
    assert_eq!(make_exclusive_end_from_inclusive(""), vec![0]);
    assert_eq!(make_exclusive_end_from_inclusive("é"), vec![0xc3, 0xa9, 0]);
}

#[test]
fn range_a_to_b_is_closed() {
    let op = get_values_in_range("a", "b").unwrap();
    let Operation::Get(req) = op else { panic!("not a read") };
    let Scope::Until(end) = req.scope else { panic!("not a range") };
    let inside = |k: &[u8]| req.key.as_slice() <= k && k < end.as_slice();
    assert!(inside(b"a"));
    assert!(inside(b"am"));
    assert!(inside(b"b"));
    assert!(!inside(b"ba"));
    assert!(!inside(b"b\x01"));
    assert!(!inside(b"0"));
    assert!(req.serializable && req.sort_by_key && !req.keys_only);
    assert_eq!(req.revision, None);
}

#[test]
fn prefix_reads() {
    let Operation::Get(r) = list_keys("/app/") else { panic!("not a read") };
    assert_eq!(r.key, b"/app/".to_vec());
    assert!(matches!(r.scope, Scope::Prefix));
    assert!(!r.serializable && !r.keys_only && !r.sort_by_key);
    let Operation::Get(r) = list_keys_only("/app/") else { panic!("not a read") };
    assert!(matches!(r.scope, Scope::Prefix));
    assert!(r.serializable && r.keys_only && r.sort_by_key);
}

#[test]
fn point_read_at_revision() {
    let Operation::Get(r) = get_key_at_revision("k", 42) else { panic!("not a read") };
    assert_eq!(r.key, b"k".to_vec());
    assert!(matches!(r.scope, Scope::Single));
    assert_eq!(r.revision, Some(42));
}

#[test]
fn writes_are_mutating() {
    let put = put_key("k", "v");
    assert!(matches!(&put, Operation::Put { key, value } if key == "k" && value == "v"));
    assert!(put.is_mutating());
    let del = delete_key("k");
    assert!(matches!(&del, Operation::Delete { key } if key == "k"));
    assert!(del.is_mutating());
    assert!(!list_keys("").is_mutating());
    assert!(!get_cluster_members().is_mutating());
    assert!(matches!(get_cluster_status(), Operation::Status));
    assert!(matches!(get_cluster_members(), Operation::MemberList));
}

#[test]
fn range_with_empty_end_sends_nothing() {
    assert!(get_values_in_range("a", "").is_none());
    assert!(get_values_in_range("", "").is_none());
}

#[test]
fn range_with_end_before_start_sends_nothing() {
    assert!(get_values_in_range("b", "a").is_none());
    assert!(get_values_in_range("ab", "a").is_none());
}

#[test]
fn range_of_one_key_is_sent() {
    let Some(Operation::Get(req)) = get_values_in_range("k", "k") else { panic!("no read") };
    assert_eq!(req.key, b"k".to_vec());
    assert!(matches!(req.scope, Scope::Until(end) if end == vec![b'k', 0]));
    assert!(get_values_in_range("", "a").is_some());
}

#[test]
fn byte_order_comparison() {
    assert!(bytes_less(b"a", b"b"));
    assert!(bytes_less(b"a", b"ab"));
    assert!(bytes_less(b"", b"a"));
    assert!(!bytes_less(b"b", b"ab"));
    assert!(!bytes_less(b"ab", b"ab"));
    assert!(!bytes_less(b"a", b""));
    assert!(bytes_less(&[0x7f], &[0x80]));
}
