use vstd::prelude::*;
use vstd::slice::slice_to_vec;
use vstd::string::*;

use crate::range::{bytes_less, bytes_lt, make_exclusive_end_from_inclusive};

verus! {

/// Which keys a read covers, starting at the request's key.
#[derive(Clone, Debug)]
pub enum Scope {
    /// The key alone.
    Single,
    /// Every key that has the request's key as a byte prefix.
    Prefix,
    /// Keys from the request's key up to, and excluding, the given bound.
    Until(Vec<u8>),
}

/// A read request, in the terms of the store's range call.
#[derive(Clone, Debug)]
pub struct GetRequest {
    pub key: Vec<u8>,
    pub scope: Scope,
    /// Served by any member without a consensus round (lower latency).
    pub serializable: bool,
    /// Leave the values out of the reply.
    pub keys_only: bool,
    /// Reply sorted by key, ascending.
    pub sort_by_key: bool,
    /// Read the store as it was at this revision; none for the latest.
    pub revision: Option<i64>,
}

/// One request to the store.
#[derive(Clone, Debug)]
pub enum Operation {
    Get(GetRequest),
    Put { key: String, value: String },
    Delete { key: String },
    MemberList,
    Status,
}

impl Operation {
    /// The request changes data on the server.
    pub open spec fn mutates(&self) -> bool {
        self is Put || self is Delete
    }

    pub fn is_mutating(&self) -> (r: bool)
        ensures
            r == self.mutates(),
    {
        match self {
            Operation::Put { .. } | Operation::Delete { .. } => true,
            _ => false,
        }
    }

    /// The request is a read with exactly these options.
    pub open spec fn is_get(
        &self,
        key: Seq<u8>,
        serializable: bool,
        keys_only: bool,
        sort_by_key: bool,
        revision: Option<i64>,
    ) -> bool {
        &&& self is Get
        &&& self->Get_0.key@ == key
        &&& self->Get_0.serializable == serializable
        &&& self->Get_0.keys_only == keys_only
        &&& self->Get_0.sort_by_key == sort_by_key
        &&& self->Get_0.revision == revision
    }
}

fn str_to_bytes(s: &str) -> (r: Vec<u8>)
    ensures
        r@ == s.spec_bytes(),
{
    slice_to_vec(s.as_bytes())
}

/// All records whose key starts with `prefix`, keys and values.
pub fn list_keys(prefix: &str) -> (op: Operation)
    ensures
        op.is_get(prefix.spec_bytes(), false, false, false, None),
        op->Get_0.scope is Prefix,
{
    Operation::Get(
        GetRequest {
            key: str_to_bytes(prefix),
            scope: Scope::Prefix,
            serializable: false,
            keys_only: false,
            sort_by_key: false,
            revision: None,
        },
    )
}

/// The keys that start with `prefix`, sorted, read without a consensus round.
pub fn list_keys_only(prefix: &str) -> (op: Operation)
    ensures
        op.is_get(prefix.spec_bytes(), true, true, true, None),
        op->Get_0.scope is Prefix,
{
    Operation::Get(
        GetRequest {
            key: str_to_bytes(prefix),
            scope: Scope::Prefix,
            serializable: true,
            keys_only: true,
            sort_by_key: true,
            revision: None,
        },
    )
}

/// The records with keys in `[start_key, end_inclusive]`, sorted by key. The
/// store's range is half-open, so its end is `end_inclusive` followed by a
/// zero byte. No request is needed when the closed range can hold no key: an
/// empty end, or an end that sorts before the start.
pub fn get_values_in_range(start_key: &str, end_inclusive: &str) -> (r: Option<Operation>)
    ensures
        r is None <==> (end_inclusive.spec_bytes().len() == 0 || bytes_lt(
            end_inclusive.spec_bytes(),
            start_key.spec_bytes(),
        )),
        r is Some ==> r->0.is_get(start_key.spec_bytes(), true, false, true, None),
        r is Some ==> r->0->Get_0.scope is Until,
        r is Some ==> r->0->Get_0.scope->Until_0@ == end_inclusive.spec_bytes().push(0u8),
{
    let start = str_to_bytes(start_key);
    let end = str_to_bytes(end_inclusive);
    if end.len() == 0 || bytes_less(end.as_slice(), start.as_slice()) {
        return None;
    }
    Some(
        Operation::Get(
            GetRequest {
                key: start,
                scope: Scope::Until(make_exclusive_end_from_inclusive(end_inclusive)),
                serializable: true,
                keys_only: false,
                sort_by_key: true,
                revision: None,
            },
        ),
    )
}

/// Writes `value` under `key`, replacing what was there.
pub fn put_key(key: &str, value: &str) -> (op: Operation)
    ensures
        op is Put,
        op->Put_key@ == key@,
        op->Put_value@ == value@,
{
    Operation::Put { key: key.to_owned(), value: value.to_owned() }
}

/// Removes `key`; no error when it is absent.
pub fn delete_key(key: &str) -> (op: Operation)
    ensures
        op is Delete,
        op->Delete_key@ == key@,
{
    Operation::Delete { key: key.to_owned() }
}

/// The cluster's members.
pub fn get_cluster_members() -> (op: Operation)
    ensures
        op is MemberList,
{
    Operation::MemberList
}

/// The status of the member the connection talks to.
pub fn get_cluster_status() -> (op: Operation)
    ensures
        op is Status,
{
    Operation::Status
}

/// `key` as it was at `revision`.
pub fn get_key_at_revision(key: &str, revision: i64) -> (op: Operation)
    ensures
        op.is_get(key.spec_bytes(), false, false, false, Some(revision)),
        op->Get_0.scope is Single,
{
    Operation::Get(
        GetRequest {
            key: str_to_bytes(key),
            scope: Scope::Single,
            serializable: false,
            keys_only: false,
            sort_by_key: false,
            revision: Some(revision),
        },
    )
}

} // verus!
