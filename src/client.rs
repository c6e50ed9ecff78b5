use vstd::prelude::*;
use vstd::string::*;
use vstd::utf8::{decode_utf8, valid_utf8};

use crate::config::{Endpoint, Profile};

verus! {

/// A key-value record as the store returns it: raw bytes and metadata.
#[derive(Clone, Debug)]
pub struct KeyValue {
    pub key: Vec<u8>,
    pub value: Vec<u8>,
    pub version: i64,
    pub create_revision: i64,
    pub mod_revision: i64,
    pub lease: i64,
}

/// A decoded key-value pair with the store's metadata.
#[derive(Clone, Debug)]
pub struct Item {
    pub key: String,
    pub value: String,
    pub version: i64,
    pub create_revision: i64,
    pub mod_revision: i64,
    pub lease: i64,
}

/// The mathematical content of an [`Item`].
pub struct ItemView {
    pub key: Seq<char>,
    pub value: Seq<char>,
    pub version: i64,
    pub create_revision: i64,
    pub mod_revision: i64,
    pub lease: i64,
}

impl View for Item {
    type V = ItemView;

    open spec fn view(&self) -> ItemView {
        ItemView {
            key: self.key@,
            value: self.value@,
            version: self.version,
            create_revision: self.create_revision,
            mod_revision: self.mod_revision,
            lease: self.lease,
        }
    }
}

/// The item a record decodes to: none unless both key and value are UTF-8.
pub open spec fn decode_kv(kv: KeyValue) -> Option<ItemView> {
    if valid_utf8(kv.key@) && valid_utf8(kv.value@) {
        Some(
            ItemView {
                key: decode_utf8(kv.key@),
                value: decode_utf8(kv.value@),
                version: kv.version,
                create_revision: kv.create_revision,
                mod_revision: kv.mod_revision,
                lease: kv.lease,
            },
        )
    } else {
        None
    }
}

/// The records that decode, decoded, in the order given.
pub open spec fn decode_all(kvs: Seq<KeyValue>) -> Seq<ItemView>
    decreases kvs.len(),
{
    if kvs.len() == 0 {
        Seq::empty()
    } else {
        let rest = decode_all(kvs.drop_last());
        match decode_kv(kvs.last()) {
            Some(item) => rest.push(item),
            None => rest,
        }
    }
}

/// The keys that are UTF-8, decoded, in the order given.
pub open spec fn decode_keys(kvs: Seq<KeyValue>) -> Seq<Seq<char>>
    decreases kvs.len(),
{
    if kvs.len() == 0 {
        Seq::empty()
    } else {
        let rest = decode_keys(kvs.drop_last());
        if valid_utf8(kvs.last().key@) {
            rest.push(decode_utf8(kvs.last().key@))
        } else {
            rest
        }
    }
}

/// Relies on std's `String::from_utf8`: it succeeds exactly on valid UTF-8
/// and then holds the decoded characters.
#[verifier::external_body]
fn utf8_string(bytes: &Vec<u8>) -> (r: Option<String>)
    ensures
        r is Some <==> valid_utf8(bytes@),
        r is Some ==> r->0@ == decode_utf8(bytes@),
{
    String::from_utf8(bytes.clone()).ok()
}

/// Decodes one record; records whose key or value is not UTF-8 give none.
pub fn decode_item(kv: &KeyValue) -> (r: Option<Item>)
    ensures
        r is Some <==> decode_kv(*kv) is Some,
        r is Some ==> r->0@ == decode_kv(*kv)->0,
{
    match (utf8_string(&kv.key), utf8_string(&kv.value)) {
        (Some(key), Some(value)) => Some(
            Item {
                key,
                value,
                version: kv.version,
                create_revision: kv.create_revision,
                mod_revision: kv.mod_revision,
                lease: kv.lease,
            },
        ),
        _ => None,
    }
}

/// Decodes a listing, dropping the records that are not UTF-8.
pub fn items_from_kvs(kvs: &Vec<KeyValue>) -> (r: Vec<Item>)
    ensures
        r@.len() == decode_all(kvs@).len(),
        forall|i: int| 0 <= i < r@.len() ==> r@[i]@ == decode_all(kvs@)[i],
{
    let mut out: Vec<Item> = Vec::new();
    let mut i: usize = 0;
    while i < kvs.len()
        invariant
            0 <= i <= kvs@.len(),
            out@.len() == decode_all(kvs@.subrange(0, i as int)).len(),
            forall|j: int|
                0 <= j < out@.len() ==> out@[j]@ == decode_all(kvs@.subrange(0, i as int))[j],
        decreases kvs@.len() - i,
    {
        proof {
            assert(kvs@.subrange(0, i + 1).drop_last() =~= kvs@.subrange(0, i as int));
        }
        match decode_item(&kvs[i]) {
            Some(item) => out.push(item),
            None => {},
        }
        i += 1;
    }
    proof {
        assert(kvs@.subrange(0, i as int) =~= kvs@);
    }
    out
}

/// Keys of a listing, dropping the ones that are not UTF-8.
pub fn keys_from_kvs(kvs: &Vec<KeyValue>) -> (r: Vec<String>)
    ensures
        r@.len() == decode_keys(kvs@).len(),
        forall|i: int| 0 <= i < r@.len() ==> r@[i]@ == decode_keys(kvs@)[i],
{
    let mut out: Vec<String> = Vec::new();
    let mut i: usize = 0;
    while i < kvs.len()
        invariant
            0 <= i <= kvs@.len(),
            out@.len() == decode_keys(kvs@.subrange(0, i as int)).len(),
            forall|j: int|
                0 <= j < out@.len() ==> out@[j]@ == decode_keys(kvs@.subrange(0, i as int))[j],
        decreases kvs@.len() - i,
    {
        proof {
            assert(kvs@.subrange(0, i + 1).drop_last() =~= kvs@.subrange(0, i as int));
        }
        match utf8_string(&kvs[i].key) {
            Some(key) => out.push(key),
            None => {},
        }
        i += 1;
    }
    proof {
        assert(kvs@.subrange(0, i as int) =~= kvs@);
    }
    out
}

/// The first record of a point read, decoded; none when the read found
/// nothing or the record is not UTF-8.
pub fn first_item(kvs: &Vec<KeyValue>) -> (r: Option<Item>)
    ensures
        kvs@.len() == 0 ==> r is None,
        kvs@.len() > 0 ==> (r is Some <==> decode_kv(kvs@[0]) is Some),
        r is Some ==> r->0@ == decode_kv(kvs@[0])->0,
{
    if kvs.len() == 0 {
        None
    } else {
        decode_item(&kvs[0])
    }
}

/// The decimal digit character for `d`.
pub open spec fn digit_char(d: nat) -> char {
    if d == 0 { '0' } else if d == 1 { '1' } else if d == 2 { '2' } else if d == 3 { '3' }
    else if d == 4 { '4' } else if d == 5 { '5' } else if d == 6 { '6' } else if d == 7 { '7' }
    else if d == 8 { '8' } else { '9' }
}

/// Decimal notation of `n`, without leading zeros.
pub open spec fn decimal(n: nat) -> Seq<char>
    decreases n,
{
    if n < 10 {
        seq![digit_char(n)]
    } else {
        decimal(n / 10).push(digit_char(n % 10))
    }
}

/// The address the connection layer is given for an endpoint: `host:port`.
pub open spec fn address_of(e: Endpoint) -> Seq<char> {
    e.host@ + ":"@ + decimal(e.port as nat)
}

fn digit_str(d: u16) -> (r: &'static str)
    requires
        d < 10,
    ensures
        r@ == seq![digit_char(d as nat)],
{
    proof {
        reveal_strlit("0");
        reveal_strlit("1");
        reveal_strlit("2");
        reveal_strlit("3");
        reveal_strlit("4");
        reveal_strlit("5");
        reveal_strlit("6");
        reveal_strlit("7");
        reveal_strlit("8");
        reveal_strlit("9");
    }
    let r = if d == 0 { "0" } else if d == 1 { "1" } else if d == 2 { "2" } else if d == 3 { "3" }
    else if d == 4 { "4" } else if d == 5 { "5" } else if d == 6 { "6" } else if d == 7 { "7" }
    else if d == 8 { "8" } else { "9" };
    assert(r@ =~= seq![digit_char(d as nat)]);
    r
}

fn push_decimal(s: &mut String, n: u16)
    ensures
        final(s)@ == old(s)@ + decimal(n as nat),
    decreases n,
{
    if n >= 10 {
        push_decimal(s, n / 10);
    }
    s.append(digit_str(n % 10));
    assert(final(s)@ =~= old(s)@ + decimal(n as nat));
}

/// Formats an endpoint as `host:port`.
pub fn endpoint_address(e: &Endpoint) -> (r: String)
    ensures
        r@ == address_of(*e),
{
    let mut s = e.host.clone();
    proof {
        reveal_strlit(":");
    }
    s.append(":");
    push_decimal(&mut s, e.port);
    s
}

/// What the connection layer needs to open a connection for a profile.
#[derive(Clone, Debug)]
pub struct ConnectPlan {
    /// `host:port` per endpoint, in the profile's order.
    pub endpoints: Vec<String>,
    /// User name and password; none for an unauthenticated connection.
    pub user: Option<(String, String)>,
    pub timeout_ms: Option<u64>,
    pub connect_timeout_ms: Option<u64>,
}

/// `plan` is what [`connect_plan`] makes of `profile`.
pub open spec fn plans(plan: ConnectPlan, profile: Profile) -> bool {
    &&& plan.endpoints@.len() == profile.endpoints@.len()
    &&& forall|i: int|
        0 <= i < plan.endpoints@.len() ==> plan.endpoints@[i]@ == address_of(profile.endpoints@[i])
    &&& plan.user is Some <==> profile.user is Some
    &&& plan.user is Some ==> plan.user.unwrap().0@ == profile.user.unwrap().0@
        && plan.user.unwrap().1@ == profile.user.unwrap().1@
    &&& plan.timeout_ms == profile.timeout_ms
    &&& plan.connect_timeout_ms == profile.connect_timeout_ms
}

/// Turns a profile into connection options: one address per endpoint,
/// credentials only when present, timeouts only when set.
pub fn connect_plan(profile: &Profile) -> (r: ConnectPlan)
    ensures
        plans(r, *profile),
{
    let mut endpoints: Vec<String> = Vec::new();
    let mut i: usize = 0;
    while i < profile.endpoints.len()
        invariant
            0 <= i <= profile.endpoints@.len(),
            endpoints@.len() == i,
            forall|j: int| 0 <= j < i ==> endpoints@[j]@ == address_of(profile.endpoints@[j]),
        decreases profile.endpoints@.len() - i,
    {
        endpoints.push(endpoint_address(&profile.endpoints[i]));
        i += 1;
    }
    let user = match &profile.user {
        Some((name, password)) => Some((name.clone(), password.clone())),
        None => None,
    };
    ConnectPlan {
        endpoints,
        user,
        timeout_ms: profile.timeout_ms,
        connect_timeout_ms: profile.connect_timeout_ms,
    }
}

/// gRPC status codes, as tonic defines them.
#[verifier::external_type_specification]
pub struct ExCode(tonic::Code);

/// A failed request, as the connection layer reports it.
#[derive(Debug)]
pub enum OpError {
    /// The server answered with a gRPC status.
    Status { code: tonic::Code, message: String, text: String },
    /// Any other failure.
    Other { text: String },
}

impl OpError {
    /// The full human-readable description of the failure.
    pub open spec fn text_of(&self) -> Seq<char> {
        match self {
            OpError::Status { text, .. } => text@,
            OpError::Other { text } => text@,
        }
    }

    pub fn describe(&self) -> (r: String)
        ensures
            r@ == self.text_of(),
    {
        match self {
            OpError::Status { text, .. } => text.clone(),
            OpError::Other { text } => text.clone(),
        }
    }
}

/// `needle` occurs in `hay` as a contiguous run.
pub open spec fn contains_seq(hay: Seq<char>, needle: Seq<char>) -> bool {
    exists|i: int| 0 <= i <= hay.len() - needle.len() && #[trigger] hay.subrange(i, i + needle.len()) == needle
}

/// Relies on std's `str::contains`: true exactly when `needle` is a
/// substring of `hay`.
#[verifier::external_body]
fn str_contains(hay: &str, needle: &str) -> (r: bool)
    ensures
        r == contains_seq(hay@, needle@),
{
    hay.contains(needle)
}

/// The failure is the store's verdict that the presented token expired:
/// status Unauthenticated with "invalid auth token" in its message.
pub open spec fn is_stale_auth(e: OpError) -> bool {
    match e {
        OpError::Status { code, message, .. } => code is Unauthenticated && contains_seq(
            message@,
            "invalid auth token"@,
        ),
        OpError::Other { .. } => false,
    }
}

impl OpError {
    /// The failure says that the presented token expired.
    pub fn is_expired_token(&self) -> (r: bool)
        ensures
            r == is_stale_auth(*self),
    {
        match self {
            OpError::Status { code: tonic::Code::Unauthenticated, message, .. } => str_contains(
                message.as_str(),
                "invalid auth token",
            ),
            _ => false,
        }
    }
}

/// Whether a request's outcome calls for dropping the connection and
/// reissuing the request once.
pub fn should_refresh<T>(res: &Result<T, OpError>) -> (r: bool)
    ensures
        r == (res is Err && is_stale_auth(res->Err_0)),
{
    match res {
        Err(e) => e.is_expired_token(),
        Ok(_) => false,
    }
}

} // verus!
