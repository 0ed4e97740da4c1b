//! The native store as the broker expects it to behave, and the five
//! operations carried out against it.
//!
//! Nothing here is executable. `Store` says what a store holds, `respond`
//! what it answers to one request, and the functions named after the five
//! operations follow plan, exchange and conclusion of the broker to the
//! result. The laws of the library are stated over them.
use vstd::prelude::*;
use crate::broker::{
    address, delete_plan, delete_result, find_credentials_result, find_password_result, find_plan,
    get_plan, get_result, remaining, set_plan, set_result, step, Broker, Platform,
};
use crate::error::ErrorView;
use crate::macos;
use crate::native::{
    AddressOf, AddressView, ExchangeView, FaultOf, FaultView, ProgressOf, RecordOf, RecordView,
    ReplyOf, ReplyView, RequestOf, RequestView, ScopeOf, ScopeView,
};
use crate::windows;

verus! {

/// What a native store holds: a secret for each address in use, and whether
/// the collection is locked.
pub struct Store {
    pub entries: Map<AddressView, Seq<u8>>,
    pub locked: bool,
}

/// The store with `entries` in place of its own.
pub open spec fn holding(store: Store, entries: Map<AddressView, Seq<u8>>) -> Store {
    Store { entries, ..store }
}

/// The fault by which the store of a platform says that it has no entry
/// where one was asked for.
pub open spec fn absent(platform: Platform) -> FaultView {
    match platform {
        Platform::Windows => FaultOf::Status { code: windows::NOT_FOUND, message: Seq::empty() },
        Platform::MacOs => FaultOf::Status { code: macos::ITEM_NOT_FOUND, message: Seq::empty() },
        Platform::Linux => FaultOf::Missing,
    }
}

/// The reply of the store to one request, and the store after it. Only the
/// Secret Service locks its collection; while it is locked it answers every
/// request but an unlock with `Locked`. An enumeration is answered with
/// `listing`.
pub open spec fn respond(
    platform: Platform,
    store: Store,
    request: RequestView,
    listing: Seq<RecordView>,
) -> (ReplyView, Store) {
    if platform is Linux && store.locked && !(request is Unlock) {
        (ReplyOf::Failed(FaultOf::Locked), store)
    } else {
        match request {
            RequestOf::Write { entry, secret } => (
                ReplyOf::Done,
                Store { entries: store.entries.insert(entry, secret), ..store },
            ),
            RequestOf::Add { entry, secret } => if store.entries.contains_key(entry) {
                (
                    ReplyOf::Failed(
                        FaultOf::Status { code: macos::DUPLICATE_ITEM, message: Seq::empty() },
                    ),
                    store,
                )
            } else {
                (ReplyOf::Done, Store { entries: store.entries.insert(entry, secret), ..store })
            },
            RequestOf::Update { entry, secret } => if store.entries.contains_key(entry) {
                (ReplyOf::Done, Store { entries: store.entries.insert(entry, secret), ..store })
            } else {
                (ReplyOf::Failed(absent(platform)), store)
            },
            RequestOf::Read { entry } => if store.entries.contains_key(entry) {
                (ReplyOf::Secret(store.entries[entry]), store)
            } else {
                (ReplyOf::Failed(absent(platform)), store)
            },
            RequestOf::Delete { entry } => if store.entries.contains_key(entry) {
                (ReplyOf::Done, Store { entries: store.entries.remove(entry), ..store })
            } else {
                (ReplyOf::Failed(absent(platform)), store)
            },
            RequestOf::Search { scope } => (ReplyOf::Listing(listing), store),
            RequestOf::Unlock => (ReplyOf::Done, Store { locked: false, ..store }),
        }
    }
}

/// Whether an enumeration of `scope` lists an entry of this name.
pub open spec fn in_scope(scope: ScopeView, name: Seq<char>) -> bool {
    match scope {
        ScopeOf::Filter(filter) => {
            &&& filter.len() > 0
            &&& filter.last() == windows::WILDCARD
            &&& filter.drop_last().is_prefix_of(name)
        },
        ScopeOf::Service(_) => true,
    }
}

/// The address of the entry that an enumeration of `scope` lists under
/// `name`.
pub open spec fn entry_named(scope: ScopeView, name: Seq<char>) -> AddressView {
    match scope {
        ScopeOf::Filter(_) => AddressOf::Target(name),
        ScopeOf::Service(service) => AddressOf::Attributes { service, account: name },
    }
}

/// The listing has a record of this name and secret.
pub open spec fn shows(listing: Seq<RecordView>, name: Seq<char>, secret: Seq<u8>) -> bool {
    exists|i: int|
        0 <= i < listing.len() && #[trigger] listing[i] == (RecordOf { name: Some(name), secret })
}

/// `listing` is an enumeration of `scope` in this store: it names no entry
/// twice, each name in it is that of an entry in scope, with the entry's
/// secret, and every entry in scope is in it. Its order is the store's own.
/// Records without a name may stand anywhere in it.
pub open spec fn lists(store: Store, scope: ScopeView, listing: Seq<RecordView>) -> bool {
    &&& forall|i: int, j: int|
        0 <= i < j < listing.len() && (#[trigger] listing[i]).name is Some ==> listing[i].name != (
        #[trigger] listing[j]).name
    &&& forall|i: int|
        0 <= i < listing.len() ==> match (#[trigger] listing[i]).name {
            Some(name) => {
                &&& in_scope(scope, name)
                &&& store.entries.contains_key(entry_named(scope, name))
                &&& store.entries[entry_named(scope, name)] == listing[i].secret
            },
            None => true,
        }
    &&& forall|name: Seq<char>|
        in_scope(scope, name) && #[trigger] store.entries.contains_key(entry_named(scope, name))
            ==> shows(listing, name, store.entries[entry_named(scope, name)])
}

/// The secret that the store holds under a key, as the broker of `b`'s
/// platform addresses it.
pub open spec fn stored(b: Broker, store: Store, service: Seq<char>, account: Seq<char>) -> Option<
    Seq<u8>,
> {
    let entry = address(b.platform(), service, account);
    if store.entries.contains_key(entry) {
        Some(store.entries[entry])
    } else {
        None
    }
}

/// The reply that settles an exchange with the store, and the store after
/// the exchange.
pub open spec fn settle(
    b: Broker,
    store: Store,
    exchange: ExchangeView,
    listing: Seq<RecordView>,
) -> (ReplyView, Store)
    decreases remaining(exchange.stage),
{
    let (reply, after) = respond(b.platform(), store, exchange.request, listing);
    match step(b, exchange, reply) {
        ProgressOf::Continue(next) => if remaining(next.stage) < remaining(exchange.stage) {
            settle(b, after, next, listing)
        } else {
            (reply, after)
        },
        ProgressOf::Settled(last) => (last, after),
    }
}

/// `set_password` against the store: its result, and the store after it.
pub open spec fn set_password(
    b: Broker,
    store: Store,
    service: Seq<char>,
    account: Seq<char>,
    secret: Seq<u8>,
) -> (Result<(), ErrorView>, Store) {
    match set_plan(b, service, account, secret) {
        Err(e) => (Err(e), store),
        Ok(exchange) => {
            let (reply, after) = settle(b, store, exchange, Seq::empty());
            (set_result(b, secret, reply), after)
        },
    }
}

/// `get_password` against the store.
pub open spec fn get_password(b: Broker, store: Store, service: Seq<char>, account: Seq<char>) -> (
    Result<Option<Seq<u8>>, ErrorView>,
    Store,
) {
    match get_plan(b, service, account) {
        Err(e) => (Err(e), store),
        Ok(exchange) => {
            let (reply, after) = settle(b, store, exchange, Seq::empty());
            (get_result(b, reply), after)
        },
    }
}

/// `delete_password` against the store.
pub open spec fn delete_password(
    b: Broker,
    store: Store,
    service: Seq<char>,
    account: Seq<char>,
) -> (Result<bool, ErrorView>, Store) {
    match delete_plan(b, service, account) {
        Err(e) => (Err(e), store),
        Ok(exchange) => {
            let (reply, after) = settle(b, store, exchange, Seq::empty());
            (delete_result(b, reply), after)
        },
    }
}

/// `find_password` against the store, which answers the enumeration with
/// `listing`.
pub open spec fn find_password(
    b: Broker,
    store: Store,
    service: Seq<char>,
    listing: Seq<RecordView>,
) -> (Result<Option<Seq<u8>>, ErrorView>, Store) {
    match find_plan(b, service) {
        Err(e) => (Err(e), store),
        Ok(exchange) => {
            let (reply, after) = settle(b, store, exchange, listing);
            (find_password_result(b, service, reply), after)
        },
    }
}

/// `find_credentials` against the store, which answers the enumeration with
/// `listing`: the result, the output sequence after the call, and the store.
pub open spec fn find_credentials(
    b: Broker,
    store: Store,
    service: Seq<char>,
    listing: Seq<RecordView>,
    out: Seq<(Seq<char>, Seq<u8>)>,
) -> (Result<(), ErrorView>, Seq<(Seq<char>, Seq<u8>)>, Store) {
    match find_plan(b, service) {
        Err(e) => (Err(e), out, store),
        Ok(exchange) => {
            let (reply, after) = settle(b, store, exchange, listing);
            let (result, filled) = find_credentials_result(b, service, reply, out);
            (result, filled, after)
        },
    }
}

} // verus!
