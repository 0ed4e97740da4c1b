//! The words in which the library and a native store speak to each other:
//! what is asked of the store, and what the store answers.
//!
//! Each type takes the type of its text (`T`), of its bytes (`B`) and, where
//! it holds a list, of the list (`L`) as parameters. Executable code uses
//! `String`, `Vec<u8>` and `Vec`; contracts use `Seq`.
//!
//! What can hold a secret, or a message that the store wrote, cannot be
//! printed: those types have no `Debug`.
use vstd::prelude::*;

verus! {

/// How a store is told which entry is meant.
#[derive(Debug, PartialEq, Eq)]
pub enum AddressOf<T> {
    /// One composite name, made of service and account.
    Target(T),
    /// Two attributes of an item.
    Attributes { service: T, account: T },
}

/// Which entries an enumeration asks for.
#[derive(Debug, PartialEq, Eq)]
pub enum ScopeOf<T> {
    /// The entries whose composite name matches a filter: a prefix, then `*`.
    Filter(T),
    /// The items whose service attribute is the one given.
    Service(T),
}

/// One call into the native store.
#[derive(PartialEq, Eq)]
pub enum RequestOf<T, B> {
    /// Create the entry, or replace its secret.
    Write { entry: AddressOf<T>, secret: B },
    /// Create the entry; fail where it exists.
    Add { entry: AddressOf<T>, secret: B },
    /// Replace the secret of an entry that exists.
    Update { entry: AddressOf<T>, secret: B },
    /// Fetch the secret of one entry.
    Read { entry: AddressOf<T> },
    /// Remove one entry.
    Delete { entry: AddressOf<T> },
    /// List names and secrets of the entries in a scope.
    Search { scope: ScopeOf<T> },
    /// Unlock the collection that holds the entries.
    Unlock,
}

/// Why a native call failed.
#[derive(PartialEq, Eq)]
pub enum FaultOf<T> {
    /// The store's own status code, with its message.
    Status { code: i64, message: T },
    /// The collection or the item is locked.
    Locked,
    /// The user dismissed a prompt.
    Dismissed,
    /// No store is running, or none can be reached.
    Unavailable,
    /// The store holds no such item.
    Missing,
}

/// One entry as an enumeration shows it. The name is the composite name or
/// the account attribute, `None` where the store holds none that is text.
#[derive(PartialEq, Eq)]
pub struct RecordOf<T, B> {
    pub name: Option<T>,
    pub secret: B,
}

/// What the native store answered.
#[derive(PartialEq, Eq)]
pub enum ReplyOf<T, B, L> {
    /// The call succeeded and returns nothing.
    Done,
    /// The secret that was read.
    Secret(B),
    /// The entries that were found, in the store's order.
    Listing(L),
    /// The call failed.
    Failed(FaultOf<T>),
}

/// How far an operation has come.
#[derive(Debug, Clone, Copy, PartialEq, Eq)]
pub enum Stage {
    /// The operation's request is with the store for the first time.
    First,
    /// An unlock is with the store; the operation's request waits.
    Unlocking,
    /// The request that is with the store is the last one.
    Last,
}

/// An operation under way: the request that the store is to receive next,
/// and the request that waits for an unlock to complete.
#[derive(PartialEq, Eq)]
pub struct ExchangeOf<T, B> {
    pub request: RequestOf<T, B>,
    pub held: Option<RequestOf<T, B>>,
    pub stage: Stage,
}

/// What follows a reply: another request, or the reply that decides.
#[derive(PartialEq, Eq)]
pub enum ProgressOf<T, B, L> {
    /// The store is to receive the request of this exchange.
    Continue(ExchangeOf<T, B>),
    /// The exchange is over; this reply is the one to conclude from.
    Settled(ReplyOf<T, B, L>),
}

// Each type twice: as executable code holds it, and, with `View` behind its
// name, as the contracts speak of it.

pub type Address = AddressOf<String>;

pub type AddressView = AddressOf<Seq<char>>;

pub type Scope = ScopeOf<String>;

pub type ScopeView = ScopeOf<Seq<char>>;

pub type Request = RequestOf<String, Vec<u8>>;

pub type RequestView = RequestOf<Seq<char>, Seq<u8>>;

pub type Fault = FaultOf<String>;

pub type FaultView = FaultOf<Seq<char>>;

pub type Record = RecordOf<String, Vec<u8>>;

pub type RecordView = RecordOf<Seq<char>, Seq<u8>>;

pub type Reply = ReplyOf<String, Vec<u8>, Vec<RecordOf<String, Vec<u8>>>>;

pub type ReplyView = ReplyOf<Seq<char>, Seq<u8>, Seq<RecordOf<Seq<char>, Seq<u8>>>>;

pub type Exchange = ExchangeOf<String, Vec<u8>>;

pub type ExchangeView = ExchangeOf<Seq<char>, Seq<u8>>;

pub type Progress = ProgressOf<String, Vec<u8>, Vec<RecordOf<String, Vec<u8>>>>;

pub type ProgressView = ProgressOf<Seq<char>, Seq<u8>, Seq<RecordOf<Seq<char>, Seq<u8>>>>;

impl View for AddressOf<String> {
    type V = AddressOf<Seq<char>>;

    open spec fn view(&self) -> Self::V {
        match self {
            AddressOf::Target(name) => AddressOf::Target(name@),
            AddressOf::Attributes { service, account } => AddressOf::Attributes {
                service: service@,
                account: account@,
            },
        }
    }
}

impl View for ScopeOf<String> {
    type V = ScopeOf<Seq<char>>;

    open spec fn view(&self) -> Self::V {
        match self {
            ScopeOf::Filter(filter) => ScopeOf::Filter(filter@),
            ScopeOf::Service(service) => ScopeOf::Service(service@),
        }
    }
}

impl View for RequestOf<String, Vec<u8>> {
    type V = RequestOf<Seq<char>, Seq<u8>>;

    open spec fn view(&self) -> Self::V {
        match self {
            RequestOf::Write { entry, secret } => RequestOf::Write {
                entry: entry@,
                secret: secret@,
            },
            RequestOf::Add { entry, secret } => RequestOf::Add { entry: entry@, secret: secret@ },
            RequestOf::Update { entry, secret } => RequestOf::Update {
                entry: entry@,
                secret: secret@,
            },
            RequestOf::Read { entry } => RequestOf::Read { entry: entry@ },
            RequestOf::Delete { entry } => RequestOf::Delete { entry: entry@ },
            RequestOf::Search { scope } => RequestOf::Search { scope: scope@ },
            RequestOf::Unlock => RequestOf::Unlock,
        }
    }
}

impl View for FaultOf<String> {
    type V = FaultOf<Seq<char>>;

    open spec fn view(&self) -> Self::V {
        match self {
            FaultOf::Status { code, message } => FaultOf::Status { code: *code, message: message@ },
            FaultOf::Locked => FaultOf::Locked,
            FaultOf::Dismissed => FaultOf::Dismissed,
            FaultOf::Unavailable => FaultOf::Unavailable,
            FaultOf::Missing => FaultOf::Missing,
        }
    }
}

impl View for RecordOf<String, Vec<u8>> {
    type V = RecordOf<Seq<char>, Seq<u8>>;

    open spec fn view(&self) -> Self::V {
        RecordOf {
            name: match self.name {
                Some(name) => Some(name@),
                None => None,
            },
            secret: self.secret@,
        }
    }
}

/// The records of a list, each by its view.
pub open spec fn records_view(records: Seq<Record>) -> Seq<RecordView> {
    records.map_values(|record: Record| record@)
}

impl View for ReplyOf<String, Vec<u8>, Vec<RecordOf<String, Vec<u8>>>> {
    type V = ReplyOf<Seq<char>, Seq<u8>, Seq<RecordOf<Seq<char>, Seq<u8>>>>;

    open spec fn view(&self) -> Self::V {
        match self {
            ReplyOf::Done => ReplyOf::Done,
            ReplyOf::Secret(secret) => ReplyOf::Secret(secret@),
            ReplyOf::Listing(records) => ReplyOf::Listing(records_view(records@)),
            ReplyOf::Failed(fault) => ReplyOf::Failed(fault@),
        }
    }
}

impl View for ExchangeOf<String, Vec<u8>> {
    type V = ExchangeOf<Seq<char>, Seq<u8>>;

    open spec fn view(&self) -> Self::V {
        ExchangeOf {
            request: self.request@,
            held: match self.held {
                Some(request) => Some(request@),
                None => None,
            },
            stage: self.stage,
        }
    }
}

impl View for ProgressOf<String, Vec<u8>, Vec<RecordOf<String, Vec<u8>>>> {
    type V = ProgressOf<Seq<char>, Seq<u8>, Seq<RecordOf<Seq<char>, Seq<u8>>>>;

    open spec fn view(&self) -> Self::V {
        match self {
            ProgressOf::Continue(exchange) => ProgressOf::Continue(exchange@),
            ProgressOf::Settled(reply) => ProgressOf::Settled(reply@),
        }
    }
}

} // verus!
