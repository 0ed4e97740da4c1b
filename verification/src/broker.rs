//! The five credential operations, each as a plan and a conclusion.
//!
//! A `Broker` is made once for the platform of the process. For an operation
//! it plans the first request, `advance` follows the store's replies, and the
//! operation's `finish_` function turns the reply that settles the exchange
//! into the result. The host hands each request to the native store and
//! brings the reply back; the broker itself calls nothing and keeps nothing.
use vstd::prelude::*;
use vstd::slice::slice_to_vec;
use vstd::string::*;
use crate::error::{Error, ErrorOf, ErrorView};
use crate::key::{admits, check, is_well_formed, measure, units, well_formed, Portability};
use crate::linux;
use crate::macos;
use crate::native::{
    records_view, Address, AddressOf, AddressView, Exchange, ExchangeOf, ExchangeView, Fault,
    FaultOf, FaultView, Progress, ProgressOf, ProgressView, Record, RecordOf, RecordView, Reply,
    ReplyOf, ReplyView, RequestOf, RequestView, ScopeOf, ScopeView, Stage,
};
use crate::secrecy::{discreet, scrub};
use crate::windows;

verus! {

/// The native stores that the broker knows.
#[derive(Debug, Clone, Copy, PartialEq, Eq)]
pub enum Platform {
    /// Credential Manager.
    Windows,
    /// Keychain Services.
    MacOs,
    /// Secret Service.
    Linux,
}

/// The broker of one platform. Its platform is fixed when it is made.
#[derive(Debug, Clone, Copy, PartialEq, Eq)]
pub struct Broker {
    platform: Platform,
    portability: Portability,
}

/// The platform that an operating system's name stands for.
pub open spec fn platform_named(name: Seq<char>) -> Option<Platform> {
    if name == "windows"@ {
        Some(Platform::Windows)
    } else if name == "macos"@ {
        Some(Platform::MacOs)
    } else if name == "linux"@ {
        Some(Platform::Linux)
    } else {
        None
    }
}

/// How the platform addresses the entry of a service and an account.
pub open spec fn address(
    platform: Platform,
    service: Seq<char>,
    account: Seq<char>,
) -> AddressView {
    match platform {
        Platform::Windows => AddressOf::Target(windows::target_name(service, account)),
        _ => AddressOf::Attributes { service, account },
    }
}

/// How the platform is asked for the entries of a service.
pub open spec fn scope(platform: Platform, service: Seq<char>) -> ScopeView {
    match platform {
        Platform::Windows => ScopeOf::Filter(windows::filter_for(service)),
        _ => ScopeOf::Service(service),
    }
}

/// The services whose entries the broker enumerates.
pub open spec fn service_accepted(b: Broker, service: Seq<char>) -> bool {
    &&& admits(b.portability(), service)
    &&& b.platform() is Windows ==> units(windows::filter_for(service)) <= windows::TARGET_LIMIT
}

/// The keys that the broker hands to the store.
pub open spec fn key_accepted(b: Broker, service: Seq<char>, account: Seq<char>) -> bool {
    &&& admits(b.portability(), service)
    &&& admits(b.portability(), account)
    &&& b.platform() is Windows ==> units(windows::target_name(service, account))
        <= windows::TARGET_LIMIT
}

/// The secrets that the broker hands to the store.
pub open spec fn secret_accepted(b: Broker, secret: Seq<u8>) -> bool {
    b.platform() is Windows ==> secret.len() <= windows::BLOB_LIMIT
}

/// An exchange that begins with `request`.
pub open spec fn first(request: RequestView) -> ExchangeView {
    ExchangeOf { request, held: None, stage: Stage::First }
}

/// How `set_password` begins: with `Invalid` for a key or a secret that is
/// not accepted, else with the request that stores the secret.
pub open spec fn set_plan(
    b: Broker,
    service: Seq<char>,
    account: Seq<char>,
    secret: Seq<u8>,
) -> Result<ExchangeView, ErrorView> {
    if key_accepted(b, service, account) && secret_accepted(b, secret) {
        let entry = address(b.platform(), service, account);
        Ok(
            first(
                match b.platform() {
                    Platform::MacOs => RequestOf::Add { entry, secret },
                    _ => RequestOf::Write { entry, secret },
                },
            ),
        )
    } else {
        Err(ErrorOf::Invalid)
    }
}

/// How `get_password` begins.
pub open spec fn get_plan(b: Broker, service: Seq<char>, account: Seq<char>) -> Result<
    ExchangeView,
    ErrorView,
> {
    if key_accepted(b, service, account) {
        Ok(first(RequestOf::Read { entry: address(b.platform(), service, account) }))
    } else {
        Err(ErrorOf::Invalid)
    }
}

/// How `delete_password` begins.
pub open spec fn delete_plan(b: Broker, service: Seq<char>, account: Seq<char>) -> Result<
    ExchangeView,
    ErrorView,
> {
    if key_accepted(b, service, account) {
        Ok(first(RequestOf::Delete { entry: address(b.platform(), service, account) }))
    } else {
        Err(ErrorOf::Invalid)
    }
}

/// How `find_password` and `find_credentials` begin.
pub open spec fn find_plan(b: Broker, service: Seq<char>) -> Result<ExchangeView, ErrorView> {
    if service_accepted(b, service) {
        Ok(first(RequestOf::Search { scope: scope(b.platform(), service) }))
    } else {
        Err(ErrorOf::Invalid)
    }
}

/// The requests that the store of a platform understands: those that address
/// an entry or a scope in the platform's way, an `Add` or `Update` on
/// Keychain Services only, an `Unlock` of the Secret Service only.
pub open spec fn understood(platform: Platform, request: RequestView) -> bool {
    let fits = |entry: AddressView|
        if platform is Windows {
            entry is Target
        } else {
            entry is Attributes
        };
    match request {
        RequestOf::Write { entry, .. } => !(platform is MacOs) && fits(entry),
        RequestOf::Add { entry, .. } => platform is MacOs && fits(entry),
        RequestOf::Update { entry, .. } => platform is MacOs && fits(entry),
        RequestOf::Read { entry } => fits(entry),
        RequestOf::Delete { entry } => fits(entry),
        RequestOf::Search { scope } => if platform is Windows {
            scope is Filter
        } else {
            scope is Service
        },
        RequestOf::Unlock => platform is Linux,
    }
}

/// An exchange as the broker makes it: the store understands its request;
/// while an unlock is with the store, a request of the operation waits, and
/// at no other time.
pub open spec fn regular(b: Broker, exchange: ExchangeView) -> bool {
    &&& understood(b.platform(), exchange.request)
    &&& match exchange.stage {
        Stage::Unlocking => exchange.request is Unlock && (exchange.held matches Some(request)
            && understood(b.platform(), request) && !(request is Unlock)),
        _ => exchange.held is None && !(exchange.request is Unlock),
    }
}

/// The number of requests that may still follow the one of this stage.
pub open spec fn remaining(stage: Stage) -> nat {
    match stage {
        Stage::First => 2,
        Stage::Unlocking => 1,
        Stage::Last => 0,
    }
}

/// The fault that stands for a reply of the wrong shape.
pub open spec fn unexpected() -> FaultView {
    FaultOf::Status { code: 0, message: "unexpected reply"@ }
}

/// What follows a reply. Keychain's report of a duplicate on `Add` is
/// followed by an `Update` of the same entry. The Secret Service's report of
/// a lock is followed by one unlock and then by the same request again. Every
/// other reply settles the exchange.
pub open spec fn step(b: Broker, exchange: ExchangeView, reply: ReplyView) -> ProgressView {
    match exchange.stage {
        Stage::First => match reply {
            ReplyOf::Failed(FaultOf::Status { code, message }) => match exchange.request {
                RequestOf::Add { entry, secret } => if b.platform() is MacOs && code
                    == macos::DUPLICATE_ITEM {
                    ProgressOf::Continue(
                        ExchangeOf {
                            request: RequestOf::Update { entry, secret },
                            held: None,
                            stage: Stage::Last,
                        },
                    )
                } else {
                    ProgressOf::Settled(reply)
                },
                _ => ProgressOf::Settled(reply),
            },
            ReplyOf::Failed(FaultOf::Locked) => if b.platform() is Linux && !(exchange.request
                is Unlock) {
                ProgressOf::Continue(
                    ExchangeOf {
                        request: RequestOf::Unlock,
                        held: Some(exchange.request),
                        stage: Stage::Unlocking,
                    },
                )
            } else {
                ProgressOf::Settled(reply)
            },
            _ => ProgressOf::Settled(reply),
        },
        Stage::Unlocking => match reply {
            ReplyOf::Done => match exchange.held {
                Some(request) => ProgressOf::Continue(
                    ExchangeOf { request, held: None, stage: Stage::Last },
                ),
                None => ProgressOf::Settled(reply),
            },
            ReplyOf::Failed(_) => ProgressOf::Settled(reply),
            _ => ProgressOf::Settled(ReplyOf::Failed(unexpected())),
        },
        Stage::Last => ProgressOf::Settled(reply),
    }
}

/// The error that a native fault becomes. A status code means what the
/// platform says it means; a lock that is still there and a dismissed prompt
/// are a denial; a store that cannot be reached is not supported.
pub open spec fn failure(platform: Platform, fault: FaultView) -> ErrorView {
    match fault {
        FaultOf::Status { code, message } => match platform {
            Platform::Windows => windows::status_error(code, message),
            Platform::MacOs => macos::status_error(code, message),
            Platform::Linux => linux::status_error(code, message),
        },
        FaultOf::Locked => ErrorOf::AccessDenied,
        FaultOf::Dismissed => ErrorOf::AccessDenied,
        FaultOf::Unavailable => ErrorOf::Unsupported,
        FaultOf::Missing => ErrorOf::NotFound,
    }
}

/// The result of `set_password` for the reply that settled it.
pub open spec fn set_result(b: Broker, secret: Seq<u8>, reply: ReplyView) -> Result<(), ErrorView> {
    match reply {
        ReplyOf::Done => Ok(()),
        ReplyOf::Failed(fault) => Err(discreet(failure(b.platform(), fault), secret)),
        _ => Err(discreet(failure(b.platform(), unexpected()), secret)),
    }
}

/// The result of `get_password`: the secret, or `None` where the store has
/// no such entry.
pub open spec fn get_result(b: Broker, reply: ReplyView) -> Result<Option<Seq<u8>>, ErrorView> {
    match reply {
        ReplyOf::Secret(secret) => Ok(Some(secret)),
        ReplyOf::Failed(fault) => match failure(b.platform(), fault) {
            ErrorOf::NotFound => Ok(None),
            e => Err(e),
        },
        _ => Err(failure(b.platform(), unexpected())),
    }
}

/// The result of `delete_password`: whether an entry was removed.
pub open spec fn delete_result(b: Broker, reply: ReplyView) -> Result<bool, ErrorView> {
    match reply {
        ReplyOf::Done => Ok(true),
        ReplyOf::Failed(fault) => match failure(b.platform(), fault) {
            ErrorOf::NotFound => Ok(false),
            e => Err(e),
        },
        _ => Err(failure(b.platform(), unexpected())),
    }
}

/// The entry that a record shows under `service`: its account and secret.
/// A record without a name, with a name that is no account name, or, where
/// names are composite, with a name that is not made of `service`, shows
/// none.
pub open spec fn entry_of(platform: Platform, service: Seq<char>, record: RecordView) -> Option<
    (Seq<char>, Seq<u8>),
> {
    match record.name {
        None => None,
        Some(name) => match platform {
            Platform::Windows => match windows::account_in(service, name) {
                Some(account) => Some((account, record.secret)),
                None => None,
            },
            _ => if well_formed(name) {
                Some((name, record.secret))
            } else {
                None
            },
        },
    }
}

/// The entries that a list of records shows under `service`, in the order of
/// the list.
pub open spec fn owned(platform: Platform, service: Seq<char>, records: Seq<RecordView>) -> Seq<
    (Seq<char>, Seq<u8>),
>
    decreases records.len(),
{
    if records.len() == 0 {
        Seq::empty()
    } else {
        let before = owned(platform, service, records.drop_last());
        match entry_of(platform, service, records.last()) {
            Some(entry) => before.push(entry),
            None => before,
        }
    }
}

/// The entries that an enumeration of `service` found: those that the
/// listing shows, or none where the store reports that nothing matches.
pub open spec fn found(b: Broker, service: Seq<char>, reply: ReplyView) -> Result<
    Seq<(Seq<char>, Seq<u8>)>,
    ErrorView,
> {
    if !service_accepted(b, service) {
        Err(ErrorOf::Invalid)
    } else {
        match reply {
            ReplyOf::Listing(records) => Ok(owned(b.platform(), service, records)),
            ReplyOf::Failed(fault) => match failure(b.platform(), fault) {
                ErrorOf::NotFound => Ok(Seq::empty()),
                e => Err(e),
            },
            _ => Err(failure(b.platform(), unexpected())),
        }
    }
}

/// The result of `find_password`: the secret of the one entry of the
/// service, `None` where it has none, `Ambiguous` where it has several.
pub open spec fn find_password_result(b: Broker, service: Seq<char>, reply: ReplyView) -> Result<
    Option<Seq<u8>>,
    ErrorView,
> {
    match found(b, service, reply) {
        Err(e) => Err(e),
        Ok(entries) => if entries.len() == 0 {
            Ok(None)
        } else if entries.len() == 1 {
            Ok(Some(entries[0].1))
        } else {
            Err(ErrorOf::Ambiguous)
        },
    }
}

/// The result of `find_credentials`, and the output sequence after it: the
/// entries found are appended; on an error the sequence is as it was.
pub open spec fn find_credentials_result(
    b: Broker,
    service: Seq<char>,
    reply: ReplyView,
    out: Seq<(Seq<char>, Seq<u8>)>,
) -> (Result<(), ErrorView>, Seq<(Seq<char>, Seq<u8>)>) {
    match found(b, service, reply) {
        Err(e) => (Err(e), out),
        Ok(entries) => (Ok(()), out + entries),
    }
}

/// The pairs of an output sequence, each by its views.
pub open spec fn entries(pairs: Seq<(String, Vec<u8>)>) -> Seq<(Seq<char>, Seq<u8>)> {
    pairs.map_values(|pair: (String, Vec<u8>)| (pair.0@, pair.1@))
}

/// A planned exchange or an error, by its views.
pub open spec fn plan_view(r: Result<Exchange, Error>) -> Result<ExchangeView, ErrorView> {
    match r {
        Ok(exchange) => Ok(exchange@),
        Err(e) => Err(e@),
    }
}

/// A result without a value, by its views.
pub open spec fn unit_view(r: Result<(), Error>) -> Result<(), ErrorView> {
    match r {
        Ok(_) => Ok(()),
        Err(e) => Err(e@),
    }
}

/// A result that may hold a secret, by its views.
pub open spec fn secret_view(r: Result<Option<Vec<u8>>, Error>) -> Result<
    Option<Seq<u8>>,
    ErrorView,
> {
    match r {
        Ok(Some(secret)) => Ok(Some(secret@)),
        Ok(None) => Ok(None),
        Err(e) => Err(e@),
    }
}

/// A result that holds a flag, by its views.
pub open spec fn flag_view(r: Result<bool, Error>) -> Result<bool, ErrorView> {
    match r {
        Ok(flag) => Ok(flag),
        Err(e) => Err(e@),
    }
}

impl Broker {
    /// The store that this broker speaks to.
    pub closed spec fn spec_platform(&self) -> Platform {
        self.platform
    }

    /// The length rule that this broker holds names to.
    pub closed spec fn spec_portability(&self) -> Portability {
        self.portability
    }

    /// A broker for `platform`.
    pub fn new(platform: Platform, portability: Portability) -> (r: Broker)
        ensures
            r.platform() == platform,
            r.portability() == portability,
    {
        Broker { platform, portability }
    }

    /// A broker for the operating system of the given name, as the standard
    /// library names it. Another system has no store that the broker knows.
    pub fn for_os(name: &str, portability: Portability) -> (r: Result<Broker, Error>)
        ensures
            match platform_named(name@) {
                Some(platform) => r matches Ok(b) && b.platform() == platform && b.portability()
                    == portability,
                None => r matches Err(e) && e@ == ErrorView::Unsupported,
            },
    {
        let name = name.to_owned();
        if name == String::from_str("windows") {
            Ok(Broker { platform: Platform::Windows, portability })
        } else if name == String::from_str("macos") {
            Ok(Broker { platform: Platform::MacOs, portability })
        } else if name == String::from_str("linux") {
            Ok(Broker { platform: Platform::Linux, portability })
        } else {
            Err(ErrorOf::Unsupported)
        }
    }

    /// The store that this broker speaks to.
    #[verifier::when_used_as_spec(spec_platform)]
    pub fn platform(&self) -> (r: Platform)
        ensures
            r == self.platform(),
    {
        self.platform
    }

    /// The length rule that this broker holds names to.
    #[verifier::when_used_as_spec(spec_portability)]
    pub fn portability(&self) -> (r: Portability)
        ensures
            r == self.portability(),
    {
        self.portability
    }

    /// Whether the entries of `service` can be enumerated.
    pub fn accepts_service(&self, service: &str) -> (r: bool)
        ensures
            r == service_accepted(*self, service@),
    {
        if !check(self.portability, service) {
            return false;
        }
        proof {
            windows::lemma_name_lengths(service@, service@);
        }
        match self.platform {
            Platform::Windows => measure(service, windows::TARGET_LIMIT - 1).is_some(),
            _ => true,
        }
    }

    /// Whether the store can hold an entry under this key.
    pub fn accepts_key(&self, service: &str, account: &str) -> (r: bool)
        ensures
            r == key_accepted(*self, service@, account@),
    {
        if !check(self.portability, service) || !check(self.portability, account) {
            return false;
        }
        proof {
            windows::lemma_name_lengths(service@, account@);
        }
        match self.platform {
            Platform::Windows => match measure(service, windows::TARGET_LIMIT - 1) {
                Some(used) => measure(account, windows::TARGET_LIMIT - 1 - used).is_some(),
                None => false,
            },
            _ => true,
        }
    }

    /// Whether the store can hold this secret.
    pub fn accepts_secret(&self, secret: &[u8]) -> (r: bool)
        ensures
            r == secret_accepted(*self, secret@),
    {
        match self.platform {
            Platform::Windows => secret.len() <= windows::BLOB_LIMIT,
            _ => true,
        }
    }

    fn address(&self, service: &str, account: &str) -> (r: Address)
        ensures
            r@ == address(self.platform(), service@, account@),
    {
        match self.platform {
            Platform::Windows => AddressOf::Target(windows::compose_target(service, account)),
            _ => AddressOf::Attributes {
                service: service.to_owned(),
                account: account.to_owned(),
            },
        }
    }

    /// Begins `set_password`.
    pub fn plan_set_password(&self, service: &str, account: &str, secret: &[u8]) -> (r: Result<
        Exchange,
        Error,
    >)
        ensures
            plan_view(r) == set_plan(*self, service@, account@, secret@),
    {
        if !self.accepts_key(service, account) || !self.accepts_secret(secret) {
            return Err(ErrorOf::Invalid);
        }
        let entry = self.address(service, account);
        let secret = slice_to_vec(secret);
        let request = match self.platform {
            Platform::MacOs => RequestOf::Add { entry, secret },
            _ => RequestOf::Write { entry, secret },
        };
        Ok(ExchangeOf { request, held: None, stage: Stage::First })
    }

    /// Begins `get_password`.
    pub fn plan_get_password(&self, service: &str, account: &str) -> (r: Result<Exchange, Error>)
        ensures
            plan_view(r) == get_plan(*self, service@, account@),
    {
        if !self.accepts_key(service, account) {
            return Err(ErrorOf::Invalid);
        }
        let request = RequestOf::Read { entry: self.address(service, account) };
        Ok(ExchangeOf { request, held: None, stage: Stage::First })
    }

    /// Begins `delete_password`.
    pub fn plan_delete_password(&self, service: &str, account: &str) -> (r: Result<Exchange, Error>)
        ensures
            plan_view(r) == delete_plan(*self, service@, account@),
    {
        if !self.accepts_key(service, account) {
            return Err(ErrorOf::Invalid);
        }
        let request = RequestOf::Delete { entry: self.address(service, account) };
        Ok(ExchangeOf { request, held: None, stage: Stage::First })
    }

    /// Begins `find_password` and `find_credentials`.
    pub fn plan_find(&self, service: &str) -> (r: Result<Exchange, Error>)
        ensures
            plan_view(r) == find_plan(*self, service@),
    {
        if !self.accepts_service(service) {
            return Err(ErrorOf::Invalid);
        }
        let scope = match self.platform {
            Platform::Windows => ScopeOf::Filter(windows::compose_filter(service)),
            _ => ScopeOf::Service(service.to_owned()),
        };
        Ok(ExchangeOf { request: RequestOf::Search { scope }, held: None, stage: Stage::First })
    }

    /// Takes the store's reply to the request of `exchange` and says what
    /// follows. No operation sends more than three requests.
    pub fn advance(&self, exchange: Exchange, reply: Reply) -> (r: Progress)
        ensures
            r@ == step(*self, exchange@, reply@),
            r matches ProgressOf::Continue(next) ==> remaining(next.stage) < remaining(
                exchange.stage,
            ),
    {
        let ExchangeOf { request, held, stage } = exchange;
        match stage {
            Stage::First => match reply {
                ReplyOf::Failed(FaultOf::Status { code, message }) => match request {
                    RequestOf::Add { entry, secret } => {
                        if code == macos::DUPLICATE_ITEM && self.is_macos() {
                            ProgressOf::Continue(
                                ExchangeOf {
                                    request: RequestOf::Update { entry, secret },
                                    held: None,
                                    stage: Stage::Last,
                                },
                            )
                        } else {
                            ProgressOf::Settled(ReplyOf::Failed(FaultOf::Status { code, message }))
                        }
                    },
                    _ => ProgressOf::Settled(ReplyOf::Failed(FaultOf::Status { code, message })),
                },
                ReplyOf::Failed(FaultOf::Locked) => {
                    let unlock = match request {
                        RequestOf::Unlock => false,
                        _ => self.is_linux(),
                    };
                    if unlock {
                        ProgressOf::Continue(
                            ExchangeOf {
                                request: RequestOf::Unlock,
                                held: Some(request),
                                stage: Stage::Unlocking,
                            },
                        )
                    } else {
                        ProgressOf::Settled(ReplyOf::Failed(FaultOf::Locked))
                    }
                },
                other => ProgressOf::Settled(other),
            },
            Stage::Unlocking => match reply {
                ReplyOf::Done => match held {
                    Some(request) => ProgressOf::Continue(
                        ExchangeOf { request, held: None, stage: Stage::Last },
                    ),
                    None => ProgressOf::Settled(ReplyOf::Done),
                },
                ReplyOf::Failed(fault) => ProgressOf::Settled(ReplyOf::Failed(fault)),
                _ => ProgressOf::Settled(ReplyOf::Failed(unexpected_fault())),
            },
            Stage::Last => ProgressOf::Settled(reply),
        }
    }

    fn is_macos(&self) -> (r: bool)
        ensures
            r == (self.platform() is MacOs),
    {
        match self.platform {
            Platform::MacOs => true,
            _ => false,
        }
    }

    fn is_linux(&self) -> (r: bool)
        ensures
            r == (self.platform() is Linux),
    {
        match self.platform {
            Platform::Linux => true,
            _ => false,
        }
    }

    /// Places a native fault in the error vocabulary.
    pub fn classify(&self, fault: Fault) -> (r: Error)
        ensures
            r@ == failure(self.platform(), fault@),
    {
        match fault {
            FaultOf::Status { code, message } => match self.platform {
                Platform::Windows => windows::classify(code, message),
                Platform::MacOs => macos::classify(code, message),
                Platform::Linux => linux::classify(code, message),
            },
            FaultOf::Locked => ErrorOf::AccessDenied,
            FaultOf::Dismissed => ErrorOf::AccessDenied,
            FaultOf::Unavailable => ErrorOf::Unsupported,
            FaultOf::Missing => ErrorOf::NotFound,
        }
    }

    /// Concludes `set_password`. An error that it returns does not show the
    /// secret in a native message.
    pub fn finish_set_password(&self, secret: &[u8], reply: Reply) -> (r: Result<(), Error>)
        ensures
            unit_view(r) == set_result(*self, secret@, reply@),
    {
        match reply {
            ReplyOf::Done => Ok(()),
            ReplyOf::Failed(fault) => Err(scrub(self.classify(fault), secret)),
            _ => Err(scrub(self.classify(unexpected_fault()), secret)),
        }
    }

    /// Concludes `get_password`.
    pub fn finish_get_password(&self, reply: Reply) -> (r: Result<Option<Vec<u8>>, Error>)
        ensures
            secret_view(r) == get_result(*self, reply@),
    {
        match reply {
            ReplyOf::Secret(secret) => Ok(Some(secret)),
            ReplyOf::Failed(fault) => match self.classify(fault) {
                ErrorOf::NotFound => Ok(None),
                e => Err(e),
            },
            _ => Err(self.classify(unexpected_fault())),
        }
    }

    /// Concludes `delete_password`.
    pub fn finish_delete_password(&self, reply: Reply) -> (r: Result<bool, Error>)
        ensures
            flag_view(r) == delete_result(*self, reply@),
    {
        match reply {
            ReplyOf::Done => Ok(true),
            ReplyOf::Failed(fault) => match self.classify(fault) {
                ErrorOf::NotFound => Ok(false),
                e => Err(e),
            },
            _ => Err(self.classify(unexpected_fault())),
        }
    }

    /// Concludes `find_credentials`: appends the entries of `service` that
    /// the listing shows to `out`, in the order of the listing. A record that
    /// shows no entry of the service is passed over.
    pub fn finish_find_credentials(
        &self,
        service: &str,
        reply: Reply,
        out: &mut Vec<(String, Vec<u8>)>,
    ) -> (r: Result<(), Error>)
        ensures
            (unit_view(r), entries(final(out)@)) == find_credentials_result(
                *self,
                service@,
                reply@,
                entries(old(out)@),
            ),
    {
        if !self.accepts_service(service) {
            return Err(ErrorOf::Invalid);
        }
        match reply {
            ReplyOf::Listing(records) => {
                self.collect(service, records, out);
                Ok(())
            },
            ReplyOf::Failed(fault) => match self.classify(fault) {
                ErrorOf::NotFound => Ok(()),
                e => Err(e),
            },
            _ => Err(self.classify(unexpected_fault())),
        }
    }

    /// Concludes `find_password`.
    pub fn finish_find_password(&self, service: &str, reply: Reply) -> (r: Result<
        Option<Vec<u8>>,
        Error,
    >)
        ensures
            secret_view(r) == find_password_result(*self, service@, reply@),
    {
        let mut matches: Vec<(String, Vec<u8>)> = Vec::new();
        match self.finish_find_credentials(service, reply, &mut matches) {
            Err(e) => Err(e),
            Ok(_) => {
                if matches.len() > 1 {
                    Err(ErrorOf::Ambiguous)
                } else {
                    match matches.pop() {
                        Some(pair) => Ok(Some(pair.1)),
                        None => Ok(None),
                    }
                }
            },
        }
    }

    fn collect(&self, service: &str, records: Vec<Record>, out: &mut Vec<(String, Vec<u8>)>)
        ensures
            entries(final(out)@) == entries(old(out)@) + owned(
                self.platform(),
                service@,
                records_view(records@),
            ),
    {
        let ghost before = entries(out@);
        let ghost all = records_view(records@);
        for record in it: records
            invariant
                it.seq() == records@,
                all == records_view(records@),
                entries(out@) == before + owned(self.platform(), service@, all.take(it.index())),
        {
            let ghost shown = owned(self.platform(), service@, all.take(it.index()));
            proof {
                assert(all.take(it.index() + 1).drop_last() =~= all.take(it.index()));
            }
            let RecordOf { name, secret } = record;
            let kept: Option<String> = match name {
                Some(name) => match self.platform {
                    Platform::Windows => windows::split_target(service, name.as_str()),
                    _ => if is_well_formed(name.as_str()) {
                        Some(name)
                    } else {
                        None
                    },
                },
                None => None,
            };
            match kept {
                Some(account) => {
                    out.push((account, secret));
                    proof {
                        assert(before + shown.push((account@, secret@)) =~= (before + shown).push(
                            (account@, secret@),
                        ));
                    }
                },
                None => {},
            }
        }
        proof {
            assert(all.take(all.len() as int) =~= all);
        }
    }
}

fn unexpected_fault() -> (r: Fault)
    ensures
        r@ == unexpected(),
{
    FaultOf::Status { code: 0, message: String::from_str("unexpected reply") }
}

} // verus!
