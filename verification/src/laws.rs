//! What holds of the five operations on every platform, proved against the
//! store as `store` describes it.
use vstd::prelude::*;
use crate::broker::{
    address, delete_plan, delete_result, entry_of, failure, find_credentials_result, find_plan,
    find_password_result, first, get_plan, get_result, key_accepted, owned, regular, remaining,
    scope, secret_accepted, service_accepted, set_plan, set_result, step, unexpected, Broker,
    Platform,
};
use crate::error::{without_message, ErrorOf};
use crate::key::{admits, well_formed, Portability};
use crate::macos::DUPLICATE_ITEM;
use crate::native::{
    ExchangeView, FaultOf, FaultView, ProgressOf, RecordView, ReplyOf, ReplyView, RequestOf,
    RequestView,
};
use crate::secrecy::{discreet, law_text_keeps_secret, occurs, rendered};
use crate::store::{
    absent, delete_password, entry_named, find_credentials, find_password, get_password, holding,
    lists, set_password, settle, stored, Store,
};
use crate::windows::{lemma_account_in, lemma_name_lengths, target_name};

verus! {

/// The store once the broker has had to use it: the Secret Service's
/// collection is unlocked, every other store is as it was.
pub open spec fn opened(b: Broker, store: Store) -> Store {
    if b.platform() is Linux {
        Store { locked: false, ..store }
    } else {
        store
    }
}

/// The store's last word on each request that an operation begins with, and
/// what the store holds afterwards.
proof fn lemma_settle(b: Broker, store: Store, request: RequestView, listing: Seq<RecordView>)
    requires
        !(request is Unlock),
        !(request is Update),
        request is Add ==> b.platform() is MacOs,
    ensures
        settle(b, store, first(request), listing) == match request {
            RequestOf::Write { entry, secret } => (
                ReplyOf::<Seq<char>, Seq<u8>, Seq<RecordView>>::Done,
                holding(opened(b, store), store.entries.insert(entry, secret)),
            ),
            RequestOf::Add { entry, secret } => (
                ReplyOf::Done,
                holding(opened(b, store), store.entries.insert(entry, secret)),
            ),
            RequestOf::Read { entry } => if store.entries.contains_key(entry) {
                (ReplyOf::Secret(store.entries[entry]), opened(b, store))
            } else {
                (ReplyOf::Failed(absent(b.platform())), opened(b, store))
            },
            RequestOf::Delete { entry } => if store.entries.contains_key(entry) {
                (ReplyOf::Done, holding(opened(b, store), store.entries.remove(entry)))
            } else {
                (ReplyOf::Failed(absent(b.platform())), opened(b, store))
            },
            _ => (ReplyOf::Listing(listing), opened(b, store)),
        },
{
    reveal_with_fuel(settle, 4);
}

/// Two keys with the same address are the same key.
pub proof fn law_address_names_one_key(
    platform: Platform,
    service: Seq<char>,
    account: Seq<char>,
    other_service: Seq<char>,
    other_account: Seq<char>,
)
    requires
        well_formed(service),
        well_formed(other_service),
        address(platform, service, account) == address(platform, other_service, other_account),
    ensures
        service == other_service,
        account == other_account,
{
    if platform is Windows {
        let name = target_name(service, account);
        let n = service.len() as int;
        let m = other_service.len() as int;
        if n < m {
            assert(other_service[n] == name[n]);
        }
        if m < n {
            assert(service[m] == name[m]);
        }
        assert(other_service =~= name.subrange(0, m));
        assert(other_account =~= name.subrange(m + 1, name.len() as int));
    }
}

/// `get_password` returns what the store holds under the key, `None` where
/// it holds nothing, and leaves the entries as they are.
pub proof fn law_get_reads_the_store(
    b: Broker,
    store: Store,
    service: Seq<char>,
    account: Seq<char>,
)
    requires
        key_accepted(b, service, account),
    ensures
        get_password(b, store, service, account).0 matches Ok(secret) && secret == stored(
            b,
            store,
            service,
            account,
        ),
        get_password(b, store, service, account).1 == opened(b, store),
{
    lemma_settle(
        b,
        store,
        RequestOf::Read { entry: address(b.platform(), service, account) },
        Seq::empty(),
    );
}

/// `set_password` succeeds for every key and secret that the broker accepts,
/// and puts the secret under the key's address; nothing else changes.
pub proof fn law_set_writes_the_store(
    b: Broker,
    store: Store,
    service: Seq<char>,
    account: Seq<char>,
    secret: Seq<u8>,
)
    requires
        key_accepted(b, service, account),
        secret_accepted(b, secret),
    ensures
        set_password(b, store, service, account, secret).0 is Ok,
        set_password(b, store, service, account, secret).1 == holding(
            opened(b, store),
            store.entries.insert(address(b.platform(), service, account), secret),
        ),
{
    let entry = address(b.platform(), service, account);
    if b.platform() is MacOs {
        lemma_settle(b, store, RequestOf::Add { entry, secret }, Seq::empty());
    } else {
        lemma_settle(b, store, RequestOf::Write { entry, secret }, Seq::empty());
    }
}

/// `delete_password` says whether the store held an entry under the key, and
/// leaves none there; nothing else changes.
pub proof fn law_delete_clears_the_store(
    b: Broker,
    store: Store,
    service: Seq<char>,
    account: Seq<char>,
)
    requires
        key_accepted(b, service, account),
    ensures
        delete_password(b, store, service, account).0 matches Ok(removed) && removed == (stored(
            b,
            store,
            service,
            account,
        ) is Some),
        delete_password(b, store, service, account).1 == holding(
            opened(b, store),
            store.entries.remove(address(b.platform(), service, account)),
        ),
{
    let entry = address(b.platform(), service, account);
    lemma_settle(b, store, RequestOf::Delete { entry }, Seq::empty());
    if !store.entries.contains_key(entry) {
        assert(store.entries.remove(entry) =~= store.entries);
    }
}

/// Round trip: a secret that was set is the secret that is read.
pub proof fn law_set_then_get(
    b: Broker,
    store: Store,
    service: Seq<char>,
    account: Seq<char>,
    secret: Seq<u8>,
)
    requires
        key_accepted(b, service, account),
        secret_accepted(b, secret),
    ensures
        ({
            let (set, after) = set_password(b, store, service, account, secret);
            &&& set is Ok
            &&& (get_password(b, after, service, account).0 matches Ok(read) && read == Some(
                secret,
            ))
        }),
{
    law_set_writes_the_store(b, store, service, account, secret);
    let after = set_password(b, store, service, account, secret).1;
    law_get_reads_the_store(b, after, service, account);
}

/// Overwrite: of two secrets set under one key, the second is read.
pub proof fn law_set_overwrites(
    b: Broker,
    store: Store,
    service: Seq<char>,
    account: Seq<char>,
    earlier: Seq<u8>,
    later: Seq<u8>,
)
    requires
        key_accepted(b, service, account),
        secret_accepted(b, earlier),
        secret_accepted(b, later),
    ensures
        ({
            let (_, once) = set_password(b, store, service, account, earlier);
            let (_, twice) = set_password(b, once, service, account, later);
            get_password(b, twice, service, account).0 matches Ok(read) && read == Some(later)
        }),
{
    law_set_writes_the_store(b, store, service, account, earlier);
    let once = set_password(b, store, service, account, earlier).1;
    law_set_then_get(b, once, service, account, later);
}

/// A secret set under one key leaves what every other key holds as it was.
pub proof fn law_set_keeps_other_keys(
    b: Broker,
    store: Store,
    service: Seq<char>,
    account: Seq<char>,
    secret: Seq<u8>,
    other_service: Seq<char>,
    other_account: Seq<char>,
)
    requires
        key_accepted(b, service, account),
        secret_accepted(b, secret),
        well_formed(other_service),
        service != other_service || account != other_account,
    ensures
        stored(
            b,
            set_password(b, store, service, account, secret).1,
            other_service,
            other_account,
        ) == stored(b, store, other_service, other_account),
{
    law_set_writes_the_store(b, store, service, account, secret);
    if address(b.platform(), service, account) == address(
        b.platform(),
        other_service,
        other_account,
    ) {
        law_address_names_one_key(b.platform(), service, account, other_service, other_account);
    }
}

/// An entry deleted under one key leaves what every other key holds as it
/// was.
pub proof fn law_delete_keeps_other_keys(
    b: Broker,
    store: Store,
    service: Seq<char>,
    account: Seq<char>,
    other_service: Seq<char>,
    other_account: Seq<char>,
)
    requires
        key_accepted(b, service, account),
        well_formed(other_service),
        service != other_service || account != other_account,
    ensures
        stored(b, delete_password(b, store, service, account).1, other_service, other_account)
            == stored(b, store, other_service, other_account),
{
    law_delete_clears_the_store(b, store, service, account);
    if address(b.platform(), service, account) == address(
        b.platform(),
        other_service,
        other_account,
    ) {
        law_address_names_one_key(b.platform(), service, account, other_service, other_account);
    }
}

/// Deletion is idempotent: where the key is absent, `delete_password`
/// returns `false` and no error, and the entries stay as they are; where it
/// is present, `delete_password` returns `true`, `get_password` then finds
/// nothing, and a second `delete_password` returns `false`.
pub proof fn law_delete_is_idempotent(
    b: Broker,
    store: Store,
    service: Seq<char>,
    account: Seq<char>,
)
    requires
        key_accepted(b, service, account),
    ensures
        ({
            let (deleted, after) = delete_password(b, store, service, account);
            &&& stored(b, store, service, account) is None ==> (deleted matches Ok(false))
                && after.entries == store.entries
            &&& stored(b, store, service, account) is Some ==> (deleted matches Ok(true))
            &&& (get_password(b, after, service, account).0 matches Ok(None))
            &&& (delete_password(b, after, service, account).0 matches Ok(false))
        }),
{
    law_delete_clears_the_store(b, store, service, account);
    let after = delete_password(b, store, service, account).1;
    law_get_reads_the_store(b, after, service, account);
    law_delete_clears_the_store(b, after, service, account);
}

/// An empty service or account name is `Invalid` for every operation, before
/// anything is asked of the store.
pub proof fn law_empty_name_is_invalid(
    b: Broker,
    service: Seq<char>,
    account: Seq<char>,
    secret: Seq<u8>,
)
    requires
        service.len() == 0 || account.len() == 0,
    ensures
        set_plan(b, service, account, secret) matches Err(ErrorOf::Invalid),
        get_plan(b, service, account) matches Err(ErrorOf::Invalid),
        delete_plan(b, service, account) matches Err(ErrorOf::Invalid),
        service.len() == 0 ==> find_plan(b, service) matches Err(ErrorOf::Invalid),
{
}

/// The name under which a store lists the entry of an account.
spec fn listed_name(platform: Platform, service: Seq<char>, account: Seq<char>) -> Seq<char> {
    match platform {
        Platform::Windows => target_name(service, account),
        _ => account,
    }
}

/// A record shows an entry exactly where it has the entry's listed name and
/// secret and the account is well formed.
proof fn lemma_entry_of(
    platform: Platform,
    service: Seq<char>,
    record: RecordView,
    account: Seq<char>,
    secret: Seq<u8>,
)
    ensures
        entry_of(platform, service, record) == Some((account, secret)) <==> well_formed(account)
            && record.name == Some(listed_name(platform, service, account)) && record.secret
            == secret,
{
    if platform is Windows && record.name is Some {
        lemma_account_in(service, record.name->0, account);
    }
}

/// The entries shown are those that some record of the list shows.
proof fn lemma_owned_shows(
    platform: Platform,
    service: Seq<char>,
    records: Seq<RecordView>,
    entry: (Seq<char>, Seq<u8>),
)
    ensures
        owned(platform, service, records).contains(entry) <==> exists|i: int|
            0 <= i < records.len() && #[trigger] entry_of(platform, service, records[i]) == Some(
                entry,
            ),
    decreases records.len(),
{
    if records.len() > 0 {
        let init = records.drop_last();
        let before = owned(platform, service, init);
        let all = owned(platform, service, records);
        lemma_owned_shows(platform, service, init, entry);
        if all.contains(entry) {
            let k = choose|k: int| 0 <= k < all.len() && all[k] == entry;
            if k < before.len() {
                let i = choose|i: int|
                    0 <= i < init.len() && #[trigger] entry_of(platform, service, init[i]) == Some(
                        entry,
                    );
                assert(entry_of(platform, service, records[i]) == Some(entry));
            }
        }
        if exists|i: int|
            0 <= i < records.len() && #[trigger] entry_of(platform, service, records[i]) == Some(
                entry,
            ) {
            let i = choose|i: int|
                0 <= i < records.len() && #[trigger] entry_of(platform, service, records[i])
                    == Some(entry);
            if i < init.len() {
                assert(entry_of(platform, service, init[i]) == Some(entry));
                let k = choose|k: int| 0 <= k < before.len() && before[k] == entry;
                assert(all[k] == entry);
            } else {
                assert(all[all.len() - 1] == entry);
            }
        }
    }
}

/// Records with different names show different entries.
proof fn lemma_owned_distinct(platform: Platform, service: Seq<char>, records: Seq<RecordView>)
    requires
        forall|i: int, j: int|
            0 <= i < j < records.len() && (#[trigger] records[i]).name is Some ==> records[i].name
                != (#[trigger] records[j]).name,
    ensures
        owned(platform, service, records).no_duplicates(),
    decreases records.len(),
{
    if records.len() > 0 {
        let init = records.drop_last();
        let last = records.last();
        let before = owned(platform, service, init);
        assert forall|i: int, j: int|
            0 <= i < j < init.len() && (#[trigger] init[i]).name is Some implies init[i].name != (
        #[trigger] init[j]).name by {
            assert(init[i] == records[i] && init[j] == records[j]);
        }
        lemma_owned_distinct(platform, service, init);
        match entry_of(platform, service, last) {
            Some(entry) => {
                lemma_owned_shows(platform, service, init, entry);
                if before.contains(entry) {
                    let i = choose|i: int|
                        0 <= i < init.len() && #[trigger] entry_of(platform, service, init[i])
                            == Some(entry);
                    lemma_entry_of(platform, service, init[i], entry.0, entry.1);
                    lemma_entry_of(platform, service, last, entry.0, entry.1);
                    assert(records[i].name == records[records.len() - 1].name);
                }
                assert(!before.contains(entry));
            },
            None => {},
        }
    }
}

/// Enumeration shows the store: `find_credentials` appends to the output
/// sequence, each once, exactly the pairs of account and secret that the
/// store holds under the service. It leaves the entries as they are.
pub proof fn law_find_credentials_lists_the_store(
    b: Broker,
    store: Store,
    service: Seq<char>,
    listing: Seq<RecordView>,
    out: Seq<(Seq<char>, Seq<u8>)>,
)
    requires
        service_accepted(b, service),
        lists(store, scope(b.platform(), service), listing),
    ensures
        ({
            let (result, filled, after) = find_credentials(b, store, service, listing, out);
            let fresh = owned(b.platform(), service, listing);
            &&& result is Ok
            &&& after == opened(b, store)
            &&& filled == out + fresh
            &&& fresh.no_duplicates()
            &&& forall|account: Seq<char>, secret: Seq<u8>| #[trigger]
                fresh.contains((account, secret)) <==> well_formed(account) && stored(
                    b,
                    store,
                    service,
                    account,
                ) == Some(secret)
        }),
{
    let platform = b.platform();
    let range = scope(platform, service);
    let fresh = owned(platform, service, listing);
    lemma_settle(b, store, RequestOf::Search { scope: range }, listing);
    lemma_owned_distinct(platform, service, listing);
    assert forall|account: Seq<char>, secret: Seq<u8>| #[trigger]
        fresh.contains((account, secret)) <==> well_formed(account) && stored(
            b,
            store,
            service,
            account,
        ) == Some(secret) by {
        let name = listed_name(platform, service, account);
        lemma_owned_shows(platform, service, listing, (account, secret));
        if fresh.contains((account, secret)) {
            let i = choose|i: int|
                0 <= i < listing.len() && #[trigger] entry_of(platform, service, listing[i])
                    == Some((account, secret));
            lemma_entry_of(platform, service, listing[i], account, secret);
        }
        if well_formed(account) && stored(b, store, service, account) == Some(secret) {
            assert(store.entries.contains_key(entry_named(range, name)));
            let i = choose|i: int|
                0 <= i < listing.len() && #[trigger] listing[i] == (RecordView {
                    name: Some(name),
                    secret,
                });
            lemma_entry_of(platform, service, listing[i], account, secret);
        }
    }
}

/// Enumeration is complete: where the store holds nothing under a service
/// and two secrets are set under it, `find_credentials` appends the two
/// pairs, each once and nothing else, in the order of the listing. Where
/// both are set under one account, the secrets are the same.
pub proof fn law_enumeration_is_complete(
    b: Broker,
    store: Store,
    service: Seq<char>,
    one: (Seq<char>, Seq<u8>),
    two: (Seq<char>, Seq<u8>),
    listing: Seq<RecordView>,
    out: Seq<(Seq<char>, Seq<u8>)>,
)
    requires
        key_accepted(b, service, one.0),
        key_accepted(b, service, two.0),
        secret_accepted(b, one.1),
        secret_accepted(b, two.1),
        one.0 == two.0 ==> one.1 == two.1,
        forall|account: Seq<char>| #[trigger] stored(b, store, service, account) is None,
        lists(
            set_password(
                b,
                set_password(b, store, service, one.0, one.1).1,
                service,
                two.0,
                two.1,
            ).1,
            scope(b.platform(), service),
            listing,
        ),
    ensures
        ({
            let once = set_password(b, store, service, one.0, one.1).1;
            let twice = set_password(b, once, service, two.0, two.1).1;
            let (result, filled, _) = find_credentials(b, twice, service, listing, out);
            let fresh = owned(b.platform(), service, listing);
            &&& result is Ok
            &&& filled == out + fresh
            &&& fresh.no_duplicates()
            &&& fresh.to_set() == set![one, two]
        }),
{
    let once = set_password(b, store, service, one.0, one.1).1;
    let twice = set_password(b, once, service, two.0, two.1).1;
    let fresh = owned(b.platform(), service, listing);
    lemma_name_lengths(service, one.0);
    law_set_writes_the_store(b, store, service, one.0, one.1);
    law_set_writes_the_store(b, once, service, two.0, two.1);
    law_find_credentials_lists_the_store(b, twice, service, listing, out);
    assert forall|entry: (Seq<char>, Seq<u8>)| fresh.to_set().contains(entry) <==> set![
        one,
        two,
    ].contains(entry) by {
        assert(fresh.contains((entry.0, entry.1)) <==> fresh.to_set().contains(entry));
        assert(stored(b, store, service, entry.0) is None);
        if address(b.platform(), service, entry.0) == address(b.platform(), service, one.0) {
            law_address_names_one_key(b.platform(), service, entry.0, service, one.0);
        }
        if address(b.platform(), service, entry.0) == address(b.platform(), service, two.0) {
            law_address_names_one_key(b.platform(), service, entry.0, service, two.0);
        }
    }
}

/// Enumeration is isolated: a secret set under another service adds nothing
/// to what `find_credentials` appends for this one. Every pair appended was
/// in the store under this service before.
pub proof fn law_enumeration_is_isolated(
    b: Broker,
    store: Store,
    service: Seq<char>,
    other_service: Seq<char>,
    account: Seq<char>,
    secret: Seq<u8>,
    listing: Seq<RecordView>,
    out: Seq<(Seq<char>, Seq<u8>)>,
)
    requires
        service_accepted(b, service),
        key_accepted(b, other_service, account),
        secret_accepted(b, secret),
        other_service != service,
        lists(
            set_password(b, store, other_service, account, secret).1,
            scope(b.platform(), service),
            listing,
        ),
    ensures
        ({
            let after = set_password(b, store, other_service, account, secret).1;
            let (result, filled, _) = find_credentials(b, after, service, listing, out);
            let fresh = owned(b.platform(), service, listing);
            &&& result is Ok
            &&& filled == out + fresh
            &&& forall|found: Seq<char>, held: Seq<u8>| #[trigger]
                fresh.contains((found, held)) <==> well_formed(found) && stored(
                    b,
                    store,
                    service,
                    found,
                ) == Some(held)
        }),
{
    let after = set_password(b, store, other_service, account, secret).1;
    let fresh = owned(b.platform(), service, listing);
    law_find_credentials_lists_the_store(b, after, service, listing, out);
    assert forall|found: Seq<char>, held: Seq<u8>| #[trigger]
        fresh.contains((found, held)) <==> well_formed(found) && stored(
            b,
            store,
            service,
            found,
        ) == Some(held) by {
        law_set_keeps_other_keys(b, store, other_service, account, secret, service, found);
    }
}

/// `find_password` returns the secret of a service that has one entry,
/// `None` for a service that has none, and `Ambiguous` for a service that
/// has entries under two accounts.
pub proof fn law_find_password_needs_one_entry(
    b: Broker,
    store: Store,
    service: Seq<char>,
    listing: Seq<RecordView>,
    account: Seq<char>,
    other_account: Seq<char>,
)
    requires
        service_accepted(b, service),
        lists(store, scope(b.platform(), service), listing),
        well_formed(account),
        well_formed(other_account),
    ensures
        ({
            let result = find_password(b, store, service, listing).0;
            let held = stored(b, store, service, account);
            &&& (forall|any: Seq<char>|
                well_formed(any) ==> #[trigger] stored(b, store, service, any) is None) ==> (
            result matches Ok(None))
            &&& held is Some && (forall|any: Seq<char>|
                well_formed(any) && any != account ==> #[trigger] stored(b, store, service, any)
                    is None) ==> (result matches Ok(Some(secret)) && Some(secret) == held)
            &&& held is Some && account != other_account && stored(
                b,
                store,
                service,
                other_account,
            ) is Some ==> (result matches Err(ErrorOf::Ambiguous))
        }),
{
    let fresh = owned(b.platform(), service, listing);
    let held = stored(b, store, service, account);
    lemma_settle(b, store, RequestOf::Search { scope: scope(b.platform(), service) }, listing);
    law_find_credentials_lists_the_store(b, store, service, listing, Seq::empty());
    if forall|any: Seq<char>|
        well_formed(any) ==> #[trigger] stored(b, store, service, any) is None {
        if fresh.len() > 0 {
            assert(fresh.contains((fresh[0].0, fresh[0].1)));
        }
    }
    if held is Some && (forall|any: Seq<char>|
        well_formed(any) && any != account ==> #[trigger] stored(b, store, service, any)
            is None) {
        assert(fresh.contains((account, held->0)));
        assert forall|k: int| 0 <= k < fresh.len() implies fresh[k] == (account, held->0) by {
            assert(fresh.contains((fresh[k].0, fresh[k].1)));
        }
        if fresh.len() > 1 {
            assert(fresh[0] == fresh[1]);
        }
    }
    if held is Some && account != other_account && stored(b, store, service, other_account)
        is Some {
        let other = stored(b, store, service, other_account)->0;
        assert(fresh.contains((account, held->0)));
        assert(fresh.contains((other_account, other)));
    }
}

/// An error of `set_password` keeps the secret to itself: whatever the store
/// replied, the text of the error shows the secret only where the words of
/// its kind and the native code, without any native message, already do.
pub proof fn law_set_error_keeps_secret(b: Broker, secret: Seq<u8>, reply: ReplyView)
    requires
        set_result(b, secret, reply) matches Err(e) && !occurs(
            secret,
            rendered(without_message(e)),
        ),
    ensures
        set_result(b, secret, reply) matches Err(e) && !occurs(secret, rendered(e)),
{
    let native = match reply {
        ReplyOf::Failed(fault) => failure(b.platform(), fault),
        _ => failure(b.platform(), unexpected()),
    };
    law_text_keeps_secret(native, secret);
}

/// Under strict portability a key is accepted on one platform exactly where
/// it is accepted on every other.
pub proof fn law_strict_keys_are_portable(
    b: Broker,
    other: Broker,
    service: Seq<char>,
    account: Seq<char>,
)
    requires
        b.portability() is Strict,
        other.portability() is Strict,
    ensures
        key_accepted(b, service, account) == key_accepted(other, service, account),
        service_accepted(b, service) == service_accepted(other, service),
        key_accepted(b, service, account) == (admits(Portability::Strict, service) && admits(
            Portability::Strict,
            account,
        )),
        service_accepted(b, service) == admits(Portability::Strict, service),
{
    lemma_name_lengths(service, account);
}

/// No operation retries but once. An exchange goes on from its first
/// request only to update a duplicate on Keychain or to unlock the Secret
/// Service's collection; from an unlock that succeeded only to the request
/// that waited; and from there no further. Every step leaves fewer requests
/// to come.
pub proof fn law_one_fallback(b: Broker, exchange: ExchangeView, reply: ReplyView)
    ensures
        match step(b, exchange, reply) {
            ProgressOf::Settled(_) => true,
            ProgressOf::Continue(next) => {
                &&& remaining(next.stage) < remaining(exchange.stage)
                &&& exchange.stage is First && next.stage is Last ==> b.platform() is MacOs
                    && exchange.request is Add && next.request is Update && (
                reply matches ReplyOf::Failed(FaultOf::Status { code, .. }) && code
                    == DUPLICATE_ITEM)
                &&& next.stage is Unlocking ==> b.platform() is Linux && reply == ReplyView::Failed(
                    FaultOf::Locked,
                ) && next.request is Unlock && next.held == Some(exchange.request)
                &&& exchange.stage is Unlocking ==> reply is Done && exchange.held == Some(
                    next.request,
                )
            },
        },
{
}

/// A store is asked only what it understands: every operation begins with an
/// exchange that is regular, and what follows a regular exchange is regular.
pub proof fn law_requests_fit_the_platform(
    b: Broker,
    service: Seq<char>,
    account: Seq<char>,
    secret: Seq<u8>,
    exchange: ExchangeView,
    reply: ReplyView,
)
    ensures
        set_plan(b, service, account, secret) matches Ok(begun) ==> regular(b, begun),
        get_plan(b, service, account) matches Ok(begun) ==> regular(b, begun),
        delete_plan(b, service, account) matches Ok(begun) ==> regular(b, begun),
        find_plan(b, service) matches Ok(begun) ==> regular(b, begun),
        regular(b, exchange) ==> (step(b, exchange, reply) matches ProgressOf::Continue(next)
            ==> regular(b, next)),
{
}

/// A failure is surfaced: where the store reports a fault that is not the
/// absence of an entry, every operation returns the error that the fault
/// stands for, and `find_credentials` leaves the output sequence as it was.
/// Absence alone is a result: `None`, `false`, or nothing appended.
pub proof fn law_failures_are_surfaced(
    b: Broker,
    service: Seq<char>,
    secret: Seq<u8>,
    fault: FaultView,
    out: Seq<(Seq<char>, Seq<u8>)>,
)
    requires
        service_accepted(b, service),
    ensures
        ({
            let e = failure(b.platform(), fault);
            let reply = ReplyView::Failed(fault);
            &&& (set_result(b, secret, reply) matches Err(shown) && shown == discreet(e, secret))
            &&& e is NotFound ==> {
                &&& (get_result(b, reply) matches Ok(None))
                &&& (delete_result(b, reply) matches Ok(false))
                &&& (find_password_result(b, service, reply) matches Ok(None))
                &&& find_credentials_result(b, service, reply, out).0 is Ok
                &&& find_credentials_result(b, service, reply, out).1 == out
            }
            &&& !(e is NotFound) ==> {
                &&& (get_result(b, reply) matches Err(shown) && shown == e)
                &&& (delete_result(b, reply) matches Err(shown) && shown == e)
                &&& (find_password_result(b, service, reply) matches Err(shown) && shown == e)
                &&& (find_credentials_result(b, service, reply, out).0 matches Err(shown) && shown
                    == e)
                &&& find_credentials_result(b, service, reply, out).1 == out
            }
        }),
{
}

} // verus!
