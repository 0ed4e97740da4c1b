//! Credential Manager: one composite target name for each entry, an
//! enumeration by wildcard, and the status codes of `GetLastError`.
use vstd::prelude::*;
use vstd::string::*;
use crate::error::{Error, ErrorOf, ErrorView};
use crate::key::{
    chars_of, is_well_formed, lemma_units_add, lemma_units_one, units, well_formed, SEPARATOR,
};

verus! {

/// The longest target name that Credential Manager holds, in UTF-16 code
/// units.
pub const TARGET_LIMIT: usize = 32767;

/// The largest secret that Credential Manager holds, in bytes.
pub const BLOB_LIMIT: usize = 2560;

/// The character that ends an enumeration filter.
pub const WILDCARD: char = '*';

/// `ERROR_ACCESS_DENIED`
pub const ACCESS_DENIED: i64 = 5;

/// `ERROR_NOT_SUPPORTED`
pub const NOT_SUPPORTED: i64 = 50;

/// `ERROR_INVALID_PARAMETER`
pub const INVALID_PARAMETER: i64 = 87;

/// `ERROR_INVALID_FLAGS`
pub const INVALID_FLAGS: i64 = 1004;

/// `ERROR_NOT_FOUND`
pub const NOT_FOUND: i64 = 1168;

/// `ERROR_NO_SUCH_LOGON_SESSION`
pub const NO_SUCH_LOGON_SESSION: i64 = 1312;

/// `ERROR_BAD_USERNAME`
pub const BAD_USERNAME: i64 = 2202;

/// The target name of an entry: service, separator, account.
pub open spec fn target_name(service: Seq<char>, account: Seq<char>) -> Seq<char> {
    service + seq![SEPARATOR] + account
}

/// The filter that lists the target names that begin with the service.
pub open spec fn filter_for(service: Seq<char>) -> Seq<char> {
    service + seq![WILDCARD]
}

/// The account of a target name under `service`, where the name is the
/// service, the separator and an account name; `None` for every other name.
pub open spec fn account_in(service: Seq<char>, target: Seq<char>) -> Option<Seq<char>> {
    let n = service.len() as int;
    let end = target.len() as int;
    if n < end && target.subrange(0, n) == service && target[n] == SEPARATOR && well_formed(
        target.subrange(n + 1, end),
    ) {
        Some(target.subrange(n + 1, end))
    } else {
        None
    }
}

/// What a status code of Credential Manager means.
pub open spec fn status_error(code: i64, message: Seq<char>) -> ErrorView {
    if code == NOT_FOUND {
        ErrorOf::NotFound
    } else if code == ACCESS_DENIED {
        ErrorOf::AccessDenied
    } else if code == NO_SUCH_LOGON_SESSION || code == NOT_SUPPORTED {
        ErrorOf::Unsupported
    } else if code == INVALID_PARAMETER || code == INVALID_FLAGS || code == BAD_USERNAME {
        ErrorOf::Invalid
    } else {
        ErrorOf::Platform { code, message }
    }
}

/// A target name is as long as service, separator and account together; a
/// filter is one unit longer than the service.
pub proof fn lemma_name_lengths(service: Seq<char>, account: Seq<char>)
    ensures
        units(target_name(service, account)) == units(service) + 1 + units(account),
        units(filter_for(service)) == units(service) + 1,
{
    lemma_units_one(SEPARATOR);
    lemma_units_one(WILDCARD);
    lemma_units_add(service, seq![SEPARATOR]);
    lemma_units_add(service + seq![SEPARATOR], account);
    lemma_units_add(service, seq![WILDCARD]);
}

/// A target name names one entry only: it gives back the account it was made
/// of, and no other account is found in it.
pub proof fn lemma_account_in(service: Seq<char>, target: Seq<char>, account: Seq<char>)
    ensures
        account_in(service, target) == Some(account) <==> well_formed(account) && target
            == target_name(service, account),
{
    let n = service.len() as int;
    let end = target.len() as int;
    if well_formed(account) && target == target_name(service, account) {
        assert(target.subrange(0, n) =~= service);
        assert(target.subrange(n + 1, end) =~= account);
    }
    if account_in(service, target) == Some(account) {
        assert(target =~= target_name(service, account));
    }
}

/// Builds the target name of an entry.
pub fn compose_target(service: &str, account: &str) -> (r: String)
    ensures
        r@ == target_name(service@, account@),
{
    proof {
        reveal_strlit("/");
    }
    String::from_str(service).concat("/").concat(account)
}

/// Builds the filter that lists a service's target names.
pub fn compose_filter(service: &str) -> (r: String)
    ensures
        r@ == filter_for(service@),
{
    proof {
        reveal_strlit("*");
    }
    String::from_str(service).concat("*")
}

/// Takes the account out of a target name that was listed for `service`.
/// A name of another shape belongs to someone else and gives `None`.
pub fn split_target(service: &str, target: &str) -> (r: Option<String>)
    ensures
        match r {
            Some(account) => account_in(service@, target@) == Some(account@),
            None => account_in(service@, target@) is None,
        },
{
    let prefix = chars_of(service);
    let name = chars_of(target);
    let n: usize = prefix.len();
    let end: usize = name.len();
    if end <= n {
        return None;
    }
    let mut i: usize = 0;
    while i < n
        invariant
            n == prefix@.len(),
            n < name@.len(),
            i <= n,
            prefix@ == service@,
            name@ == target@,
            forall|k: int| 0 <= k < i ==> name@[k] == prefix@[k],
        decreases n - i,
    {
        if name[i] != prefix[i] {
            return None;
        }
        i += 1;
    }
    proof {
        assert(target@.subrange(0, n as int) =~= service@);
    }
    if name[n] != SEPARATOR {
        return None;
    }
    let rest = target.substring_char(n + 1, end);
    if is_well_formed(rest) {
        Some(rest.to_owned())
    } else {
        None
    }
}

/// Places a status code of Credential Manager in the error vocabulary.
pub fn classify(code: i64, message: String) -> (r: Error)
    ensures
        r@ == status_error(code, message@),
{
    if code == NOT_FOUND {
        ErrorOf::NotFound
    } else if code == ACCESS_DENIED {
        ErrorOf::AccessDenied
    } else if code == NO_SUCH_LOGON_SESSION || code == NOT_SUPPORTED {
        ErrorOf::Unsupported
    } else if code == INVALID_PARAMETER || code == INVALID_FLAGS || code == BAD_USERNAME {
        ErrorOf::Invalid
    } else {
        ErrorOf::Platform { code, message }
    }
}

} // verus!
