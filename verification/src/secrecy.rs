//! Keeping a secret out of the text of an error.
use vstd::prelude::*;
use vstd::string::*;
use vstd::utf8::encode_utf8;
use crate::error::{Error, ErrorOf, ErrorView, text_of, without_message};

verus! {

/// `needle` stands somewhere in `hay`, byte for byte.
pub open spec fn occurs(needle: Seq<u8>, hay: Seq<u8>) -> bool {
    exists|i: int| starts_at(needle, hay, i)
}

/// `needle` stands in `hay` at index `i`.
pub open spec fn starts_at(needle: Seq<u8>, hay: Seq<u8>, i: int) -> bool {
    0 <= i && i + needle.len() <= hay.len() && hay.subrange(i, i + needle.len()) == needle
}

/// The bytes of an error's text, in UTF-8.
pub open spec fn rendered(e: ErrorView) -> Seq<u8> {
    encode_utf8(text_of(e))
}

/// The error as an operation on `secret` may return it: a native message that
/// would bring the secret into the text is dropped.
pub open spec fn discreet(e: ErrorView, secret: Seq<u8>) -> ErrorView {
    if e is Platform && occurs(secret, rendered(e)) {
        without_message(e)
    } else {
        e
    }
}

fn found_at(hay: &[u8], needle: &[u8], i: usize) -> (r: bool)
    requires
        i + needle@.len() <= hay@.len(),
    ensures
        r == starts_at(needle@, hay@, i as int),
{
    let n: usize = needle.len();
    let h: usize = hay.len();
    let mut j: usize = 0;
    while j < n
        invariant
            n == needle@.len(),
            h == hay@.len(),
            i + n <= h,
            j <= n,
            forall|k: int| 0 <= k < j ==> hay@[i + k] == needle@[k],
        decreases n - j,
    {
        if hay[i + j] != needle[j] {
            return false;
        }
        j += 1;
    }
    proof {
        assert(hay@.subrange(i as int, i + n) =~= needle@);
    }
    true
}

/// Whether `needle` stands somewhere in `hay`.
pub fn contains(hay: &[u8], needle: &[u8]) -> (r: bool)
    ensures
        r == occurs(needle@, hay@),
{
    let n: usize = needle.len();
    let h: usize = hay.len();
    if n > h {
        return false;
    }
    let last: usize = h - n;
    let mut i: usize = 0;
    loop
        invariant
            n == needle@.len(),
            h == hay@.len(),
            last == h - n,
            i <= last,
            forall|k: int| 0 <= k < i ==> !starts_at(needle@, hay@, k),
        decreases last - i,
    {
        if found_at(hay, needle, i) {
            return true;
        }
        if i == last {
            return false;
        }
        i += 1;
    }
}

/// Drops the native message of `e` where the text of `e` would show `secret`.
pub fn scrub(e: Error, secret: &[u8]) -> (r: Error)
    ensures
        r@ == discreet(e@, secret@),
{
    match e {
        ErrorOf::Platform { code, message } => {
            let whole = ErrorOf::Platform { code, message };
            let shown = whole.text();
            if contains(shown.as_str().as_bytes(), secret) {
                ErrorOf::Platform { code, message: String::new() }
            } else {
                whole
            }
        },
        other => other,
    }
}

/// The text of an error that an operation on `secret` returns shows the
/// secret only where the kind's own words and the native code already do.
pub proof fn law_text_keeps_secret(e: ErrorView, secret: Seq<u8>)
    requires
        !occurs(secret, rendered(without_message(e))),
    ensures
        !occurs(secret, rendered(discreet(e, secret))),
{
}

} // verus!
