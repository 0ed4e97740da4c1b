//! The key of an entry: a service name and an account name, and the one rule
//! by which every platform accepts or rejects them.
use vstd::prelude::*;
use vstd::string::*;

verus! {

/// The character that joins service and account where a store addresses an
/// entry by one composite name. No service or account name may hold it.
pub const SEPARATOR: char = '/';

/// The longest name, in UTF-16 code units, that every platform's store can
/// hold: two such names and the separator make the longest composite name.
pub const PORTABLE_LIMIT: usize = 16383;

/// Whether names are held to the limit that every platform accepts, or only
/// to the limit of the platform in use.
#[derive(Debug, Clone, Copy, PartialEq, Eq)]
pub enum Portability {
    /// The platform in use decides how long a name may be.
    Deferred,
    /// A name longer than `PORTABLE_LIMIT` is rejected on every platform.
    Strict,
}

/// A service or account name: not empty, and free of the separator.
pub open spec fn well_formed(id: Seq<char>) -> bool {
    id.len() > 0 && !id.contains(SEPARATOR)
}

/// The number of UTF-16 code units that a character takes.
pub open spec fn width(c: char) -> nat {
    if c as u32 >= 0x10000 {
        2
    } else {
        1
    }
}

/// The length of a name as the stores measure it: in UTF-16 code units.
pub open spec fn units(id: Seq<char>) -> nat
    decreases id.len(),
{
    if id.len() == 0 {
        0
    } else {
        units(id.drop_last()) + width(id.last())
    }
}

/// The names that are accepted under `mode`.
pub open spec fn admits(mode: Portability, id: Seq<char>) -> bool {
    well_formed(id) && (mode is Strict ==> units(id) <= PORTABLE_LIMIT)
}

/// The length of two names in a row is the sum of their lengths.
pub proof fn lemma_units_add(left: Seq<char>, right: Seq<char>)
    ensures
        units(left + right) == units(left) + units(right),
    decreases right.len(),
{
    if right.len() > 0 {
        lemma_units_add(left, right.drop_last());
        assert((left + right).drop_last() =~= left + right.drop_last());
    }
}

/// The length of a name of one character.
pub proof fn lemma_units_one(c: char)
    ensures
        units(seq![c]) == width(c),
{
    assert(units(seq![c]) == units(seq![c].drop_last()) + width(seq![c].last()));
}

/// The characters of a string, one by one.
pub fn chars_of(s: &str) -> (r: Vec<char>)
    ensures
        r@ == s@,
{
    let mut out: Vec<char> = Vec::new();
    for c in it: s.chars()
        invariant
            it.seq() == s@,
            out@ == s@.take(it.index()),
    {
        out.push(c);
    }
    out
}

/// Whether `id` can name a service or an account.
pub fn is_well_formed(id: &str) -> (r: bool)
    ensures
        r == well_formed(id@),
{
    let mut clean = true;
    let mut empty = true;
    for c in it: id.chars()
        invariant
            it.seq() == id@,
            empty == (it.index() == 0),
            clean == !id@.take(it.index()).contains(SEPARATOR),
    {
        proof {
            let before = id@.take(it.index());
            let after = id@.take(it.index() + 1);
            if before.contains(SEPARATOR) {
                let k = choose|k: int| 0 <= k < before.len() && before[k] == SEPARATOR;
                assert(after[k] == SEPARATOR);
            }
            if c == SEPARATOR {
                assert(after[it.index()] == SEPARATOR);
            }
        }
        if c == SEPARATOR {
            clean = false;
        }
        empty = false;
    }
    proof {
        assert(id@.take(id@.len() as int) =~= id@);
    }
    clean && !empty
}

/// The length of `id` in UTF-16 code units, where it is within `limit`.
pub fn measure(id: &str, limit: usize) -> (r: Option<usize>)
    ensures
        r == if units(id@) <= limit {
            Some(units(id@) as usize)
        } else {
            None
        },
{
    let mut length: usize = 0;
    let mut over = false;
    for c in it: id.chars()
        invariant
            it.seq() == id@,
            over ==> units(id@.take(it.index())) > limit,
            !over ==> length == units(id@.take(it.index())) && length <= limit,
    {
        proof {
            assert(id@.take(it.index() + 1).drop_last() =~= id@.take(it.index()));
        }
        if !over {
            let wide: usize = if c as u32 >= 0x10000 {
                2
            } else {
                1
            };
            if limit - length < wide {
                over = true;
            } else {
                length += wide;
            }
        }
    }
    proof {
        assert(id@.take(id@.len() as int) =~= id@);
    }
    if over {
        None
    } else {
        Some(length)
    }
}

/// Whether `id` is accepted as a service or account name under `mode`.
pub fn check(mode: Portability, id: &str) -> (r: bool)
    ensures
        r == admits(mode, id@),
{
    if !is_well_formed(id) {
        return false;
    }
    match mode {
        Portability::Deferred => true,
        Portability::Strict => measure(id, PORTABLE_LIMIT).is_some(),
    }
}

} // verus!
