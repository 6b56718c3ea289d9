//! Tables keyed by status code or by name, where a later entry replaces an
//! earlier one with the same key.
use vstd::prelude::*;

verus! {

/// The handle of a user function (a view, a hook or an error handler) that
/// the caller keeps; the library only stores and hands back handles.
pub type FuncId = usize;

/// The value of the last entry for `code`.
pub open spec fn code_lookup(hs: Seq<(u16, FuncId)>, code: u16) -> Option<FuncId>
    decreases hs.len(),
{
    if hs.len() == 0 {
        None
    } else if hs.last().0 == code {
        Some(hs.last().1)
    } else {
        code_lookup(hs.drop_last(), code)
    }
}

/// The value of the last entry named `name`.
pub open spec fn named_lookup<V>(hs: Seq<(String, V)>, name: Seq<char>) -> Option<V>
    decreases hs.len(),
{
    if hs.len() == 0 {
        None
    } else if hs.last().0@ == name {
        Some(hs.last().1)
    } else {
        named_lookup(hs.drop_last(), name)
    }
}

pub fn find_code(hs: &Vec<(u16, FuncId)>, code: u16) -> (r: Option<FuncId>)
    ensures
        r == code_lookup(hs@, code),
{
    let mut i: usize = hs.len();
    assert(hs@.subrange(0, i as int) =~= hs@);
    while i > 0
        invariant
            0 <= i <= hs@.len(),
            code_lookup(hs@.subrange(0, i as int), code) == code_lookup(hs@, code),
        decreases i,
    {
        assert(hs@.subrange(0, i as int).drop_last() =~= hs@.subrange(0, i - 1));
        if hs[i - 1].0 == code {
            return Some(hs[i - 1].1);
        }
        i = i - 1;
    }
    None
}

pub fn find_named<V: Copy>(hs: &Vec<(String, V)>, name: &str) -> (r: Option<V>)
    ensures
        r == named_lookup(hs@, name@),
{
    let key = name.to_owned();
    let mut i: usize = hs.len();
    assert(hs@.subrange(0, i as int) =~= hs@);
    while i > 0
        invariant
            0 <= i <= hs@.len(),
            key@ == name@,
            named_lookup(hs@.subrange(0, i as int), name@) == named_lookup(hs@, name@),
        decreases i,
    {
        assert(hs@.subrange(0, i as int).drop_last() =~= hs@.subrange(0, i - 1));
        if hs[i - 1].0 == key {
            return Some(hs[i - 1].1);
        }
        i = i - 1;
    }
    None
}

} // verus!
