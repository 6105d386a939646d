use vstd::prelude::*;
use vstd::utf8::{encode_utf8, valid_utf8};
use vstd::string::StringSliceAdditionalSpecFns;

verus! {

/// Calls `std::str::from_utf8`.  By its documentation it succeeds exactly
/// when the bytes are valid UTF-8 (here in the form of vstd's `valid_utf8`),
/// and then gives the string those bytes encode.
#[verifier::external_body]
pub(crate) fn utf8_str(b: &[u8]) -> (r: Option<&str>)
    ensures
        r is Some <==> valid_utf8(b@),
        r matches Some(s) ==> s.spec_bytes() == b@,
{
    std::str::from_utf8(b).ok()
}

/// Calls `String::capacity`.  Its documentation promises only that the
/// capacity is at least the length of the string in bytes; how much more
/// the allocator gave is left unsaid.
#[verifier::external_body]
pub(crate) fn string_capacity(s: &String) -> (r: usize)
    ensures
        r >= encode_utf8(s@).len(),
{
    s.capacity()
}


/// Calls `String::clear`: by its documentation the string becomes empty
/// (and keeps its capacity, which is left unsaid here).
#[verifier::external_body]
pub(crate) fn string_clear(s: &mut String)
    ensures
        final(s)@ == Seq::<char>::empty(),
{
    s.clear()
}

/// Calls `String::push_str`: by its documentation `t` is appended to the
/// string.
#[verifier::external_body]
pub(crate) fn string_push_str(s: &mut String, t: &str)
    ensures
        final(s)@ == old(s)@ + t@,
{
    s.push_str(t)
}

/// The string at index `i` of a slice, to change in place.
pub fn string_at_mut(v: &mut [String], i: usize) -> (s: &mut String)
    requires
        i < old(v)@.len(),
    ensures
        *s == old(v)@[i as int],
        final(v)@ == old(v)@.update(i as int, *final(s)),
{
    let (_left, right) = v.split_at_mut(i);
    let s = right.first_mut().unwrap();
    s
}
} // verus!
