//! Growable text buffers and a heap-boxed integer, exercised the way the
//! ownership demonstration does: append in place, duplicate into an
//! independent copy, move a buffer out of a function and through one, and
//! read a boxed value along every dereference path.

use vstd::prelude::*;
use vstd::string::StringExecFns;

verus! {

/// Builds a fresh buffer inside the function and transfers it out to the
/// caller through the return value.
pub fn gives_ownership() -> (s: String)
    ensures
        s@ == "yours"@,
{
    String::from_str("yours")
}

/// Takes ownership of a buffer and transfers it straight back out,
/// unchanged, through the return value.
pub fn takes_and_gives_back(a_string: String) -> (s: String)
    ensures
        s == a_string,
{
    a_string
}

/// Appends a suffix to the buffer in place: afterwards the buffer holds the
/// concatenation of its old contents and the suffix.
pub fn append_suffix(buffer: &mut String, suffix: &str)
    ensures
        final(buffer)@ == old(buffer)@ + suffix@,
{
    buffer.append(suffix);
}

/// Duplicates a buffer: the copy has equal contents, and the original is
/// still usable by the caller.
pub fn duplicate_buffer(buffer: &String) -> (copy: String)
    ensures
        copy@ == buffer@,
{
    buffer.clone()
}

/// Duplicates the buffer and then mutates the original: the copy keeps the
/// old contents, so the two buffers' storage is independent.
pub fn duplicate_then_append(buffer: &mut String, suffix: &str) -> (copy: String)
    ensures
        copy@ == old(buffer)@,
        final(buffer)@ == old(buffer)@ + suffix@,
{
    let copy = buffer.clone();
    buffer.append(suffix);
    copy
}

/// Reads the boxed integer along three paths: one dereference of the box,
/// two dereferences through a borrowed box, and one dereference of a direct
/// borrow of the heap value. All three reads agree with the boxed value.
pub fn boxed_reads(x: &Box<i32>) -> (reads: (i32, i32, i32))
    ensures
        reads.0 == **x,
        reads.1 == **x,
        reads.2 == **x,
{
    let a: i32 = **x;
    let r1: &Box<i32> = x;
    let b: i32 = **r1;
    let r2: &i32 = &**x;
    let c: i32 = *r2;
    (a, b, c)
}

/// Increments the boxed integer in place through the indirection.
pub fn increment_boxed(x: &mut Box<i32>)
    requires
        **old(x) < i32::MAX,
    ensures
        **final(x) == **old(x) + 1,
{
    **x = **x + 1;
}

} // verus!
