//! Borrowing instead of moving: shared and exclusive references to owned
//! text, with contracts that say how a callee may and may not change what
//! it borrows.

use vstd::prelude::*;
use vstd::string::StrSliceExecFns;
use vstd::string::StringExecFns;

verus! {

/// Reads the length through a shared borrow; the caller keeps ownership
/// and the string is untouched.
pub fn calculate_length_two(s: &String) -> (length: usize)
    ensures
        length as nat == s@.len(),
{
    s.as_str().unicode_len()
}

/// A shared borrow hands out read access only, so the string is provably
/// unchanged across the call.
pub fn main_four() {
    let s = String::from_str("hello");
    change(&s);
    assert(s@ == "hello"@);
}

/// Holds a shared borrow of the string. Through `&String` the callee can
/// read but never grow or truncate, which is what lets the caller in
/// [`main_four`] rely on the contents afterwards.
pub fn change(some_string: &String) {
    let _readable: &str = some_string.as_str();
}

/// An exclusive borrow lets the callee mutate; the contract of
/// [`change_two`] says exactly what the new contents are.
pub fn main_five() {
    let mut s = String::from_str("hello");
    change_two(&mut s);
    proof {
        reveal_strlit("hello");
        reveal_strlit(", world");
        reveal_strlit("hello, world");
    }
    assert(s@ =~= "hello, world"@);
}

/// Appends through an exclusive borrow: the new value is the old value
/// followed by `", world"`.
pub fn change_two(some_string: &mut String)
    ensures
        final(some_string)@ == old(some_string)@ + ", world"@,
{
    some_string.append(", world");
}

/// Only one exclusive borrow may live at a time, but two may follow one
/// another: each block ends its borrow before the next begins, and the
/// contracts compose.
pub fn asd() {
    let mut s = String::from_str("hello");
    {
        change_two(&mut s);
    }
    change_two(&mut s);
    assert(s@ == "hello"@ + ", world"@ + ", world"@);
}

/// The borrow returned by [`dangle`] is of static text, so it outlives
/// every caller; an owned value from [`no_dangle`] does the same job.
pub fn main_six() {
    let borrowed = dangle();
    assert(borrowed@ == "hello"@);
}

/// A borrow of data owned by this function could not be returned — the
/// data would be dropped at the closing brace. A borrow of static text
/// lives for the whole program, so returning it is sound.
pub fn dangle() -> (s: &'static str)
    ensures
        s@ == "hello"@,
{
    "hello"
}

/// Moving the owned string out is the other way to let the caller keep
/// the text: ownership leaves, nothing is deallocated.
pub fn no_dangle() -> (s: String)
    ensures
        s@ == "hello"@,
{
    String::from_str("hello")
}

} // verus!
