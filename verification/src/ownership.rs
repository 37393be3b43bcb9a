//! Moving owned values: each function is a small verified example of how
//! ownership of heap-allocated text passes between scopes and functions.

use vstd::prelude::*;
use vstd::string::StrSliceExecFns;
use vstd::string::StringExecFns;

verus! {

/// A string literal is valid from its binding to the end of the scope.
pub fn do_something() {
    let s: &str = "hello";
    proof {
        reveal_strlit("hello");
    }
    assert(s@.len() == 5);
}

/// An owned, heap-allocated string built from a literal holds the same
/// characters as the literal.
pub fn do_another_thing() {
    let s = String::from_str("hello");
    assert(s@ == "hello"@);
}

/// The owned string is dropped when its scope ends; until then its
/// contents are exactly what it was built from.
pub fn do_anything() {
    let s = String::from_str("hello");
    proof {
        reveal_strlit("hello");
    }
    assert(s@.len() == 5);
}

/// Integers are copied on assignment: both bindings hold the value.
pub fn hello() {
    let x: i32 = 5;
    let y: i32 = x;
    assert(x == 5);
    assert(y == 5);
}

/// An owned string is moved on assignment: the new owner holds the
/// original contents.
pub fn bye() {
    let s1 = String::from_str("hello");
    let s2 = s1;
    assert(s2@ == "hello"@);
}

/// Takes ownership of its argument, which is dropped when this scope ends.
fn takes_ownership(some_string: String) {
    let _moved_here: String = some_string;
}

/// Receives a copy of its argument; the caller's binding stays valid.
fn makes_copy(some_integer: i32) {
    let _copied_here: i32 = some_integer;
}

/// Passing a value to a function moves or copies it, just as assignment
/// does: the string is gone after the call, the integer is still usable.
pub fn main_function() {
    let s = String::from_str("hello");
    takes_ownership(s);
    let x: i32 = 5;
    makes_copy(x);
    assert(x == 5);
}

/// Returning a value transfers ownership to the caller; what was returned
/// unchanged still holds the same characters.
pub fn another_main_function() {
    let s1 = gives_ownership();
    let s2 = String::from_str("hello");
    let s3 = takes_and_gives_back(s2);
    assert(s1@ == s3@);
}

/// Builds an owned string and moves it out to the caller.
pub fn gives_ownership() -> (some_string: String)
    ensures
        some_string@ == "hello"@,
{
    String::from_str("hello")
}

/// Takes ownership of a string and hands the very same value back.
pub fn takes_and_gives_back(a_string: String) -> (r: String)
    ensures
        r == a_string,
{
    a_string
}

/// Returns the string together with its length, so the caller keeps
/// ownership of the text it passed in.
pub fn calculate_length(s: String) -> (r: (String, usize))
    ensures
        r.0 == s,
        r.1 as nat == s@.len(),
{
    let length = s.as_str().unicode_len();
    (s, length)
}

} // verus!
