//! Slices: borrowed views into owned text and arrays, and the word
//! scanner over characters that the views make possible.

use crate::scan::first_token;
use crate::scan::lemma_prefix_before_delim;
use crate::scan::lemma_token_end_unique;
use vstd::prelude::*;
use vstd::slice::slice_subrange;
use vstd::string::StrSliceExecFns;
use vstd::string::StringExecFns;

verus! {

/// Two borrowed views into one owned string: each covers part of the
/// text without copying it.
pub fn a() {
    let s = String::from_str("hello world");
    proof {
        reveal_strlit("hello world");
    }
    let hello = s.as_str().substring_char(0, 5);
    let world = s.as_str().substring_char(6, 11);
    proof {
        reveal_strlit("hello");
        reveal_strlit("world");
    }
    assert(hello@ =~= "hello"@);
    assert(world@ =~= "world"@);
}

/// A view that starts at offset zero covers the leading characters.
pub fn b() {
    let s = String::from_str("hello");
    proof {
        reveal_strlit("hello");
    }
    let slice = s.as_str().substring_char(0, 2);
    proof {
        reveal_strlit("he");
    }
    assert(slice@ =~= "he"@);
}

/// A view that runs to the string's length covers the trailing characters.
pub fn c() {
    let s = String::from_str("hello");
    proof {
        reveal_strlit("hello");
    }
    let len = s.as_str().unicode_len();
    let slice = s.as_str().substring_char(3, len);
    proof {
        reveal_strlit("lo");
    }
    assert(slice@ =~= "lo"@);
}

/// A view from offset zero to the length is the whole string.
pub fn d() {
    let s = String::from_str("hello");
    let len = s.as_str().unicode_len();
    let slice = s.as_str().substring_char(0, len);
    assert(slice@ =~= s@);
}

/// Scans an owned string and returns a borrowed view of its first word:
/// everything before the first space, or the whole string without one.
pub fn first_word(s: &String) -> (word: &str)
    ensures
        word@ == first_token(s@, ' '),
{
    first_word_better_signature(s.as_str())
}

/// A string literal is itself a borrowed view of static text.
pub fn literal() {
    let s: &str = "Hello, world!";
    proof {
        reveal_strlit("Hello, world!");
    }
    assert(s@.len() == 13);
}

/// The same scan with the narrower parameter type: callers that own a
/// `String` borrow it first.
pub fn first_word_signature(s: &String) -> (word: &str)
    ensures
        word@ == first_token(s@, ' '),
{
    first_word_better_signature(s.as_str())
}

/// The scan over any borrowed text, owned or static: walks the characters
/// from offset zero and returns the view before the first space, or the
/// whole text when no space occurs.
pub fn first_word_better_signature(s: &str) -> (word: &str)
    ensures
        word@ == first_token(s@, ' '),
{
    let n: usize = s.unicode_len();
    let mut i: usize = 0;
    while i < n
        invariant
            n == s@.len(),
            i <= n,
            forall|j: int| 0 <= j < i ==> s@[j] != ' ',
        decreases n - i,
    {
        if s.get_char(i) == ' ' {
            proof {
                lemma_token_end_unique(s@, ' ', i as int);
            }
            return s.substring_char(0, i);
        }
        i += 1;
    }
    proof {
        lemma_token_end_unique(s@, ' ', n as int);
    }
    s.substring_char(0, n)
}

/// The scanner takes any borrowed text: a view of an owned string and a
/// static literal both yield the word before the first space.
pub fn main_a() {
    let my_string = String::from_str("hello world");
    let word = first_word_better_signature(my_string.as_str());
    let my_string_literal = "hello world";
    let word_two = first_word_better_signature(my_string_literal);
    proof {
        reveal_strlit("hello world");
        reveal_strlit("hello");
        reveal_strlit("world");
        assert("hello world"@ =~= "hello"@ + seq![' '] + "world"@);
        lemma_prefix_before_delim("hello"@, "world"@, ' ');
    }
    assert(word@ == "hello"@);
    assert(word_two@ == "hello"@);
}

/// An array of integers lives on the stack with a fixed length.
pub fn f() {
    let numbers: [i32; 5] = [1, 2, 3, 4, 5];
    assert(numbers@.len() == 5);
}

/// A borrowed view into part of an array, just like a view into text:
/// offset and length, no copy.
pub fn g() {
    let numbers: [i32; 5] = [1, 2, 3, 4, 5];
    let slice = slice_subrange(numbers.as_slice(), 1, 3);
    assert(slice@.len() == 2);
    assert(slice@[0] == 2);
    assert(slice@[1] == 3);
}

} // verus!
