use token_scan::scan::find_first_token;
use token_scan::slices::first_word;
use token_scan::slices::first_word_better_signature;
use token_scan::slices::first_word_signature;

#[test]
fn token_of_two_words() {
    assert_eq!(find_first_token(b"hello world"), b"hello");
}

#[test]
fn token_of_single_word() {
    assert_eq!(find_first_token(b"hello"), b"hello");
}

#[test]
fn token_of_empty_buffer() {
    assert_eq!(find_first_token(b""), b"");
}

#[test]
fn token_of_leading_space() {
    assert_eq!(find_first_token(b" hello"), b"");
}

#[test]
fn token_of_three_words() {
    assert_eq!(find_first_token(b"a b c"), b"a");
}

#[test]
fn token_stops_at_first_of_many_spaces() {
    assert_eq!(find_first_token(b"a  b"), b"a");
    assert_eq!(find_first_token(b"ab   "), b"ab");
}

#[test]
fn token_of_space_only_buffer() {
    assert_eq!(find_first_token(b" "), b"");
    assert_eq!(find_first_token(b"   "), b"");
}

#[test]
fn token_of_spaceless_buffer_is_whole_buffer() {
    let buffer: &[u8] = b"no-delimiter-here\t\n!";
    assert_eq!(find_first_token(buffer), buffer);
    assert_eq!(find_first_token(buffer).len(), buffer.len());
}

#[test]
fn token_of_non_ascii_bytes() {
    let buffer: Vec<u8> = vec![0xceu8, 0xb1, 0x20, 0xceu8, 0xb2];
    assert_eq!(find_first_token(&buffer), &[0xceu8, 0xb1][..]);
}

#[test]
fn two_calls_on_same_buffer_agree() {
    let buffer: &[u8] = b"first second third";
    let once = find_first_token(buffer);
    let twice = find_first_token(buffer);
    assert_eq!(once, twice);
    assert_eq!(once, b"first");
}

#[test]
fn rescanning_the_token_returns_it_whole() {
    let token = find_first_token(b"alpha beta");
    assert_eq!(find_first_token(token), token);
}

#[test]
fn first_word_of_two_words() {
    let s = String::from("hello world");
    assert_eq!(first_word(&s), "hello");
}

#[test]
fn first_word_of_single_word() {
    let s = String::from("hello");
    assert_eq!(first_word(&s), "hello");
}

#[test]
fn first_word_of_empty_string() {
    let s = String::new();
    assert_eq!(first_word(&s), "");
}

#[test]
fn first_word_of_leading_space() {
    let s = String::from(" hello");
    assert_eq!(first_word(&s), "");
}

#[test]
fn first_word_of_three_words() {
    let s = String::from("a b c");
    assert_eq!(first_word(&s), "a");
}

#[test]
fn first_word_signature_matches_first_word() {
    let s = String::from("hello world");
    assert_eq!(first_word_signature(&s), first_word(&s));
    assert_eq!(first_word_signature(&s), "hello");
}

#[test]
fn first_word_on_borrowed_text() {
    assert_eq!(first_word_better_signature("hello world"), "hello");
    assert_eq!(first_word_better_signature("hello"), "hello");
    assert_eq!(first_word_better_signature(""), "");
    assert_eq!(first_word_better_signature(" hello"), "");
    assert_eq!(first_word_better_signature("a b c"), "a");
}

#[test]
fn first_word_on_non_ascii_text() {
    assert_eq!(first_word_better_signature("héllo wörld"), "héllo");
}
