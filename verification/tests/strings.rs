use fundamentals::ownership::{gives_ownership, multiple_returns, takes_and_gives_back};
use fundamentals::references::{calculate_length, change, dangle};
use fundamentals::slices::{best_first_word, find_first_word, first_word_with_slice};

#[test]
fn first_word_index_before_space() {
    assert_eq!(find_first_word(&String::from("hello world")), 5);
}

#[test]
fn first_word_index_without_space() {
    assert_eq!(find_first_word(&String::from("hello")), 5);
}

#[test]
fn first_word_index_empty() {
    assert_eq!(find_first_word(&String::from("")), 0);
}

#[test]
fn first_word_index_leading_space() {
    assert_eq!(find_first_word(&String::from(" leading")), 0);
}

#[test]
fn first_word_index_counts_bytes() {
    // An accented character takes two bytes, so the space sits at byte 6.
    assert_eq!(find_first_word(&String::from("h\u{e9}llo w\u{f6}rld")), 6);
    // Without a space the byte length comes back: 7 bytes for 5 characters.
    assert_eq!(find_first_word(&String::from("h\u{e9}ll\u{f6}")), 7);
}

#[test]
fn first_word_slice_ends_at_index() {
    for text in ["hello world", "hello", "", " leading", "h\u{e9}llo w\u{f6}rld"] {
        let s = String::from(text);
        assert_eq!(first_word_with_slice(&s).len(), find_first_word(&s));
        assert!(s.starts_with(first_word_with_slice(&s)));
    }
}

#[test]
fn first_word_slice_before_space() {
    let s = String::from("hello world");
    assert_eq!(first_word_with_slice(&s), "hello");
}

#[test]
fn first_word_slice_whole_string() {
    let s = String::from("hello");
    assert_eq!(first_word_with_slice(&s), "hello");
}

#[test]
fn best_first_word_of_slice() {
    assert_eq!(best_first_word("foo bar baz"), "foo");
    assert_eq!(best_first_word(""), "");
    assert_eq!(best_first_word("  double"), "");
}

#[test]
fn first_word_same_input_same_output() {
    let s = String::from("one two");
    assert_eq!(find_first_word(&s), find_first_word(&s));
}

#[test]
fn length_counts_bytes() {
    assert_eq!(calculate_length(&String::from("hello")), 5);
    assert_eq!(calculate_length(&String::from("")), 0);
    // An accented character takes two bytes in UTF-8.
    assert_eq!(calculate_length(&String::from("\u{e9}")), 2);
}

#[test]
fn change_appends_world() {
    let mut s = String::from("hello");
    change(&mut s);
    assert_eq!(s, "hello, world");
}

#[test]
fn dangle_returns_owned_string() {
    assert_eq!(dangle(), "hello");
}

#[test]
fn gives_ownership_yields_yours() {
    assert_eq!(gives_ownership(), "yours");
}

#[test]
fn takes_and_gives_back_is_identity() {
    let s = String::from("round trip");
    assert_eq!(takes_and_gives_back(s), "round trip");
}

#[test]
fn multiple_returns_pair() {
    let (s, n) = multiple_returns();
    assert_eq!(s, "hello");
    assert_eq!(n, 6);
}
