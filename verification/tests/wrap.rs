use irsc::wrap::{word_wrap, wrap_words};

fn lines(message: &str, limit: u16) -> Vec<String> {
    word_wrap(message, limit).into_iter().map(|l| String::from_utf8(l).unwrap()).collect()
}

#[test]
fn words_fill_lines_up_to_the_limit() {
    assert_eq!(lines("the quick brown fox", 9), vec!["the quick", "brown fox"]);
    assert_eq!(lines("the quick brown fox", 8), vec!["the", "quick", "brown", "fox"]);
    assert_eq!(lines("the quick brown fox", 10), vec!["the quick", "brown fox"]);
    assert_eq!(lines("the quick brown fox", 15), vec!["the quick brown", "fox"]);
    assert_eq!(lines("the quick brown fox", 19), vec!["the quick brown fox"]);
    assert_eq!(lines("the quick brown fox", 18), vec!["the quick brown", "fox"]);
}

#[test]
fn whitespace_of_every_kind_separates_words() {
    assert_eq!(lines("  a   b  ", 80), vec!["a b"]);
    assert_eq!(lines("a\tb\nc\r\nd", 80), vec!["a b c d"]);
    assert_eq!(lines("a\u{a0}b\u{2003}c", 80), vec!["a b c"]);
    assert_eq!(lines("one\ntwo", 3), vec!["one", "two"]);
}

#[test]
fn a_text_without_words_gives_no_line() {
    assert_eq!(lines("", 80), Vec::<String>::new());
    assert_eq!(lines("  \t\n ", 80), Vec::<String>::new());
    assert_eq!(lines("", 0), Vec::<String>::new());
}

#[test]
fn a_word_longer_than_the_limit_has_a_line_to_itself() {
    assert_eq!(lines("a incomprehensible b c", 5), vec!["a", "incomprehensible", "b c"]);
    assert_eq!(lines("a b", 0), vec!["a", "b"]);
    assert_eq!(lines("incomprehensible", 1), vec!["incomprehensible"]);
}

#[test]
fn nothing_is_lost_between_the_lines() {
    let text = "Lorem ipsum dolor sit amet, consectetur adipiscing elit, sed do eiusmod";
    for limit in 0..80 {
        let broken = lines(text, limit);
        assert_eq!(broken.join(" "), text);
        for line in &broken {
            assert!(line.len() <= limit as usize || !line.contains(' '));
        }
    }
}

#[test]
fn the_limit_counts_bytes() {
    assert_eq!(
        word_wrap("caf\u{e9} au lait", 8),
        vec![b"caf\xc3\xa9 au".to_vec(), b"lait".to_vec()]
    );
}

#[test]
fn words_are_grouped_as_they_are_given() {
    let words = vec![b"a".to_vec(), b"".to_vec(), b"b c".to_vec(), b"d".to_vec()];
    assert_eq!(wrap_words(&words, 4), vec![b"a ".to_vec(), b"b c".to_vec(), b"d".to_vec()]);
    assert_eq!(wrap_words(&words, 80), vec![b"a  b c d".to_vec()]);
    assert_eq!(wrap_words(&vec![], 80), Vec::<Vec<u8>>::new());
    assert_eq!(wrap_words(&vec![b"".to_vec()], 80), vec![b"".to_vec()]);
}
