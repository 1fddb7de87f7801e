use libfmod_demos::text::{chars_of, contains, matches_at, same_text};

#[test]
fn chars_of_lists_the_characters() {
    assert_eq!(chars_of("abc"), vec!['a', 'b', 'c']);
    assert_eq!(chars_of(""), Vec::<char>::new());
    assert_eq!(chars_of("né€"), vec!['n', 'é', '€']);
}

#[test]
fn matches_at_compares_a_window() {
    let text = chars_of("event:/Weapons/Explosion");
    let word = chars_of("Weapons");
    assert!(matches_at(&text, &word, 7));
    assert!(!matches_at(&text, &word, 6));
    assert!(!matches_at(&text, &word, 8));
    assert!(matches_at(&text, &chars_of(""), 24));
}

#[test]
fn matches_at_nothing_beyond_the_text() {
    let text = chars_of("abc");
    assert!(matches_at(&text, &chars_of("c"), 2));
    assert!(!matches_at(&text, &chars_of("c"), 3));
    assert!(!matches_at(&text, &chars_of(""), 4));
    assert!(!matches_at(&text, &chars_of("abcd"), 0));
    assert!(!matches_at(&text, &chars_of("a"), usize::MAX));
}

#[test]
fn contains_finds_a_word_anywhere() {
    assert!(contains("event:/Weapons/Explosion", "Explosion"));
    assert!(contains("event:/Weapons/Explosion", "event"));
    assert!(contains("event:/Weapons/Explosion", "/Weapons/"));
    assert!(!contains("event:/Weapons/Explosion", "explosion"));
    assert!(!contains("event:/Weapons/Explosion", "Explosions"));
}

#[test]
fn contains_the_empty_word_always() {
    assert!(contains("abc", ""));
    assert!(contains("", ""));
}

#[test]
fn contains_no_word_longer_than_the_text() {
    assert!(!contains("", "a"));
    assert!(!contains("ab", "abc"));
    assert!(contains("abc", "abc"));
}

#[test]
fn contains_goes_on_after_a_partial_match() {
    assert!(contains("aaab", "aab"));
    assert!(contains("ababac", "abac"));
    assert!(!contains("ababab", "abac"));
}

#[test]
fn contains_agrees_with_std() {
    let texts = ["", "a", "ab", "aab", "abab", "event:/Vehicles/Ride-on Mower", "né€", "€€n"];
    let words = ["", "a", "b", "ab", "ba", "aab", "Vehicle", "Ride-on Mower", "é", "€n", "n€"];
    for text in texts {
        for word in words {
            assert_eq!(contains(text, word), text.contains(word), "{:?} in {:?}", word, text);
        }
    }
}

#[test]
fn same_text_compares_all_characters() {
    assert!(same_text("all", "all"));
    assert!(same_text("", ""));
    assert!(!same_text("all", "al"));
    assert!(!same_text("al", "all"));
    assert!(!same_text("all", "alL"));
    assert!(!same_text("all", ""));
    assert!(same_text("né€", "né€"));
}
