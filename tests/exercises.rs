use myrust::exercises::{pig_latin_word, to_pig_latin, urlify};

fn create_test_string(s: &str) -> Vec<char> {
    let mut result: Vec<char> = Vec::with_capacity(s.len());
    let mut count = 0usize;
    for c in s.chars() {
        if c == ' ' {
            count += 1;
        }
        result.push(c);
    }
    let mut tail = vec![' '; count * 2];
    result.append(&mut tail);
    result
}

fn check_result(expected: &str, v: &Vec<char>, length: usize) {
    assert_eq!(expected.len(), length);
    let mut i = 0;
    for c in expected.chars() {
        assert_eq!(c, v[i]);
        i += 1;
    }
}

fn check(original: &str, expected: &str) {
    println!("Original '{}'", original);
    let mut result = create_test_string(original);
    println!("Target {:?}", result);
    let result_len = urlify(&mut result, original.len());
    println!("Result {:?}, length {}", result, result_len);
    check_result(expected, &result, result_len);
}

#[test]
fn urlify_nochars_zero_len() {
    let mut v = vec![];
    let result_len = urlify(&mut v, 0);
    check_result("", &v, result_len);
}

#[test]
fn urlify_nochars_some_len() {
    check("", "");
}

#[test]
fn urlify_onechar_one_len() {
    check("a", "a");
}

#[test]
fn urlify_one_space_one_len() {
    check(" ", "%20");
}

#[test]
fn urlify_one_space_four_len() {
    check("ab c", "ab%20c");
}

#[test]
fn urlify_three_space_four_len() {
    check(" abc c-1 ", "%20abc%20c-1%20");
}

#[test]
fn urlify_length_past_end_does_nothing() {
    let mut v = vec!['a', ' '];
    assert_eq!(urlify(&mut v, 3), 0);
    assert_eq!(v, vec!['a', ' ']);
}

#[test]
fn urlify_with_spare_room_moves_result_to_front() {
    let mut v = vec!['a', ' ', 'b', 'x', 'x', 'x', 'x'];
    assert_eq!(urlify(&mut v, 3), 5);
    assert_eq!(&v[..5], &['a', '%', '2', '0', 'b']);
    assert_eq!(v.len(), 7);
}

#[test]
fn pig_latin_of_two_words() {
    assert_eq!(to_pig_latin("first apple"), "irstfay applehay ");
}

#[test]
fn pig_latin_of_cyrillic() {
    assert_eq!(to_pig_latin("еще булок"), "ещеhay улокбay ");
}

#[test]
fn pig_latin_keeps_combined_cluster_together() {
    // "n" followed by a combining tilde is one cluster and moves as a whole.
    assert_eq!(to_pig_latin("n\u{303}o"), "on\u{303}ay ");
}

#[test]
fn pig_latin_of_blank_text_is_empty() {
    assert_eq!(to_pig_latin("   "), "");
}

#[test]
fn pig_latin_word_from_given_clusters() {
    let clusters = vec!["f".to_string(), "i".to_string(), "rst".to_string()];
    assert_eq!(pig_latin_word("first", &clusters), "irstfay");
    assert_eq!(pig_latin_word("apple", &vec![]), "applehay");
    assert_eq!(pig_latin_word("", &vec![]), "ay");
}
