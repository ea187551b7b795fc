use fl_caption::text_util::{count_chars, count_duplicate_characters, CharCounts};

#[test]
fn duplicates_in_hello() {
    assert_eq!(count_duplicate_characters("hello".to_string()), 2);
}

#[test]
fn duplicates_sum_counts_of_repeated_chars() {
    // 'a' twice, 'b' three times, 'c' once.
    assert_eq!(count_duplicate_characters("abbacb".to_string()), 5);
}

#[test]
fn duplicates_of_empty_text() {
    assert_eq!(count_duplicate_characters(String::new()), 0);
}

#[test]
fn duplicates_of_distinct_text_is_zero() {
    assert_eq!(count_duplicate_characters("abcdef".to_string()), 0);
}

#[test]
fn duplicates_in_unicode_text() {
    assert_eq!(count_duplicate_characters("你好你好吗".to_string()), 4);
    assert_eq!(count_duplicate_characters("ééa".to_string()), 2);
}

#[test]
fn duplicates_never_one() {
    for text in ["a", "ab", "aab", "abcabc", "xyzx"] {
        assert_ne!(count_duplicate_characters(text.to_string()), 1);
    }
}

#[test]
fn counts_of_each_char() {
    let counts = count_chars("banana");
    assert_eq!(counts.total(), 6);
    assert_eq!(counts.count_of('a'), 3);
    assert_eq!(counts.count_of('n'), 2);
    assert_eq!(counts.count_of('b'), 1);
    assert_eq!(counts.count_of('z'), 0);
    assert_eq!(counts.duplicate_total(), 5);
}

#[test]
fn merged_piece_counts_equal_whole_counts() {
    let text = "the quick brown fox jumps over the lazy dog";
    let (left, right) = text.split_at(17);
    let mut merged = count_chars(left);
    merged.merge(&count_chars(right));
    let whole = count_chars(text);
    assert_eq!(merged.total(), whole.total());
    for c in text.chars() {
        assert_eq!(merged.count_of(c), whole.count_of(c));
    }
    assert_eq!(merged.duplicate_total(), whole.duplicate_total());
}

#[test]
fn merge_order_does_not_matter() {
    let a = count_chars("abc");
    let b = count_chars("cde");
    let mut ab = CharCounts::new();
    ab.merge(&a);
    ab.merge(&b);
    let mut ba = CharCounts::new();
    ba.merge(&b);
    ba.merge(&a);
    for c in "abcdez".chars() {
        assert_eq!(ab.count_of(c), ba.count_of(c));
    }
    assert_eq!(ab.duplicate_total(), 2);
    assert_eq!(ba.duplicate_total(), 2);
}

#[test]
fn add_char_counts_one_more() {
    let mut counts = CharCounts::new();
    counts.add_char('x');
    counts.add_char('y');
    counts.add_char('x');
    assert_eq!(counts.count_of('x'), 2);
    assert_eq!(counts.count_of('y'), 1);
    assert_eq!(counts.total(), 3);
    assert_eq!(counts.duplicate_total(), 2);
}
