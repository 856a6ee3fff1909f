use graphemex::batch_grapheme_len;
use graphemex::batch_slice;
use graphemex::batch_split;
use graphemex::batch_truncate;
use graphemex::GraphemeError;

fn owned(texts: &[&str]) -> Vec<String> {
    texts.iter().map(|t| t.to_string()).collect()
}

#[test]
fn batch_grapheme_len_order_preserved() {
    let r = batch_grapheme_len(owned(&["a", "bb", "ccc"]));
    assert_eq!(r, vec![1, 2, 3]);
}

#[test]
fn batch_grapheme_len_unicode() {
    let r = batch_grapheme_len(owned(&[
        "",
        "e\u{301}",
        "\u{1f1fa}\u{1f1f8}",
        "\u{1f468}\u{200d}\u{1f469}\u{200d}\u{1f467}",
    ]));
    assert_eq!(r, vec![0, 1, 1, 1]);
}

#[test]
fn batch_split_order_preserved() {
    let r = batch_split(owned(&["ab", "e\u{301}o", ""]));
    assert_eq!(
        r,
        vec![
            vec!["a".to_string(), "b".to_string()],
            vec!["e\u{301}".to_string(), "o".to_string()],
            Vec::<String>::new(),
        ]
    );
}

#[test]
fn batch_split_round_trip() {
    let texts = owned(&["abc", "e\u{301}o\u{308}", "\u{1f1fa}\u{1f1f8}x"]);
    let r = batch_split(texts.clone());
    for (clusters, t) in r.iter().zip(texts.iter()) {
        assert_eq!(&clusters.concat(), t);
    }
}

#[test]
fn batch_slice_all_valid() {
    let r = batch_slice(owned(&["abcd", "e\u{301}bcd", "wxyz"]), 1, 3);
    assert_eq!(r.unwrap(), vec!["bc".to_string(), "bc".to_string(), "xy".to_string()]);
}

#[test]
fn batch_slice_one_invalid_fails_whole_batch() {
    let r = batch_slice(owned(&["abcd", "ab", "wxyz"]), 1, 3);
    assert!(matches!(r, Err(GraphemeError::IndexOutOfRange)));
}

#[test]
fn batch_slice_inverted_range_fails() {
    let r = batch_slice(owned(&["abcd", "efgh"]), 2, 1);
    assert!(matches!(r, Err(GraphemeError::IndexOutOfRange)));
}

#[test]
fn batch_slice_empty_batch() {
    let r = batch_slice(Vec::new(), 5, 9);
    assert_eq!(r.unwrap(), Vec::<String>::new());
}

#[test]
fn batch_truncate_order_preserved() {
    let r = batch_truncate(owned(&["abcd", "e\u{301}bcd", "x"]), 2);
    assert_eq!(
        r,
        vec!["ab".to_string(), "e\u{301}b".to_string(), "x".to_string()]
    );
}

#[test]
fn batch_truncate_keeps_short_items() {
    let r = batch_truncate(owned(&["", "a", "\u{1f1fa}\u{1f1f8}"]), 3);
    assert_eq!(
        r,
        vec!["".to_string(), "a".to_string(), "\u{1f1fa}\u{1f1f8}".to_string()]
    );
}

#[test]
fn batch_large_input_order() {
    let texts: Vec<String> = (0..500).map(|i| "x".repeat(i % 7)).collect();
    let r = batch_grapheme_len(texts.clone());
    let expected: Vec<usize> = texts.iter().map(|t| t.len()).collect();
    assert_eq!(r, expected);
}
