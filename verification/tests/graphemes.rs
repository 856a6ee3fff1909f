use graphemex::grapheme_len;
use graphemex::slice;
use graphemex::split;
use graphemex::truncate;
use graphemex::GraphemeError;

#[test]
fn split_ascii() {
    assert_eq!(
        split("abc"),
        vec!["a".to_string(), "b".to_string(), "c".to_string()]
    );
}

#[test]
fn split_empty() {
    assert_eq!(split(""), Vec::<String>::new());
}

#[test]
fn split_precomposed() {
    assert_eq!(split("\u{e9}"), vec!["\u{e9}".to_string()]);
    assert_eq!(grapheme_len("\u{e9}"), 1);
}

#[test]
fn split_combining_accent() {
    assert_eq!(split("e\u{301}"), vec!["e\u{301}".to_string()]);
    assert_eq!(grapheme_len("e\u{301}"), 1);
}

#[test]
fn split_family_emoji() {
    let family = "\u{1f468}\u{200d}\u{1f469}\u{200d}\u{1f467}";
    assert_eq!(split(family), vec![family.to_string()]);
    assert_eq!(grapheme_len(family), 1);
}

#[test]
fn split_regional_indicator_pair() {
    let flag = "\u{1f1fa}\u{1f1f8}";
    assert_eq!(split(flag), vec![flag.to_string()]);
    assert_eq!(grapheme_len(flag), 1);
}

#[test]
fn split_mixed_clusters() {
    let gr = split("a\u{310}e\u{301}o\u{308}\u{332}");
    assert_eq!(
        gr,
        vec![
            "a\u{310}".to_string(),
            "e\u{301}".to_string(),
            "o\u{308}\u{332}".to_string(),
        ]
    );
}

#[test]
fn split_crlf_one_cluster() {
    let gr = split("a\r\nb\u{1f1f7}\u{1f1fa}\u{1f1f8}\u{1f1f9}");
    assert_eq!(
        gr,
        vec![
            "a".to_string(),
            "\r\n".to_string(),
            "b".to_string(),
            "\u{1f1f7}\u{1f1fa}".to_string(),
            "\u{1f1f8}\u{1f1f9}".to_string(),
        ]
    );
}

#[test]
fn grapheme_len_empty() {
    assert_eq!(grapheme_len(""), 0);
}

#[test]
fn round_trip_concat() {
    let samples = [
        "",
        "abc",
        "e\u{301}o\u{308}",
        "a\r\nb\u{1f1f7}\u{1f1fa}\u{1f1f8}\u{1f1f9}",
        "\u{1f468}\u{200d}\u{1f469}\u{200d}\u{1f467}x",
        "\u{d55c}\u{ad6d}\u{c5b4}",
    ];
    for t in samples {
        assert_eq!(split(t).concat(), t);
    }
}

#[test]
fn count_matches_split() {
    let samples = [
        "",
        "abc",
        "e\u{301}o\u{308}",
        "a\r\nb\u{1f1f7}\u{1f1fa}\u{1f1f8}\u{1f1f9}",
        "\u{1f468}\u{200d}\u{1f469}\u{200d}\u{1f467}x",
    ];
    for t in samples {
        assert_eq!(grapheme_len(t), split(t).len());
    }
}

#[test]
fn slice_basic() {
    assert_eq!(slice("abcd", 1, 3).unwrap(), "bc");
    assert_eq!(
        slice("a\u{310}e\u{301}o\u{308}\u{332}", 1, 3).unwrap(),
        "e\u{301}o\u{308}\u{332}"
    );
}

#[test]
fn slice_whole_text() {
    let t = "a\u{1f1fa}\u{1f1f8}e\u{301}";
    let n = grapheme_len(t);
    assert_eq!(slice(t, 0, n).unwrap(), t);
}

#[test]
fn slice_monotone_scenario() {
    let t = "ab\u{1f1fa}\u{1f1f8}e\u{301}x";
    let n = grapheme_len(t);
    for i in 0..=n {
        for j in i..=n {
            for k in j..=n {
                let whole = slice(t, i, k).unwrap();
                let left = slice(t, i, j).unwrap();
                let right = slice(t, j, k).unwrap();
                assert_eq!(whole, format!("{}{}", left, right));
            }
        }
    }
}

#[test]
fn slice_empty_range() {
    for i in 0..=4 {
        assert_eq!(slice("abcd", i, i).unwrap(), "");
    }
}

#[test]
fn slice_inverted_range_errors() {
    let r = slice("ab", 2, 1);
    assert!(matches!(r, Err(GraphemeError::IndexOutOfRange)));
}

#[test]
fn slice_end_past_count_errors() {
    let t = "e\u{301}ab";
    let n = grapheme_len(t);
    let r = slice(t, 0, n + 1);
    assert!(matches!(r, Err(GraphemeError::IndexOutOfRange)));
}

#[test]
fn truncate_boundary() {
    let t = "ab\u{1f1fa}\u{1f1f8}e\u{301}";
    let n = grapheme_len(t);
    assert_eq!(truncate(t, n), t);
    assert_eq!(truncate(t, n + 1), t);
    assert_eq!(truncate(t, usize::MAX), t);
    for k in 0..n {
        assert_eq!(truncate(t, k), slice(t, 0, k).unwrap());
    }
}

#[test]
fn truncate_does_not_split_cluster() {
    let t = "a\u{1f468}\u{200d}\u{1f469}\u{200d}\u{1f467}b";
    assert_eq!(truncate(t, 2), "a\u{1f468}\u{200d}\u{1f469}\u{200d}\u{1f467}");
}

#[test]
fn truncate_empty() {
    assert_eq!(truncate("", 0), "");
    assert_eq!(truncate("abc", 0), "");
}
