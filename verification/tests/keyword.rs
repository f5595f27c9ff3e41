use registry_tokens::keyword::Keyword;

#[test]
fn valid_name_accepts_ordinary_names() {
    assert!(Keyword::valid_name("foo"));
    assert!(Keyword::valid_name("f"));
    assert!(Keyword::valid_name("7zip"));
    assert!(Keyword::valid_name("foo_bar-baz+qux"));
}

#[test]
fn valid_name_rejects_bad_names() {
    assert!(!Keyword::valid_name(""));
    assert!(!Keyword::valid_name("_foo"));
    assert!(!Keyword::valid_name("-foo"));
    assert!(!Keyword::valid_name("+foo"));
    assert!(!Keyword::valid_name("foo bar"));
    assert!(!Keyword::valid_name("foo!"));
    assert!(!Keyword::valid_name("émile"));
}

#[test]
fn lowercase_all_folds_every_name() {
    let names = vec![
        String::from("NO"),
        String::from("Serde"),
        String::from("already-lower"),
    ];
    let folded = Keyword::lowercase_all(&names);
    assert_eq!(folded, vec![
        String::from("no"),
        String::from("serde"),
        String::from("already-lower"),
    ]);
}

#[test]
fn lowercase_all_keeps_length_and_order() {
    let names = vec![String::from("B"), String::from("A")];
    let folded = Keyword::lowercase_all(&names);
    assert_eq!(folded.len(), 2);
    assert_eq!(folded[0], "b");
    assert_eq!(folded[1], "a");
}

#[test]
fn crate_keyword_pairs_link_each_keyword() {
    let keywords = vec![
        Keyword { id: 11, keyword: String::from("tokens"), crates_cnt: 1, created_at: 0 },
        Keyword { id: 42, keyword: String::from("registry"), crates_cnt: 3, created_at: 0 },
    ];
    let pairs = Keyword::crate_keyword_pairs(7, &keywords);
    assert_eq!(pairs.len(), 2);
    assert_eq!(pairs[0].crate_id, 7);
    assert_eq!(pairs[0].keyword_id, 11);
    assert_eq!(pairs[1].crate_id, 7);
    assert_eq!(pairs[1].keyword_id, 42);
}
