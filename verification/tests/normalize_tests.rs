use book_providers::normalize::{dedup_genres, normalize_genres, parse_date_to_year, publish_year};

fn strings(items: &[&str]) -> Vec<String> {
    items.iter().map(|s| s.to_string()).collect()
}

#[test]
fn year_is_read_from_the_first_four_characters() {
    assert_eq!(parse_date_to_year("2008-1"), Some(2008));
    assert_eq!(parse_date_to_year("08"), None);
    assert_eq!(parse_date_to_year(""), None);
    assert_eq!(parse_date_to_year("2010"), Some(2010));
    assert_eq!(parse_date_to_year("1999年5月"), Some(1999));
    assert_eq!(parse_date_to_year("200"), None);
    assert_eq!(parse_date_to_year("二零零八年"), None);
    assert_eq!(parse_date_to_year("20a8-01"), None);
    assert_eq!(parse_date_to_year(": 2008-1"), None);
    assert_eq!(parse_date_to_year("+123456"), Some(123));
    assert_eq!(parse_date_to_year("-123456"), Some(-123));
    assert_eq!(parse_date_to_year("é123"), None);
}

#[test]
fn year_of_a_missing_date_is_missing() {
    assert_eq!(publish_year(&None), None);
    assert_eq!(publish_year(&Some("2008-1".to_string())), Some(2008));
    assert_eq!(publish_year(&Some("n/a".to_string())), None);
}

#[test]
fn repeated_genres_are_dropped_and_order_is_kept() {
    assert_eq!(dedup_genres(Vec::new()), Vec::<String>::new());
    assert_eq!(
        dedup_genres(strings(&["Science Fiction", "Novel", "science fiction", "NOVEL", "China"])),
        strings(&["Science Fiction", "Novel", "China"])
    );
    assert_eq!(dedup_genres(strings(&["a", "b", "a"])), strings(&["a", "b"]));
    assert_eq!(dedup_genres(strings(&["小说", "小说", "科幻"])), strings(&["小说", "科幻"]));
}

#[test]
fn genres_are_title_cased_then_deduplicated() {
    assert_eq!(
        normalize_genres(&strings(&["science fiction", "SCIENCE FICTION", "hard sf", "科幻"])),
        strings(&["Science Fiction", "Hard Sf", "科幻"])
    );
    assert_eq!(normalize_genres(&Vec::new()), Vec::<String>::new());
    assert_eq!(normalize_genres(&strings(&["novel"])), strings(&["Novel"]));
}
