use bili_resolve::error::ResolveError;
use bili_resolve::ident::{clean_url, extract_bvid, identifier_from_search, IDENTIFIER_PATTERN};

#[test]
fn clean_url_cuts_at_the_first_question_mark() {
    assert_eq!(clean_url("https://x/BV1ab4y1?foo=BV9zzz"), "https://x/BV1ab4y1");
    assert_eq!(clean_url("a?b?c"), "a");
    assert_eq!(clean_url("?only=query"), "");
}

#[test]
fn clean_url_keeps_an_address_without_query() {
    assert_eq!(clean_url("https://www.bilibili.com/video/BV1xx411c7mD"), "https://www.bilibili.com/video/BV1xx411c7mD");
    assert_eq!(clean_url(""), "");
    assert_eq!(clean_url("视频/BV1"), "视频/BV1");
}

#[test]
fn extract_returns_the_identifier_of_a_page_address() {
    assert_eq!(
        extract_bvid("https://www.bilibili.com/video/BV1xx411c7mD"),
        Ok("BV1xx411c7mD".to_string())
    );
    assert_eq!(
        extract_bvid("https://www.bilibili.com/video/BV1xx411c7mD/"),
        Ok("BV1xx411c7mD".to_string())
    );
}

#[test]
fn extract_ignores_what_follows_the_question_mark() {
    assert_eq!(
        extract_bvid("https://x/BV1ab4y1?foo=BV9zzz"),
        Ok("BV1ab4y1".to_string())
    );
    assert_eq!(extract_bvid("https://x/video?bvid=BV9zzz"), Err(ResolveError::NotFound));
}

#[test]
fn extract_takes_the_first_of_several_matches() {
    assert_eq!(
        extract_bvid("https://x/BV1aa/BV2bb"),
        Ok("BV1aa".to_string())
    );
}

#[test]
fn extract_takes_the_whole_run_of_letters_and_digits() {
    assert_eq!(extract_bvid("xxBV17x411w7KC-more"), Ok("BV17x411w7KC".to_string()));
    assert_eq!(extract_bvid("BVBVab"), Ok("BVBVab".to_string()));
}

#[test]
fn extract_fails_where_no_identifier_stands() {
    assert_eq!(extract_bvid(""), Err(ResolveError::NotFound));
    assert_eq!(extract_bvid("https://www.bilibili.com/video/av170001"), Err(ResolveError::NotFound));
    assert_eq!(extract_bvid("https://x/BV"), Err(ResolveError::NotFound));
    assert_eq!(extract_bvid("https://x/BV-1"), Err(ResolveError::NotFound));
    assert_eq!(extract_bvid("https://x/bv1ab4y1"), Err(ResolveError::NotFound));
}

#[test]
fn extract_differs_from_its_input() {
    let url = "https://www.bilibili.com/video/BV1xx411c7mD?p=2";
    let id = extract_bvid(url).unwrap();
    assert_ne!(id, url);
    assert_ne!(id, clean_url(url));
    assert_ne!(id, IDENTIFIER_PATTERN);
    assert!(clean_url(url).contains(&id));
}

#[test]
fn identifier_from_search_maps_each_result() {
    assert_eq!(
        identifier_from_search(Ok(Some("BV1ab".to_string()))),
        Ok("BV1ab".to_string())
    );
    assert_eq!(identifier_from_search(Ok(None)), Err(ResolveError::NotFound));
    assert_eq!(
        identifier_from_search(Err("bad pattern".to_string())),
        Err(ResolveError::Pattern("bad pattern".to_string()))
    );
}

#[test]
fn the_identifier_pattern_is_accepted() {
    assert!(regex::Regex::new(IDENTIFIER_PATTERN).is_ok());
    assert_eq!(IDENTIFIER_PATTERN, "BV[a-zA-Z0-9]+");
}
