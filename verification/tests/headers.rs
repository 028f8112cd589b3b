use bili_resolve::headers::{generate_headers, is_valid_header_value};
use reqwest::header::{HeaderMap, HeaderValue};

fn text(headers: &HeaderMap, name: &str) -> String {
    let value = headers.get(name).unwrap();
    String::from_utf8(value.as_bytes().to_vec()).unwrap()
}

#[test]
fn the_header_set_holds_the_browser_identity() {
    let headers = generate_headers("abc123", "https://www.bilibili.com/video/BV1xx411c7mD");
    assert_eq!(headers.len(), 14);
    assert_eq!(headers.keys_len(), 14);
    assert_eq!(
        text(&headers, "user-agent"),
        "Mozilla/5.0 (Macintosh; Intel Mac OS X 10_15_7) AppleWebKit/537.36 (KHTML, like Gecko) Chrome/120.0.0.0 Safari/537.36"
    );
    assert_eq!(text(&headers, "accept"), "application/json, text/plain, */*");
    assert_eq!(text(&headers, "accept-language"), "zh-CN,zh;q=0.9,en;q=0.8");
    assert_eq!(text(&headers, "accept-encoding"), "gzip, deflate, br");
    assert_eq!(text(&headers, "origin"), "https://www.bilibili.com");
    assert_eq!(
        text(&headers, "sec-ch-ua"),
        "\"Not_A Brand\";v=\"8\", \"Chromium\";v=\"120\", \"Google Chrome\";v=\"120\""
    );
    assert_eq!(text(&headers, "sec-ch-ua-mobile"), "?0");
    assert_eq!(text(&headers, "sec-ch-ua-platform"), "\"macOS\"");
    assert_eq!(text(&headers, "sec-fetch-dest"), "empty");
    assert_eq!(text(&headers, "sec-fetch-mode"), "cors");
    assert_eq!(text(&headers, "sec-fetch-site"), "same-site");
    assert_eq!(text(&headers, "dnt"), "1");
}

#[test]
fn the_header_set_uses_the_standard_names() {
    let headers = generate_headers("", "r");
    assert!(headers.contains_key(reqwest::header::USER_AGENT));
    assert!(headers.contains_key(reqwest::header::ACCEPT));
    assert!(headers.contains_key(reqwest::header::ACCEPT_LANGUAGE));
    assert!(headers.contains_key(reqwest::header::ACCEPT_ENCODING));
    assert!(headers.contains_key(reqwest::header::REFERER));
    assert!(headers.contains_key(reqwest::header::ORIGIN));
    assert!(headers.contains_key(reqwest::header::COOKIE));
    assert!(headers.contains_key(reqwest::header::DNT));
    assert!(headers.contains_key("Sec-Ch-Ua"));
    assert!(headers.contains_key("Sec-Fetch-Site"));
}

#[test]
fn referer_and_cookie_come_from_the_arguments() {
    let headers = generate_headers("abc123", "https://www.bilibili.com/video/BV1xx411c7mD");
    assert_eq!(text(&headers, "referer"), "https://www.bilibili.com/video/BV1xx411c7mD");
    assert_eq!(text(&headers, "cookie"), "SESSDATA=abc123");
    let other = generate_headers("t%2C1*x", "https://example.com/");
    assert_eq!(text(&other, "referer"), "https://example.com/");
    assert_eq!(text(&other, "cookie"), "SESSDATA=t%2C1*x");
}

#[test]
fn an_empty_token_gives_the_bare_cookie() {
    let headers = generate_headers("", "https://www.bilibili.com/video/BV1xx411c7mD");
    assert_eq!(text(&headers, "cookie"), "SESSDATA=");
    assert_eq!(headers.get("cookie").unwrap().as_bytes(), b"SESSDATA=");
}

#[test]
fn a_token_beyond_ascii_is_sent_as_its_bytes() {
    let headers = generate_headers("令牌\té", "r");
    assert_eq!(headers.get("cookie").unwrap().as_bytes(), "SESSDATA=令牌\té".as_bytes());
}

#[test]
fn the_same_arguments_give_the_same_header_set() {
    let a = generate_headers("abc", "https://www.bilibili.com/video/BV1");
    let b = generate_headers("abc", "https://www.bilibili.com/video/BV1");
    assert_eq!(a, b);
    let c = generate_headers("abd", "https://www.bilibili.com/video/BV1");
    assert_ne!(a, c);
}

#[test]
fn header_values_are_told_from_other_strings() {
    assert!(is_valid_header_value(""));
    assert!(is_valid_header_value("SESSDATA=abc; x=y"));
    assert!(is_valid_header_value("tab\there"));
    assert!(is_valid_header_value("令牌"));
    assert!(!is_valid_header_value("line\nbreak"));
    assert!(!is_valid_header_value("carriage\rreturn"));
    assert!(!is_valid_header_value("nul\0"));
    assert!(!is_valid_header_value("del\x7f"));
    assert!(!is_valid_header_value("\x1f"));
}

#[test]
fn header_values_are_those_that_the_map_accepts() {
    let mut c: u32 = 0;
    while c <= 0x10FFFF {
        if let Some(ch) = char::from_u32(c) {
            let s = format!("a{}b", ch);
            assert_eq!(
                is_valid_header_value(&s),
                HeaderValue::from_str(&s).is_ok(),
                "U+{:04X}",
                c
            );
        }
        c += if c < 0x3000 { 1 } else { 0x101 };
    }
}
