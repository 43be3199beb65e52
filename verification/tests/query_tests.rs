use thumbnailer::options::{parse_width, ThumbOptions};
use thumbnailer::query::querify;
use thumbnailer::ThumbError;

#[test]
fn querify_url_and_width() {
    let q = querify("url=http://x/y.png&width=90");
    assert_eq!(q.url.as_deref(), Some("http://x/y.png"));
    assert_eq!(q.width.as_deref(), Some("90"));
}

#[test]
fn querify_url_only() {
    let q = querify("url=http://x/y.png");
    assert_eq!(q.url.as_deref(), Some("http://x/y.png"));
    assert_eq!(q.width, None);
}

#[test]
fn querify_ignores_unknown_keys_and_bare_segments() {
    let q = querify("foo=1&bar&url=a&baz=2");
    assert_eq!(q.url.as_deref(), Some("a"));
    assert_eq!(q.width, None);
}

#[test]
fn querify_splits_on_first_equals_only() {
    let q = querify("url=a=b=c");
    assert_eq!(q.url.as_deref(), Some("a=b=c"));
}

#[test]
fn querify_last_pair_wins() {
    let q = querify("width=1&width=2");
    assert_eq!(q.width.as_deref(), Some("2"));
}

#[test]
fn querify_does_not_percent_decode() {
    let q = querify("url=http%3A%2F%2Fx");
    assert_eq!(q.url.as_deref(), Some("http%3A%2F%2Fx"));
}

#[test]
fn querify_empty_string_yields_nothing() {
    let q = querify("");
    assert_eq!(q.url, None);
    assert_eq!(q.width, None);
    let o = ThumbOptions::from_query("").unwrap();
    assert_eq!(o.url, "");
    assert_eq!(o.width, 180);
}

#[test]
fn options_url_and_width() {
    let o = ThumbOptions::from_query("url=http://x/y.png&width=90").unwrap();
    assert_eq!(o.url, "http://x/y.png");
    assert_eq!(o.width, 90);
}

#[test]
fn options_width_defaults_to_180() {
    let o = ThumbOptions::from_query("url=http://x/y.png").unwrap();
    assert_eq!(o.url, "http://x/y.png");
    assert_eq!(o.width, 180);
}

#[test]
fn options_url_defaults_to_empty() {
    let o = ThumbOptions::from_query("width=90").unwrap();
    assert_eq!(o.url, "");
    assert_eq!(o.width, 90);
}

#[test]
fn options_invalid_width_is_rejected() {
    assert_eq!(
        ThumbOptions::from_query("width=abc").unwrap_err(),
        ThumbError::InvalidWidth
    );
    assert_eq!(
        ThumbOptions::from_query("url=a&width=-3").unwrap_err(),
        ThumbError::InvalidWidth
    );
    assert_eq!(
        ThumbOptions::from_query("width=").unwrap_err(),
        ThumbError::InvalidWidth
    );
}

#[test]
fn parse_width_accepts_plain_and_signed_digits() {
    assert_eq!(parse_width("90"), Some(90));
    assert_eq!(parse_width("+90"), Some(90));
    assert_eq!(parse_width("0"), Some(0));
    assert_eq!(parse_width("4294967295"), Some(u32::MAX));
}

#[test]
fn parse_width_rejects_garbage_and_overflow() {
    assert_eq!(parse_width(""), None);
    assert_eq!(parse_width("+"), None);
    assert_eq!(parse_width("12x"), None);
    assert_eq!(parse_width(" 12"), None);
    assert_eq!(parse_width("4294967296"), None);
    assert_eq!(parse_width("99999999999999999999"), None);
}
