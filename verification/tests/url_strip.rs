use wx_js_sdk::url::strip_fragment;

#[test]
fn strip_removes_fragment() {
    assert_eq!(strip_fragment("https://a/b#frag"), "https://a/b");
}

#[test]
fn strip_keeps_fragmentless_url_whole() {
    assert_eq!(strip_fragment("https://a/b"), "https://a/b");
}

#[test]
fn strip_is_idempotent_on_sample() {
    let once = strip_fragment("https://a/b?q=1#frag#more");
    let twice = strip_fragment(&once);
    assert_eq!(twice, once);
    assert_eq!(once, "https://a/b?q=1");
}

#[test]
fn strip_keeps_query_before_fragment() {
    assert_eq!(
        strip_fragment("https://x/page?id=7&t=2#section"),
        "https://x/page?id=7&t=2"
    );
}

#[test]
fn strip_of_empty_is_empty() {
    assert_eq!(strip_fragment(""), "");
}

#[test]
fn strip_of_leading_hash_is_empty() {
    assert_eq!(strip_fragment("#only-fragment"), "");
}

#[test]
fn strip_cuts_at_first_hash() {
    assert_eq!(strip_fragment("a#b#c"), "a");
}
