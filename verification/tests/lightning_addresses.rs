use api_lightning::lnurl::{callback_url, lnurlp_endpoint};

#[test]
fn endpoint_of_an_address() {
    assert_eq!(
        lnurlp_endpoint("alice@example.com"),
        Some("https://example.com/.well-known/lnurlp/alice".to_string())
    );
    // split at the first @, as `split_once` does
    assert_eq!(lnurlp_endpoint("a@b@c"), Some("https://b@c/.well-known/lnurlp/a".to_string()));
    assert_eq!(lnurlp_endpoint("@host"), Some("https://host/.well-known/lnurlp/".to_string()));
    assert_eq!(lnurlp_endpoint("no-at-sign"), None);
    assert_eq!(lnurlp_endpoint(""), None);
}

#[test]
fn callback_with_amount() {
    assert_eq!(callback_url("https://x/cb", 21), "https://x/cb?amount=21000");
    assert_eq!(callback_url("https://x/cb?id=7", 1), "https://x/cb?id=7&amount=1000");
    assert_eq!(callback_url("https://x/cb", 0), "https://x/cb?amount=0");
    assert_eq!(callback_url("c", u64::MAX), format!("c?amount={}", u64::MAX));
    assert_eq!(callback_url("c", u64::MAX / 1000), format!("c?amount={}", (u64::MAX / 1000) * 1000));
}
