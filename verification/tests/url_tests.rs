use shopscrape::urls::canonicalize_product_url;
use shopscrape::urls::canonicalize_url;
use shopscrape::urls::shop_search_url;

#[test]
fn canonicalization_strips_the_query() {
    let u = canonicalize_url("https://shopee.com.my/product/9?sp_atk=abc&b=2").unwrap();
    assert_eq!(u, "https://shopee.com.my/product/9?");
    assert!(!u.contains("sp_atk"));
}

#[test]
fn canonicalization_is_idempotent() {
    let once = canonicalize_url("https://shopee.com.my/product/9?a=1").unwrap();
    let twice = canonicalize_url(&once).unwrap();
    assert_eq!(once, twice);
}

#[test]
fn canonicalization_preserves_the_path() {
    let u = canonicalize_url("https://shopee.com.my/a/b/c?q=1").unwrap();
    assert!(u.starts_with("https://shopee.com.my/a/b/c"));
}

#[test]
fn malformed_absolute_url_is_rejected_not_fatal() {
    assert!(canonicalize_url("http://[bad").is_none());
}

#[test]
fn product_href_is_resolved_against_the_origin() {
    let u = canonicalize_product_url("/product/42?sp_atk=x").unwrap();
    assert_eq!(u, "https://shopee.com.my/product/42?");
}

#[test]
fn search_url_carries_keyword_shop_and_page() {
    let u = shop_search_url("12345").unwrap();
    assert_eq!(
        u,
        "https://shopee.com.my/search?keyword=graphics+card&shop=12345&page=0"
    );
}
