//! Trusted boundary to the URL parser, and the verified canonicalization
//! and search-URL construction built on top of it.

use vstd::prelude::*;
use crate::html::opt_str_view;
use crate::selectors::root_url;
use crate::selectors::root_url_spec;
use crate::selectors::search_base;
use crate::selectors::search_base_spec;
use crate::selectors::search_keyword;
use crate::selectors::search_keyword_spec;

verus! {

/// What parsing `s` as an absolute URL, clearing its query string and
/// serializing it back yields; `None` exactly when `s` does not parse.
pub uninterp spec fn url_canon(s: Seq<char>) -> Option<Seq<char>>;

/// What attaching `params` as form-urlencoded query parameters to the base
/// URL `base` yields; `None` exactly when `base` does not parse.
pub uninterp spec fn url_with_params(base: Seq<char>, params: Seq<(Seq<char>, Seq<char>)>) -> Option<
    Seq<char>,
>;

pub open spec fn pairs_view(v: Seq<(String, String)>) -> Seq<(Seq<char>, Seq<char>)> {
    v.map_values(|p: (String, String)| (p.0@, p.1@))
}

/// Relies on `url::Url::parse`, `url::Url::set_query` and `url::Url`'s
/// `Display`: parses `absolute`, sets its query string to the empty string
/// and serializes it back; `None` exactly when parsing fails.  The url crate
/// serializes every URL to a non-empty string and parses a serialized URL
/// back to an equal URL; the query of a result is already empty, so clearing
/// it again changes nothing, which makes every result a fixed point.
#[verifier::external_body]
pub(crate) fn clear_query(absolute: &str) -> (r: Option<String>)
    ensures
        opt_str_view(r) == url_canon(absolute@),
        r matches Some(t) ==> t@.len() > 0 && url_canon(t@) == Some(t@),
{
    match url::Url::parse(absolute) {
        Ok(mut u) => {
            u.set_query(Some(""));
            Some(u.to_string())
        },
        Err(_) => None,
    }
}

/// Relies on `url::Url::parse_with_params` and `url::Url`'s `Display`:
/// parses `base` and appends each pair of `params` to its query string,
/// form-urlencoded; `None` exactly when `base` does not parse.
#[verifier::external_body]
pub(crate) fn build_url_with_params(base: &str, params: &Vec<(String, String)>) -> (r: Option<
    String,
>)
    ensures
        opt_str_view(r) == url_with_params(base@, pairs_view(params@)),
{
    let pairs = params.iter().map(|p| (p.0.as_str(), p.1.as_str()));
    match url::Url::parse_with_params(base, pairs) {
        Ok(u) => Some(u.to_string()),
        Err(_) => None,
    }
}

/// Canonicalizes an absolute URL: clears its query string, preserving the
/// path, so the result is a stable product identity.  `None` exactly when
/// `absolute` does not parse as a URL.  Canonicalization is idempotent: a
/// result fed back in comes out unchanged.
pub fn canonicalize_url(absolute: &str) -> (r: Option<String>)
    ensures
        opt_str_view(r) == url_canon(absolute@),
        r matches Some(t) ==> t@.len() > 0 && url_canon(t@) == Some(t@),
{
    clear_query(absolute)
}

/// The canonical form of a product link found on a card: the site-relative
/// `href` resolved against the marketplace origin, with the query string
/// cleared.  `None` when the resulting absolute URL does not parse.
pub open spec fn canonical_product_url(href: Seq<char>) -> Option<Seq<char>> {
    url_canon(root_url_spec() + href)
}

/// Resolves a card's `href` against the marketplace origin and clears the
/// query string, yielding the product's canonical URL.  A canonical URL is
/// non-empty and is a fixed point of canonicalization: canonicalizing it
/// again yields the same URL.
pub fn canonicalize_product_url(href: &str) -> (r: Option<String>)
    ensures
        opt_str_view(r) == canonical_product_url(href@),
        r matches Some(t) ==> t@.len() > 0 && url_canon(t@) == Some(t@),
{
    let mut absolute = String::from_str(root_url());
    absolute.append(href);
    canonicalize_url(absolute.as_str())
}

/// The search URL for one shop: the fixed search path with the fixed
/// `keyword` literal, the shop's id and page `0` attached.
pub open spec fn shop_search_url_spec(shop_id: Seq<char>) -> Option<Seq<char>> {
    url_with_params(
        search_base_spec(),
        seq![
            ("keyword"@, search_keyword_spec()),
            ("shop"@, shop_id),
            ("page"@, "0"@),
        ],
    )
}

/// Builds the search-results URL for the shop with id `shop_id`.
pub fn shop_search_url(shop_id: &str) -> (r: Option<String>)
    ensures
        opt_str_view(r) == shop_search_url_spec(shop_id@),
{
    let mut params: Vec<(String, String)> = Vec::new();
    params.push((String::from_str("keyword"), String::from_str(search_keyword())));
    params.push((String::from_str("shop"), String::from_str(shop_id)));
    params.push((String::from_str("page"), String::from_str("0")));
    let r = build_url_with_params(search_base(), &params);
    proof {
        assert(pairs_view(params@) =~= seq![
            ("keyword"@, search_keyword_spec()),
            ("shop"@, shop_id@),
            ("page"@, "0"@),
        ]);
    }
    r
}

} // verus!
