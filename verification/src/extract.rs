//! The card field extractor: pulls name, price and canonical URL out of one
//! product-card fragment, and the per-shop scan that runs it over every
//! card with per-field failure accounting.

use vstd::prelude::*;
use crate::html::fragment_first_attr;
use crate::html::fragment_first_text;
use crate::html::opt_str_seq_view;
use crate::html::sel_attr;
use crate::html::sel_text;
use crate::selectors::href_attr;
use crate::selectors::href_attr_spec;
use crate::selectors::product_name_selector;
use crate::selectors::product_name_selector_spec;
use crate::selectors::product_price_selector;
use crate::selectors::product_price_selector_spec;
use crate::selectors::product_url_selector;
use crate::selectors::product_url_selector_spec;
use crate::urls::canonical_product_url;
use crate::urls::canonicalize_product_url;
use crate::urls::url_canon;

verus! {

/// One successfully extracted product.  All three textual fields are
/// non-empty and `url` is canonical: absolute, with the query string
/// cleared.
#[derive(Debug)]
pub struct ValidProduct {
    pub name: String,
    pub price: String,
    pub shop_name: String,
    pub url: String,
}

/// The mathematical value of a `ValidProduct`.
pub struct ProductModel {
    pub name: Seq<char>,
    pub price: Seq<char>,
    pub shop_name: Seq<char>,
    pub url: Seq<char>,
}

impl View for ValidProduct {
    type V = ProductModel;

    open spec fn view(&self) -> ProductModel {
        ProductModel {
            name: self.name@,
            price: self.price@,
            shop_name: self.shop_name@,
            url: self.url@,
        }
    }
}

/// The first field whose lookup failed for a rejected card.
#[derive(Clone, Copy, Debug, PartialEq, Eq, Structural)]
pub enum MissingField {
    Name,
    Price,
    Url,
}

/// What extracting one card fragment yields.  The three lookups run in
/// fixed order — name, price, URL — and stop at the first failure, so a
/// card missing several fields is charged to the first one alone.  A field
/// whose element is absent, or whose text is empty because its content
/// never lazy-loaded, counts as missing; a link whose resolved URL does not
/// parse counts as a missing URL.
pub open spec fn extract_spec(html: Seq<char>, shop_name: Seq<char>) -> Result<
    ProductModel,
    MissingField,
> {
    match sel_text(html, product_name_selector_spec()) {
        None => Err(MissingField::Name),
        Some(name) => if name.len() == 0 {
            Err(MissingField::Name)
        } else {
            match sel_text(html, product_price_selector_spec()) {
                None => Err(MissingField::Price),
                Some(price) => if price.len() == 0 {
                    Err(MissingField::Price)
                } else {
                    match sel_attr(html, product_url_selector_spec(), href_attr_spec()) {
                        None => Err(MissingField::Url),
                        Some(href) => match canonical_product_url(href) {
                            None => Err(MissingField::Url),
                            Some(url) => Ok(
                                ProductModel { name, price, shop_name, url },
                            ),
                        },
                    }
                },
            }
        },
    }
}

pub open spec fn extract_result_view(r: Result<ValidProduct, MissingField>) -> Result<
    ProductModel,
    MissingField,
> {
    match r {
        Ok(p) => Ok(p@),
        Err(e) => Err(e),
    }
}

/// Extracts name, price and canonical URL from one card fragment, parsed in
/// isolation.  Every extracted product has non-empty name, price and URL,
/// and its URL is a fixed point of canonicalization.
pub fn extract_card(html: &str, shop_name: &str) -> (r: Result<ValidProduct, MissingField>)
    ensures
        extract_result_view(r) == extract_spec(html@, shop_name@),
        r matches Ok(p) ==> {
            &&& p.name@.len() > 0
            &&& p.price@.len() > 0
            &&& p.url@.len() > 0
            &&& url_canon(p.url@) == Some(p.url@)
            &&& p.shop_name@ == shop_name@
        },
{
    let name = match fragment_first_text(html, product_name_selector()) {
        Some(n) => n,
        None => {
            return Err(MissingField::Name);
        },
    };
    if name.as_str().is_empty() {
        return Err(MissingField::Name);
    }
    let price = match fragment_first_text(html, product_price_selector()) {
        Some(p) => p,
        None => {
            return Err(MissingField::Price);
        },
    };
    if price.as_str().is_empty() {
        return Err(MissingField::Price);
    }
    let href = match fragment_first_attr(html, product_url_selector(), href_attr()) {
        Some(h) => h,
        None => {
            return Err(MissingField::Url);
        },
    };
    let url = match canonicalize_product_url(href.as_str()) {
        Some(u) => u,
        None => {
            return Err(MissingField::Url);
        },
    };
    Ok(ValidProduct { name, price, shop_name: String::from_str(shop_name), url })
}

/// Per-shop extraction counters, and the page numbers the pagination
/// prober discovered.  Scoped to one shop iteration.
#[derive(Debug)]
pub struct ShopStats {
    pub valid_count: usize,
    pub name_missing: usize,
    pub price_missing: usize,
    pub url_missing: usize,
    pub discovered_pages: Vec<i32>,
}

/// The mathematical value of the four counters of a `ShopStats`.
pub struct StatsModel {
    pub valid: int,
    pub name_missing: int,
    pub price_missing: int,
    pub url_missing: int,
}

pub open spec fn stats_counts(s: ShopStats) -> StatsModel {
    StatsModel {
        valid: s.valid_count as int,
        name_missing: s.name_missing as int,
        price_missing: s.price_missing as int,
        url_missing: s.url_missing as int,
    }
}

/// The counters after scanning a sequence of card fragments (`None` marks a
/// card whose fragment could not be retrieved: it is skipped and charged to
/// no counter).  Each scanned card raises exactly one counter: `valid` when
/// all three lookups succeed, else the counter of the first failing field.
pub open spec fn scan_stats(frags: Seq<Option<Seq<char>>>, shop_name: Seq<char>) -> StatsModel
    decreases frags.len(),
{
    if frags.len() == 0 {
        StatsModel { valid: 0, name_missing: 0, price_missing: 0, url_missing: 0 }
    } else {
        let prev = scan_stats(frags.drop_last(), shop_name);
        match frags.last() {
            None => prev,
            Some(h) => match extract_spec(h, shop_name) {
                Ok(_) => StatsModel { valid: prev.valid + 1, ..prev },
                Err(MissingField::Name) => StatsModel {
                    name_missing: prev.name_missing + 1,
                    ..prev
                },
                Err(MissingField::Price) => StatsModel {
                    price_missing: prev.price_missing + 1,
                    ..prev
                },
                Err(MissingField::Url) => StatsModel { url_missing: prev.url_missing + 1, ..prev },
            },
        }
    }
}

/// The products extracted from a sequence of card fragments, in scan order.
pub open spec fn scan_products(frags: Seq<Option<Seq<char>>>, shop_name: Seq<char>) -> Seq<
    ProductModel,
>
    decreases frags.len(),
{
    if frags.len() == 0 {
        Seq::empty()
    } else {
        let prev = scan_products(frags.drop_last(), shop_name);
        match frags.last() {
            None => prev,
            Some(h) => match extract_spec(h, shop_name) {
                Ok(p) => prev.push(p),
                Err(_) => prev,
            },
        }
    }
}

/// The number of cards that were actually scanned: those whose fragment was
/// retrieved.
pub open spec fn scanned_count(frags: Seq<Option<Seq<char>>>) -> int
    decreases frags.len(),
{
    if frags.len() == 0 {
        0
    } else {
        scanned_count(frags.drop_last()) + if frags.last() is Some {
            1int
        } else {
            0int
        }
    }
}

pub open spec fn products_view(s: Seq<ValidProduct>) -> Seq<ProductModel> {
    s.map_values(|p: ValidProduct| p@)
}

/// Every scanned card raises exactly one counter, so the four counters sum
/// to the number of cards scanned; `valid` counts exactly the cards whose
/// three lookups all succeeded, and is the number of products produced.
pub proof fn lemma_scan_counts(frags: Seq<Option<Seq<char>>>, shop_name: Seq<char>)
    ensures
        ({
            let st = scan_stats(frags, shop_name);
            &&& st.valid >= 0
            &&& st.name_missing >= 0
            &&& st.price_missing >= 0
            &&& st.url_missing >= 0
            &&& st.valid + st.name_missing + st.price_missing + st.url_missing == scanned_count(
                frags,
            )
            &&& st.valid == scan_products(frags, shop_name).len()
        }),
        0 <= scanned_count(frags) <= frags.len(),
    decreases frags.len(),
{
    if frags.len() > 0 {
        lemma_scan_counts(frags.drop_last(), shop_name);
    }
}

/// Every product a scan yields carries a non-empty name, a non-empty
/// price, and the scanned shop's name: the extractor rejects a card whose
/// name or price element is absent or empty before a product is made.
pub proof fn lemma_scan_products_wf(frags: Seq<Option<Seq<char>>>, shop_name: Seq<char>)
    ensures
        forall|k: int|
            0 <= k < scan_products(frags, shop_name).len() ==> {
                let p = #[trigger] scan_products(frags, shop_name)[k];
                p.name.len() > 0 && p.price.len() > 0 && p.shop_name == shop_name
            },
    decreases frags.len(),
{
    if frags.len() > 0 {
        lemma_scan_products_wf(frags.drop_last(), shop_name);
        let prev = scan_products(frags.drop_last(), shop_name);
        match frags.last() {
            Some(h) => match extract_spec(h, shop_name) {
                Ok(p) => {
                    assert forall|k: int|
                        0 <= k < scan_products(frags, shop_name).len() implies {
                        let q = #[trigger] scan_products(frags, shop_name)[k];
                        q.name.len() > 0 && q.price.len() > 0 && q.shop_name == shop_name
                    } by {
                        if k < prev.len() {
                            assert(scan_products(frags, shop_name)[k] == prev[k]);
                        } else {
                            assert(scan_products(frags, shop_name)[k] == p);
                        }
                    }
                },
                Err(_) => {},
            },
            None => {},
        }
    }
}

/// Runs the card field extractor over every card fragment of one shop, in
/// snapshot order.  Cards whose fragment could not be retrieved (`None`)
/// are skipped.  Returns the per-shop counters (with no pages discovered
/// yet) and the extracted products in scan order.
pub fn scan_cards(fragments: &Vec<Option<String>>, shop_name: &str) -> (r: (
    ShopStats,
    Vec<ValidProduct>,
))
    ensures
        stats_counts(r.0) == scan_stats(opt_str_seq_view(fragments@), shop_name@),
        r.0.discovered_pages@.len() == 0,
        products_view(r.1@) == scan_products(opt_str_seq_view(fragments@), shop_name@),
{
    let ghost gfrags = opt_str_seq_view(fragments@);
    let mut stats = ShopStats {
        valid_count: 0,
        name_missing: 0,
        price_missing: 0,
        url_missing: 0,
        discovered_pages: Vec::new(),
    };
    let mut products: Vec<ValidProduct> = Vec::new();
    let mut i: usize = 0;
    while i < fragments.len()
        invariant
            0 <= i <= fragments@.len(),
            gfrags == opt_str_seq_view(fragments@),
            gfrags.len() == fragments@.len(),
            stats_counts(stats) == scan_stats(gfrags.take(i as int), shop_name@),
            stats.discovered_pages@.len() == 0,
            products_view(products@) == scan_products(gfrags.take(i as int), shop_name@),
        decreases fragments@.len() - i,
    {
        proof {
            assert(gfrags.take(i + 1).drop_last() =~= gfrags.take(i as int));
            assert(gfrags.take(i + 1).last() == gfrags[i as int]);
            lemma_scan_counts(gfrags.take(i as int), shop_name@);
        }
        match &fragments[i] {
            Some(html) => {
                match extract_card(html.as_str(), shop_name) {
                    Ok(p) => {
                        stats.valid_count = stats.valid_count + 1;
                        products.push(p);
                        proof {
                            assert(products_view(products@) =~= scan_products(
                                gfrags.take(i + 1),
                                shop_name@,
                            ));
                        }
                    },
                    Err(MissingField::Name) => {
                        stats.name_missing = stats.name_missing + 1;
                    },
                    Err(MissingField::Price) => {
                        stats.price_missing = stats.price_missing + 1;
                    },
                    Err(MissingField::Url) => {
                        stats.url_missing = stats.url_missing + 1;
                    },
                }
            },
            None => {},
        }
        i = i + 1;
    }
    proof {
        assert(gfrags.take(fragments@.len() as int) =~= gfrags);
    }
    (stats, products)
}

} // verus!
