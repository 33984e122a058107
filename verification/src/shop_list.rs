//! The shop descriptors the run is configured with.

use vstd::prelude::*;

verus! {

/// One storefront to scrape: its marketplace id, display name, search query
/// and product-name match patterns.  `product_match` is carried through for
/// compatibility with the configuration format but never consulted by the
/// extraction engine.
pub struct ShopConfig {
    pub shop_id: String,
    pub shop_name: String,
    pub search_query: String,
    pub product_match: Vec<String>,
}

} // verus!
