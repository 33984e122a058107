//! The fixed structural selectors and addresses the engine is bound to.
//!
//! Each selector exists twice: a spec function naming the string, used by
//! the contracts, and an executable function returning the same literal.

use vstd::prelude::*;

verus! {

pub open spec fn root_url_spec() -> Seq<char> {
    "https://shopee.com.my"@
}

pub fn root_url() -> (r: &'static str)
    ensures
        r@ == root_url_spec(),
{
    "https://shopee.com.my"
}

pub open spec fn search_base_spec() -> Seq<char> {
    "https://shopee.com.my/search"@
}

pub fn search_base() -> (r: &'static str)
    ensures
        r@ == search_base_spec(),
{
    "https://shopee.com.my/search"
}

pub open spec fn language_button_selector_spec() -> Seq<char> {
    "div.language-selection__list-item:nth-child(1) > button:nth-child(1)"@
}

pub fn language_button_selector() -> (r: &'static str)
    ensures
        r@ == language_button_selector_spec(),
{
    "div.language-selection__list-item:nth-child(1) > button:nth-child(1)"
}

pub open spec fn product_card_selector_spec() -> Seq<char> {
    ".shopee-search-item-result__item"@
}

pub fn product_card_selector() -> (r: &'static str)
    ensures
        r@ == product_card_selector_spec(),
{
    ".shopee-search-item-result__item"
}

pub open spec fn product_name_selector_spec() -> Seq<char> {
    ".Cve6sh"@
}

pub fn product_name_selector() -> (r: &'static str)
    ensures
        r@ == product_name_selector_spec(),
{
    ".Cve6sh"
}

pub open spec fn product_price_selector_spec() -> Seq<char> {
    ".vioxXd.rVLWG6"@
}

pub fn product_price_selector() -> (r: &'static str)
    ensures
        r@ == product_price_selector_spec(),
{
    ".vioxXd.rVLWG6"
}

pub open spec fn product_url_selector_spec() -> Seq<char> {
    "a[data-sqe='link']"@
}

pub fn product_url_selector() -> (r: &'static str)
    ensures
        r@ == product_url_selector_spec(),
{
    "a[data-sqe='link']"
}

pub open spec fn href_attr_spec() -> Seq<char> {
    "href"@
}

pub fn href_attr() -> (r: &'static str)
    ensures
        r@ == href_attr_spec(),
{
    "href"
}

pub open spec fn page_controller_selector_spec() -> Seq<char> {
    ".shopee-page-controller"@
}

pub fn page_controller_selector() -> (r: &'static str)
    ensures
        r@ == page_controller_selector_spec(),
{
    ".shopee-page-controller"
}

pub open spec fn button_selector_spec() -> Seq<char> {
    "button"@
}

pub fn button_selector() -> (r: &'static str)
    ensures
        r@ == button_selector_spec(),
{
    "button"
}

pub open spec fn search_keyword_spec() -> Seq<char> {
    "graphics card"@
}

pub fn search_keyword() -> (r: &'static str)
    ensures
        r@ == search_keyword_spec(),
{
    "graphics card"
}

pub open spec fn scroll_script_spec() -> Seq<char> {
    "window.scrollByPages(1)"@
}

pub fn scroll_script() -> (r: &'static str)
    ensures
        r@ == scroll_script_spec(),
{
    "window.scrollByPages(1)"
}

} // verus!
