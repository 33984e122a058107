//! Trusted boundary to the HTML fragment parser.
//!
//! Every product card and the page controller arrive from the browser as an
//! HTML fragment string.  Parsing a fragment and selecting elements inside it
//! is delegated to the `scraper` crate; what each query returns is a function
//! of the fragment and the selector alone, so it is given a name here and the
//! extraction logic is verified against those names.

use vstd::prelude::*;

verus! {

/// The concatenated text of the first element matching `selector` in the
/// fragment `html`, or `None` when no element matches (or the selector
/// itself is malformed).
pub uninterp spec fn sel_text(html: Seq<char>, selector: Seq<char>) -> Option<Seq<char>>;

/// The value of attribute `attr` on the first element matching `selector`
/// in the fragment `html`; `None` when no element matches, the attribute is
/// absent, or the selector is malformed.
pub uninterp spec fn sel_attr(html: Seq<char>, selector: Seq<char>, attr: Seq<char>) -> Option<
    Seq<char>,
>;

/// For the first element matching `container_selector` in the fragment
/// `html`: the first text node of each of its descendants matching
/// `button_selector`, in document order (`None` for a descendant without a
/// text node).  The outer `None` means no container matched or a selector
/// was malformed.
pub uninterp spec fn sel_button_texts(
    html: Seq<char>,
    container_selector: Seq<char>,
    button_selector: Seq<char>,
) -> Option<Seq<Option<Seq<char>>>>;

pub open spec fn opt_str_view(o: Option<String>) -> Option<Seq<char>> {
    match o {
        Some(s) => Some(s@),
        None => None,
    }
}

pub open spec fn opt_str_seq_view(v: Seq<Option<String>>) -> Seq<Option<Seq<char>>> {
    v.map_values(|o: Option<String>| opt_str_view(o))
}

/// Relies on `scraper::Html::parse_fragment`, `scraper::Selector::parse` and
/// `scraper::element_ref::Text`: parses `html` as an isolated fragment and
/// concatenates the text of the first element matching `selector`.
#[verifier::external_body]
pub(crate) fn fragment_first_text(html: &str, selector: &str) -> (r: Option<String>)
    ensures
        opt_str_view(r) == sel_text(html@, selector@),
{
    let doc = scraper::Html::parse_fragment(html);
    let sel = scraper::Selector::parse(selector).ok()?;
    let elem = doc.select(&sel).next()?;
    Some(elem.text().collect::<String>())
}

/// Relies on `scraper::Html::parse_fragment`, `scraper::Selector::parse` and
/// `scraper::ElementRef::attr`: the value of `attr` on the first element
/// matching `selector` in the isolated fragment `html`.
#[verifier::external_body]
pub(crate) fn fragment_first_attr(html: &str, selector: &str, attr: &str) -> (r: Option<String>)
    ensures
        opt_str_view(r) == sel_attr(html@, selector@, attr@),
{
    let doc = scraper::Html::parse_fragment(html);
    let sel = scraper::Selector::parse(selector).ok()?;
    let elem = doc.select(&sel).next()?;
    elem.attr(attr).map(|a| a.to_string())
}

/// Relies on `scraper::Html::parse_fragment`, `scraper::Selector::parse`,
/// `scraper::ElementRef::select` and `scraper::element_ref::Text`: for the
/// first element matching `container_selector` in the isolated fragment
/// `html`, the first text node of each descendant matching
/// `button_selector`, in document order.
#[verifier::external_body]
pub(crate) fn fragment_button_texts(
    html: &str,
    container_selector: &str,
    button_selector: &str,
) -> (r: Option<Vec<Option<String>>>)
    ensures
        match r {
            Some(v) => sel_button_texts(html@, container_selector@, button_selector@) == Some(
                opt_str_seq_view(v@),
            ),
            None => sel_button_texts(html@, container_selector@, button_selector@) is None,
        },
{
    let doc = scraper::Html::parse_fragment(html);
    let csel = scraper::Selector::parse(container_selector).ok()?;
    let bsel = scraper::Selector::parse(button_selector).ok()?;
    let container = doc.select(&csel).next()?;
    let mut out: Vec<Option<String>> = Vec::new();
    for b in container.select(&bsel) {
        out.push(b.text().next().map(|t| t.to_string()));
    }
    Some(out)
}

} // verus!
