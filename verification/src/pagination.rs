//! The pagination prober: reads the page-controller fragment and collects
//! the page numbers its buttons name, without navigating to them.

use vstd::prelude::*;
use crate::html::fragment_button_texts;
use crate::html::sel_button_texts;
use crate::selectors::button_selector;
use crate::selectors::button_selector_spec;
use crate::selectors::page_controller_selector;
use crate::selectors::page_controller_selector_spec;

verus! {

pub open spec fn is_digit(c: char) -> bool {
    48 <= c as u32 <= 57
}

pub open spec fn digit_value(c: char) -> int {
    c as u32 - 48
}

pub open spec fn all_digits(s: Seq<char>) -> bool {
    forall|i: int| 0 <= i < s.len() ==> is_digit(#[trigger] s[i])
}

/// The number a sequence of decimal digits denotes, most significant first.
pub open spec fn digits_value(s: Seq<char>) -> int
    decreases s.len(),
{
    if s.len() == 0 {
        0
    } else {
        digits_value(s.drop_last()) * 10 + digit_value(s.last())
    }
}

/// A button's text parsed as a page number: a bare, non-empty run of
/// decimal digits whose value fits an `i32`.  Anything else — a glyph such
/// as an arrow, a sign, or an overflowing number — is no page number.
pub open spec fn parse_page_spec(s: Seq<char>) -> Option<int> {
    if s.len() > 0 && all_digits(s) && digits_value(s) <= i32::MAX {
        Some(digits_value(s))
    } else {
        None
    }
}

proof fn lemma_digits_nonneg(s: Seq<char>)
    requires
        all_digits(s),
    ensures
        digits_value(s) >= 0,
    decreases s.len(),
{
    if s.len() > 0 {
        assert(all_digits(s.drop_last())) by {
            assert(forall|i: int|
                0 <= i < s.len() - 1 ==> #[trigger] s.drop_last()[i] == s[i]);
        }
        lemma_digits_nonneg(s.drop_last());
    }
}

/// Appending digits never shrinks the denoted value: every prefix of an
/// all-digit run denotes at most the value of the whole run.
proof fn lemma_digits_prefix_le(s: Seq<char>, j: int)
    requires
        all_digits(s),
        0 <= j <= s.len(),
    ensures
        digits_value(s.take(j)) <= digits_value(s),
    decreases s.len() - j,
{
    if j == s.len() {
        assert(s.take(j) =~= s);
    } else {
        assert(all_digits(s.take(j))) by {
            assert(forall|i: int| 0 <= i < j ==> #[trigger] s.take(j)[i] == s[i]);
        }
        lemma_digits_nonneg(s.take(j));
        assert(s.take(j + 1).drop_last() =~= s.take(j));
        assert(s.take(j + 1).last() == s[j]);
        lemma_digits_prefix_le(s, j + 1);
    }
}

/// Parses a button's text as a page number: `Some` exactly on a non-empty
/// run of decimal digits denoting a value that fits an `i32`.
pub fn parse_page_number(s: &str) -> (r: Option<i32>)
    ensures
        match r {
            Some(n) => parse_page_spec(s@) == Some(n as int),
            None => parse_page_spec(s@) is None,
        },
{
    let len = s.unicode_len();
    if len == 0 {
        return None;
    }
    let mut acc: u32 = 0;
    let mut i: usize = 0;
    while i < len
        invariant
            0 < len == s@.len(),
            0 <= i <= len,
            all_digits(s@.take(i as int)),
            acc == digits_value(s@.take(i as int)),
            acc <= i32::MAX,
        decreases len - i,
    {
        let c = s.get_char(i);
        let u = c as u32;
        if u < 48 || u > 57 {
            assert(!is_digit(s@[i as int]));
            return None;
        }
        let d = u - 48;
        let wide: u64 = (acc as u64) * 10 + (d as u64);
        proof {
            assert(s@.take(i + 1).drop_last() =~= s@.take(i as int));
            assert(s@.take(i + 1).last() == s@[i as int]);
            assert(forall|k: int|
                0 <= k < i + 1 ==> #[trigger] s@.take(i + 1)[k] == s@[k]);
        }
        if wide > i32::MAX as u64 {
            // if the whole text is digits, its value is at least this
            // prefix's, which already exceeds i32::MAX
            proof {
                if all_digits(s@) {
                    lemma_digits_prefix_le(s@, i + 1);
                }
            }
            return None;
        }
        acc = wide as u32;
        i = i + 1;
    }
    proof {
        assert(s@.take(len as int) =~= s@);
    }
    Some(acc as i32)
}

/// The page numbers denoted by a sequence of button texts, in button order;
/// texts that are no bare integer (or buttons without text) contribute
/// nothing.
pub open spec fn pages_of_texts(texts: Seq<Option<Seq<char>>>) -> Seq<int>
    decreases texts.len(),
{
    if texts.len() == 0 {
        Seq::empty()
    } else {
        let prev = pages_of_texts(texts.drop_last());
        match texts.last() {
            Some(t) => match parse_page_spec(t) {
                Some(n) => prev.push(n),
                None => prev,
            },
            None => prev,
        }
    }
}

/// What probing a page-controller fragment discovers: the page numbers of
/// its buttons, or nothing when no controller is present.
pub open spec fn probe_spec(html: Seq<char>) -> Seq<int> {
    match sel_button_texts(html, page_controller_selector_spec(), button_selector_spec()) {
        None => Seq::empty(),
        Some(texts) => pages_of_texts(texts),
    }
}

/// Probes a page-controller fragment for the result-page numbers its
/// buttons name.  A missing controller yields the empty set — many shops
/// have a single page; button texts that are no bare integer are silently
/// excluded.
pub fn probe_fragment(html: &str) -> (r: Vec<i32>)
    ensures
        r@.map_values(|n: i32| n as int) == probe_spec(html@),
{
    let texts = match fragment_button_texts(
        html,
        page_controller_selector(),
        button_selector(),
    ) {
        Some(ts) => ts,
        None => {
            let empty: Vec<i32> = Vec::new();
            proof {
                assert(empty@.map_values(|n: i32| n as int) =~= probe_spec(html@));
            }
            return empty;
        },
    };
    let ghost gtexts = crate::html::opt_str_seq_view(texts@);
    let mut pages: Vec<i32> = Vec::new();
    let mut i: usize = 0;
    while i < texts.len()
        invariant
            0 <= i <= texts@.len(),
            gtexts == crate::html::opt_str_seq_view(texts@),
            pages@.map_values(|n: i32| n as int) == pages_of_texts(gtexts.take(i as int)),
        decreases texts@.len() - i,
    {
        let n = match &texts[i] {
            Some(t) => parse_page_number(t.as_str()),
            None => None,
        };
        proof {
            assert(gtexts.take(i + 1).drop_last() =~= gtexts.take(i as int));
            assert(gtexts.take(i + 1).last() == gtexts[i as int]);
        }
        match n {
            Some(p) => {
                pages.push(p);
                proof {
                    assert(pages@.map_values(|n: i32| n as int) =~= pages_of_texts(
                        gtexts.take(i + 1),
                    ));
                }
            },
            None => {
                proof {
                    assert(pages@.map_values(|n: i32| n as int) =~= pages_of_texts(
                        gtexts.take(i + 1),
                    ));
                }
            },
        }
        i = i + 1;
    }
    proof {
        assert(gtexts.take(texts@.len() as int) =~= gtexts);
    }
    pages
}

} // verus!
