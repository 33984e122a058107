use shopscrape::pagination::parse_page_number;
use shopscrape::pagination::probe_fragment;

#[test]
fn parses_bare_integers() {
    assert_eq!(parse_page_number("1"), Some(1));
    assert_eq!(parse_page_number("12"), Some(12));
    assert_eq!(parse_page_number("007"), Some(7));
    assert_eq!(parse_page_number("2147483647"), Some(i32::MAX));
}

#[test]
fn rejects_what_is_no_bare_integer() {
    assert_eq!(parse_page_number(""), None);
    assert_eq!(parse_page_number("<"), None);
    assert_eq!(parse_page_number(">"), None);
    assert_eq!(parse_page_number("+3"), None);
    assert_eq!(parse_page_number("-1"), None);
    assert_eq!(parse_page_number("1a"), None);
    assert_eq!(parse_page_number("2147483648"), None);
    assert_eq!(parse_page_number("99999999999999999999"), None);
}

fn controller_fragment() -> String {
    "<div class=\"shopee-page-controller\"><button>&lt;</button><button>1</button><button>2</button><button>3</button><button>&gt;</button></div>"
    .to_string()
}

#[test]
fn probing_keeps_the_numbered_buttons_only() {
    // buttons "<", "1", "2", "3", ">" yield the pages 1, 2 and 3
    let pages = probe_fragment(&controller_fragment());
    assert_eq!(pages, vec![1, 2, 3]);
}

#[test]
fn probing_without_a_controller_yields_no_pages() {
    let pages = probe_fragment("<div class=\"something-else\"></div>");
    assert!(pages.is_empty());
}

#[test]
fn buttons_without_text_are_excluded() {
    let fragment = "<div class=\"shopee-page-controller\"><button></button><button>4</button></div>"
    .to_string();
    assert_eq!(probe_fragment(&fragment), vec![4]);
}
