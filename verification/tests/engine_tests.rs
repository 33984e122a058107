use shopscrape::engine::Command;
use shopscrape::engine::Engine;
use shopscrape::engine::Event;
use shopscrape::engine::scroll_plan;
use shopscrape::shop_list::ShopConfig;

fn shop(id: &str, name: &str) -> ShopConfig {
    ShopConfig {
        shop_id: id.to_string(),
        shop_name: name.to_string(),
        search_query: "graphics card".to_string(),
        product_match: vec!["rtx".to_string()],
    }
}

fn valid_card(name: &str) -> Option<String> {
    Some(format!(
        "<div><div class=\"Cve6sh\">{}</div><div class=\"vioxXd rVLWG6\">RM 10</div><a data-sqe=\"link\" href=\"/p/1?t=1\"></a></div>",
        name
    ))
}

fn card_missing_price() -> Option<String> {
    Some(
        "<div><div class=\"Cve6sh\">no price here</div><a data-sqe=\"link\" href=\"/p/2\"></a></div>"
        .to_string(),
    )
}

/// A session double that only counts how often the scroll script ran and
/// with which delay each invocation was paired.
struct MockSession {
    script_runs: usize,
    delays: Vec<u64>,
}

impl MockSession {
    fn execute(&mut self, script: &str) {
        assert_eq!(script, "window.scrollByPages(1)");
        self.script_runs += 1;
    }

    fn sleep(&mut self, ms: u64) {
        self.delays.push(ms);
    }
}

#[test]
fn lazy_load_trigger_scrolls_exactly_forty_nine_times() {
    let mut session = MockSession { script_runs: 0, delays: Vec::new() };
    for step in scroll_plan() {
        session.execute(&step.script);
        session.sleep(step.delay_ms);
    }
    assert_eq!(session.script_runs, 49);
    assert_eq!(session.delays.len(), 49);
    assert!(session.delays.iter().all(|d| *d == 20));
}

#[test]
fn full_run_over_two_shops() {
    // shop A serves three cards (two valid, one missing its price); shop B
    // never shows a card and is skipped; the run completes either way
    let mut engine = Engine::new(vec![shop("111", "shop A"), shop("222", "shop B")]);

    assert!(matches!(engine.step(Event::Start), Command::Fullscreen));
    match engine.step(Event::Completed) {
        Command::Navigate { url } => assert_eq!(url, "https://shopee.com.my"),
        other => panic!("unexpected command {:?}", command_name(&other)),
    }
    match engine.step(Event::Completed) {
        Command::WaitForElement { selector } => {
            assert!(selector.contains("language-selection"))
        },
        other => panic!("unexpected command {:?}", command_name(&other)),
    }
    assert!(matches!(engine.step(Event::Completed), Command::ClickFound));

    // shop A
    match engine.step(Event::Completed) {
        Command::Navigate { url } => assert_eq!(
            url,
            "https://shopee.com.my/search?keyword=graphics+card&shop=111&page=0"
        ),
        other => panic!("unexpected command {:?}", command_name(&other)),
    }
    match engine.step(Event::Completed) {
        Command::WaitForElement { selector } => {
            assert_eq!(selector, ".shopee-search-item-result__item")
        },
        other => panic!("unexpected command {:?}", command_name(&other)),
    }
    match engine.step(Event::Completed) {
        Command::FindCards { selector } => {
            assert_eq!(selector, ".shopee-search-item-result__item")
        },
        other => panic!("unexpected command {:?}", command_name(&other)),
    }
    match engine.step(Event::Completed) {
        Command::RunScroll { plan } => {
            assert_eq!(plan.len(), 49);
            assert!(plan.iter().all(|s| s.delay_ms == 20));
        },
        other => panic!("unexpected command {:?}", command_name(&other)),
    }
    assert!(matches!(engine.step(Event::Completed), Command::FetchCardFragments));

    let cards = vec![valid_card("one"), valid_card("two"), card_missing_price()];
    match engine.step(Event::Fragments { cards }) {
        Command::FetchControllerFragment { selector } => {
            assert_eq!(selector, ".shopee-page-controller")
        },
        other => panic!("unexpected command {:?}", command_name(&other)),
    }
    match engine.step(Event::Controller { html: None }) {
        Command::ReportShop { report } => {
            assert_eq!(report.shop_name, "shop A");
            assert_eq!(report.stats.valid_count, 2);
            assert_eq!(report.stats.price_missing, 1);
            assert_eq!(report.stats.name_missing, 0);
            assert_eq!(report.stats.url_missing, 0);
            assert!(report.stats.discovered_pages.is_empty());
        },
        other => panic!("unexpected command {:?}", command_name(&other)),
    }

    // shop B: the card wait times out, the shop is skipped
    match engine.step(Event::Completed) {
        Command::Navigate { url } => assert_eq!(
            url,
            "https://shopee.com.my/search?keyword=graphics+card&shop=222&page=0"
        ),
        other => panic!("unexpected command {:?}", command_name(&other)),
    }
    match engine.step(Event::Completed) {
        Command::WaitForElement { selector } => {
            assert_eq!(selector, ".shopee-search-item-result__item")
        },
        other => panic!("unexpected command {:?}", command_name(&other)),
    }
    match engine.step(Event::Failed) {
        Command::SkipShop { shop_name } => assert_eq!(shop_name, "shop B"),
        other => panic!("unexpected command {:?}", command_name(&other)),
    }
    assert!(matches!(engine.step(Event::Completed), Command::Finish));

    assert_eq!(engine.products.len(), 2);
    assert_eq!(engine.products[0].name, "one");
    assert_eq!(engine.products[1].name, "two");
    assert_eq!(engine.products[0].shop_name, "shop A");
    assert_eq!(engine.products[0].url, "https://shopee.com.my/p/1?");
}

#[test]
fn fatal_language_handshake_aborts_the_run() {
    let mut engine = Engine::new(vec![shop("1", "a")]);
    assert!(matches!(engine.step(Event::Start), Command::Fullscreen));
    assert!(matches!(engine.step(Event::Completed), Command::Navigate { .. }));
    assert!(matches!(engine.step(Event::Completed), Command::WaitForElement { .. }));
    assert!(matches!(engine.step(Event::Failed), Command::Abort { .. }));
}

#[test]
fn discovered_pages_reach_the_report() {
    let mut engine = Engine::new(vec![shop("1", "a")]);
    engine.step(Event::Start);
    engine.step(Event::Completed); // root navigation
    engine.step(Event::Completed); // language wait
    engine.step(Event::Completed); // click -> first shop
    engine.step(Event::Completed); // navigate
    engine.step(Event::Completed); // card wait
    engine.step(Event::Completed); // find cards
    engine.step(Event::Completed); // scroll plan
    engine.step(Event::Completed); // fetch fragments
    engine.step(Event::Fragments { cards: Vec::new() });
    let controller = "<div class=\"shopee-page-controller\"><button>&lt;</button><button>1</button><button>2</button><button>3</button><button>&gt;</button></div>"
    .to_string();
    match engine.step(Event::Controller { html: Some(controller) }) {
        Command::ReportShop { report } => {
            assert_eq!(report.stats.discovered_pages, vec![1, 2, 3]);
            assert_eq!(report.stats.valid_count, 0);
        },
        _ => panic!("expected a shop report"),
    }
}

fn command_name(c: &Command) -> &'static str {
    match c {
        Command::Fullscreen => "Fullscreen",
        Command::Navigate { .. } => "Navigate",
        Command::WaitForElement { .. } => "WaitForElement",
        Command::ClickFound => "ClickFound",
        Command::FindCards { .. } => "FindCards",
        Command::RunScroll { .. } => "RunScroll",
        Command::FetchCardFragments => "FetchCardFragments",
        Command::FetchControllerFragment { .. } => "FetchControllerFragment",
        Command::ReportShop { .. } => "ReportShop",
        Command::SkipShop { .. } => "SkipShop",
        Command::Finish => "Finish",
        Command::Abort { .. } => "Abort",
    }
}
