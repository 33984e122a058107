//! The per-shop extraction engine, as an explicit state machine.
//!
//! The browser session is an outside capability reached only through
//! asynchronous I/O, so the engine never touches it: every decision of the
//! control loop lives in `Engine::step`, a verified function from state
//! and session event to next state and session command.  The caller
//! performs each command against the session and hands back the outcome.

use vstd::prelude::*;
use crate::extract::ShopStats;
use crate::extract::ValidProduct;
use crate::extract::products_view;
use crate::extract::scan_cards;
use crate::extract::scan_products;
use crate::extract::scan_stats;
use crate::extract::stats_counts;
use crate::html::opt_str_seq_view;
use crate::pagination::probe_fragment;
use crate::pagination::probe_spec;
use crate::selectors::language_button_selector;
use crate::selectors::language_button_selector_spec;
use crate::selectors::product_card_selector;
use crate::selectors::product_card_selector_spec;
use crate::selectors::page_controller_selector;
use crate::selectors::page_controller_selector_spec;
use crate::selectors::root_url;
use crate::selectors::root_url_spec;
use crate::selectors::scroll_script;
use crate::selectors::scroll_script_spec;
use crate::shop_list::ShopConfig;
use crate::urls::shop_search_url;
use crate::urls::shop_search_url_spec;

verus! {

/// Number of scroll-forward iterations the lazy-load trigger performs.
pub const SCROLL_STEPS: usize = 49;

/// Delay between two scroll iterations, in milliseconds.
pub const SCROLL_DELAY_MS: u64 = 20;

/// One iteration of the lazy-load trigger: run `script` against the
/// session, then wait `delay_ms` milliseconds.
pub struct ScrollStep {
    pub script: String,
    pub delay_ms: u64,
}

pub open spec fn scroll_plan_ok(plan: Seq<ScrollStep>) -> bool {
    &&& plan.len() == SCROLL_STEPS
    &&& forall|i: int|
        0 <= i < plan.len() ==> (#[trigger] plan[i]).script@ == scroll_script_spec() && plan[
            i
        ].delay_ms == SCROLL_DELAY_MS
}

/// The lazy-load trigger's plan: exactly `SCROLL_STEPS` invocations of the
/// scroll-forward script, each followed by the fixed `SCROLL_DELAY_MS`
/// pause.  Scrolling far enough, enough times, is a heuristic that forces a
/// virtualized grid to render its card content; nothing confirms
/// completion, so extraction after it is best-effort.
pub fn scroll_plan() -> (r: Vec<ScrollStep>)
    ensures
        scroll_plan_ok(r@),
{
    let mut plan: Vec<ScrollStep> = Vec::new();
    let mut i: usize = 0;
    while i < SCROLL_STEPS
        invariant
            0 <= i <= SCROLL_STEPS,
            plan@.len() == i,
            forall|j: int|
                0 <= j < i ==> (#[trigger] plan@[j]).script@ == scroll_script_spec() && plan@[
                    j
                ].delay_ms == SCROLL_DELAY_MS,
        decreases SCROLL_STEPS - i,
    {
        plan.push(ScrollStep { script: String::from_str(scroll_script()), delay_ms: SCROLL_DELAY_MS });
        i = i + 1;
    }
    plan
}

/// Why a run was aborted: the one-time language handshake and a failing
/// scroll script are fatal; `Protocol` marks an event the current phase
/// cannot take.
#[derive(Clone, Copy, Debug, PartialEq, Eq, Structural)]
pub enum AbortReason {
    Fullscreen,
    RootNavigation,
    LanguageWait,
    LanguageClick,
    ScrollScript,
    Protocol,
}

/// The per-shop summary the engine reports before moving on.
pub struct ShopReport {
    pub shop_name: String,
    pub stats: ShopStats,
}

/// What the engine asks the session's driver to do next.
pub enum Command {
    /// Make the browser window fullscreen.
    Fullscreen,
    /// Navigate to `url`.
    Navigate { url: String },
    /// Wait, bounded, for an element matching `selector` to exist.
    WaitForElement { selector: String },
    /// Click the element the preceding wait found.
    ClickFound,
    /// Snapshot all elements matching `selector`, keeping them for later
    /// fragment retrieval.
    FindCards { selector: String },
    /// Run the lazy-load trigger: each step of `plan` in order.
    RunScroll { plan: Vec<ScrollStep> },
    /// Retrieve the HTML fragment of each card of the snapshot, in order;
    /// `None` for a card whose fragment could not be retrieved.
    FetchCardFragments,
    /// Find the element matching `selector` and retrieve its HTML
    /// fragment; `None` when it is absent or retrieval fails.
    FetchControllerFragment { selector: String },
    /// Log the per-shop summary.
    ReportShop { report: ShopReport },
    /// Log that the current shop was skipped after a shop-level failure.
    SkipShop { shop_name: String },
    /// The run is over; the extracted products are ready.
    Finish,
    /// The run failed fatally.
    Abort { reason: AbortReason },
}

/// What came back from performing the previous command.
pub enum Event {
    /// Starts the run; the only event the fresh engine takes.
    Start,
    /// The previous command succeeded.
    Completed,
    /// The previous command failed (or timed out).
    Failed,
    /// The card fragments, in snapshot order; answers `FetchCardFragments`.
    Fragments { cards: Vec<Option<String>> },
    /// The page controller's fragment, if any; answers
    /// `FetchControllerFragment`.
    Controller { html: Option<String> },
}

/// Where the engine stands; shop-scoped phases refer to the shop at `idx`.
#[derive(Clone, Copy, Debug, PartialEq, Eq, Structural)]
pub enum Phase {
    Boot,
    SettingFullscreen,
    NavigatingRoot,
    WaitingLanguage,
    ClickingLanguage,
    NavigatingShop,
    WaitingCard,
    FindingCards,
    Scrolling,
    FetchingCards,
    Probing,
    Reporting,
    SkippingShop,
    Done,
    Aborted,
}

pub open spec fn shop_phase(p: Phase) -> bool {
    ||| p is NavigatingShop
    ||| p is WaitingCard
    ||| p is FindingCards
    ||| p is Scrolling
    ||| p is FetchingCards
    ||| p is Probing
    ||| p is Reporting
}

/// The orchestrator's state: the configured shops, the shop being worked
/// on, the run-global result list, and — between the card scan and the
/// report — the counters of the current shop.
pub struct Engine {
    pub shops: Vec<ShopConfig>,
    pub idx: usize,
    pub phase: Phase,
    pub products: Vec<ValidProduct>,
    pub pending: Option<ShopStats>,
}

impl Engine {
    pub open spec fn wf(self) -> bool {
        &&& self.idx <= self.shops@.len()
        &&& shop_phase(self.phase) ==> self.idx < self.shops@.len()
        &&& self.phase is Probing ==> self.pending is Some
    }

    pub open spec fn cur_shop(self) -> ShopConfig
        recommends
            self.idx < self.shops@.len(),
    {
        self.shops@[self.idx as int]
    }

    /// A fresh engine over `shops`, before any session work.
    pub fn new(shops: Vec<ShopConfig>) -> (r: Engine)
        ensures
            r.wf(),
            r.phase is Boot,
            r.shops == shops,
            r.idx == 0,
            r.products@.len() == 0,
            r.pending is None,
    {
        Engine { shops, idx: 0, phase: Phase::Boot, products: Vec::new(), pending: None }
    }
}

/// `post` and `cmd` begin work on the shop `pre.idx` of `pre`: navigate to
/// its search URL; or skip it at once when the URL cannot be built; or
/// finish the run when no shop is left.
pub open spec fn starts_shop(pre: Engine, post: Engine, cmd: Command) -> bool {
    &&& post.shops == pre.shops
    &&& post.products == pre.products
    &&& post.pending == pre.pending
    &&& if pre.idx >= pre.shops@.len() {
        &&& post.idx == pre.idx
        &&& post.phase is Done
        &&& cmd is Finish
    } else {
        match shop_search_url_spec(pre.cur_shop().shop_id@) {
            Some(u) => {
                &&& post.idx == pre.idx
                &&& post.phase is NavigatingShop
                &&& cmd matches Command::Navigate { url } && url@ == u
            },
            None => {
                &&& post.idx == pre.idx + 1
                &&& post.phase is SkippingShop
                &&& cmd matches Command::SkipShop { shop_name } && shop_name@ == pre.cur_shop().shop_name@
            },
        }
    }
}

/// `post` and `cmd` skip the shop `pre.idx` after a shop-level failure and
/// await the acknowledgement of the skip notice.
pub open spec fn skips_shop(pre: Engine, post: Engine, cmd: Command) -> bool {
    &&& post.shops == pre.shops
    &&& post.products == pre.products
    &&& post.pending == pre.pending
    &&& post.idx == pre.idx + 1
    &&& post.phase is SkippingShop
    &&& cmd matches Command::SkipShop { shop_name } && shop_name@ == pre.cur_shop().shop_name@
}

/// `post` and `cmd` abort the run for `reason`, leaving everything else as
/// it was.
pub open spec fn aborts(pre: Engine, post: Engine, cmd: Command, reason: AbortReason) -> bool {
    &&& post.shops == pre.shops
    &&& post.products == pre.products
    &&& post.idx == pre.idx
    &&& post.phase is Aborted
    &&& cmd matches Command::Abort { reason: r } && r == reason
}

/// `post` equals `pre` but for the phase, and keeps the shop index.
pub open spec fn advances(pre: Engine, post: Engine, phase: Phase) -> bool {
    &&& post.shops == pre.shops
    &&& post.products == pre.products
    &&& post.pending == pre.pending
    &&& post.idx == pre.idx
    &&& post.phase == phase
}

/// `e` with the shop index moved to the next shop.
pub open spec fn bumped(e: Engine) -> Engine {
    Engine {
        shops: e.shops,
        idx: (e.idx + 1) as usize,
        phase: e.phase,
        products: e.products,
        pending: e.pending,
    }
}

/// The engine's transition relation: what one `step` does with each event
/// in each phase.  It is the whole control loop: a one-time
/// fullscreen-and-language handshake whose failure is fatal; then, per
/// shop, navigate, wait for a card, snapshot the cards, trigger lazy
/// loading (whose failure is fatal), scan every card fragment, probe the
/// page controller (whose absence is no error) and report — with every
/// shop-level failure skipping to the next shop.
pub open spec fn step_ok(pre: Engine, ev: Event, post: Engine, cmd: Command) -> bool {
    match (pre.phase, ev) {
        (Phase::Boot, Event::Start) => advances(pre, post, Phase::SettingFullscreen)
            && cmd is Fullscreen,
        (Phase::SettingFullscreen, Event::Completed) => advances(pre, post, Phase::NavigatingRoot)
            && (cmd matches Command::Navigate { url } && url@ == root_url_spec()),
        (Phase::SettingFullscreen, Event::Failed) => aborts(pre, post, cmd, AbortReason::Fullscreen),
        (Phase::NavigatingRoot, Event::Completed) => advances(pre, post, Phase::WaitingLanguage)
            && (cmd matches Command::WaitForElement { selector }
                && selector@ == language_button_selector_spec()),
        (Phase::NavigatingRoot, Event::Failed) => aborts(
            pre,
            post,
            cmd,
            AbortReason::RootNavigation,
        ),
        (Phase::WaitingLanguage, Event::Completed) => advances(pre, post, Phase::ClickingLanguage)
            && cmd is ClickFound,
        (Phase::WaitingLanguage, Event::Failed) => aborts(pre, post, cmd, AbortReason::LanguageWait),
        (Phase::ClickingLanguage, Event::Completed) => starts_shop(pre, post, cmd),
        (Phase::ClickingLanguage, Event::Failed) => aborts(
            pre,
            post,
            cmd,
            AbortReason::LanguageClick,
        ),
        (Phase::SkippingShop, Event::Completed) => starts_shop(pre, post, cmd),
        (Phase::NavigatingShop, Event::Completed) => advances(pre, post, Phase::WaitingCard)
            && (cmd matches Command::WaitForElement { selector }
                && selector@ == product_card_selector_spec()),
        (Phase::NavigatingShop, Event::Failed) => skips_shop(pre, post, cmd),
        (Phase::WaitingCard, Event::Completed) => advances(pre, post, Phase::FindingCards)
            && (cmd matches Command::FindCards { selector }
                && selector@ == product_card_selector_spec()),
        (Phase::WaitingCard, Event::Failed) => skips_shop(pre, post, cmd),
        (Phase::FindingCards, Event::Completed) => advances(pre, post, Phase::Scrolling)
            && (cmd matches Command::RunScroll { plan } && scroll_plan_ok(plan@)),
        (Phase::FindingCards, Event::Failed) => skips_shop(pre, post, cmd),
        (Phase::Scrolling, Event::Completed) => advances(pre, post, Phase::FetchingCards)
            && cmd is FetchCardFragments,
        (Phase::Scrolling, Event::Failed) => aborts(pre, post, cmd, AbortReason::ScrollScript),
        (Phase::FetchingCards, Event::Fragments { cards }) => {
            let frags = opt_str_seq_view(cards@);
            let shop_name = pre.cur_shop().shop_name@;
            &&& post.shops == pre.shops
            &&& post.idx == pre.idx
            &&& post.phase is Probing
            &&& products_view(post.products@) == products_view(pre.products@) + scan_products(
                frags,
                shop_name,
            )
            &&& post.pending matches Some(st) && stats_counts(st) == scan_stats(frags, shop_name)
                && st.discovered_pages@.len() == 0
            &&& cmd matches Command::FetchControllerFragment { selector }
                && selector@ == page_controller_selector_spec()
        },
        (Phase::Probing, Event::Controller { html }) => {
            let pages = match html {
                Some(h) => probe_spec(h@),
                None => Seq::<int>::empty(),
            };
            &&& post.shops == pre.shops
            &&& post.products == pre.products
            &&& post.idx == pre.idx
            &&& post.phase is Reporting
            &&& post.pending is None
            &&& pre.pending matches Some(st)
            &&& cmd matches Command::ReportShop { report }
                && report.shop_name@ == pre.cur_shop().shop_name@
                && stats_counts(report.stats) == stats_counts(st)
                && report.stats.discovered_pages@.map_values(|n: i32| n as int) == pages
        },
        (Phase::Reporting, Event::Completed) => starts_shop(bumped(pre), post, cmd),
        _ => aborts(pre, post, cmd, AbortReason::Protocol),
    }
}

/// The run-global result list is append-only: no step reorders or drops
/// what was already extracted, so the products stay in shop order, then
/// card-scan order, for the whole run.
pub proof fn lemma_step_appends_products(pre: Engine, ev: Event, post: Engine, cmd: Command)
    requires
        step_ok(pre, ev, post, cmd),
    ensures
        products_view(pre.products@).is_prefix_of(products_view(post.products@)),
{
    assert(products_view(pre.products@) =~= products_view(post.products@).subrange(
        0,
        products_view(pre.products@).len() as int,
    ));
}

impl Engine {
    /// Takes the outcome of the previous command and decides the next one.
    /// The whole control flow of the run — handshake, per-shop sequencing,
    /// failure isolation and result accumulation — is this transition.
    pub fn step(&mut self, ev: Event) -> (cmd: Command)
        requires
            old(self).wf(),
        ensures
            final(self).wf(),
            step_ok(*old(self), ev, *final(self), cmd),
    {
        match (self.phase, ev) {
            (Phase::Boot, Event::Start) => {
                self.phase = Phase::SettingFullscreen;
                Command::Fullscreen
            },
            (Phase::SettingFullscreen, Event::Completed) => {
                self.phase = Phase::NavigatingRoot;
                Command::Navigate { url: String::from_str(root_url()) }
            },
            (Phase::SettingFullscreen, Event::Failed) => self.abort(AbortReason::Fullscreen),
            (Phase::NavigatingRoot, Event::Completed) => {
                self.phase = Phase::WaitingLanguage;
                Command::WaitForElement { selector: String::from_str(language_button_selector()) }
            },
            (Phase::NavigatingRoot, Event::Failed) => self.abort(AbortReason::RootNavigation),
            (Phase::WaitingLanguage, Event::Completed) => {
                self.phase = Phase::ClickingLanguage;
                Command::ClickFound
            },
            (Phase::WaitingLanguage, Event::Failed) => self.abort(AbortReason::LanguageWait),
            (Phase::ClickingLanguage, Event::Completed) => self.start_shop(),
            (Phase::ClickingLanguage, Event::Failed) => self.abort(AbortReason::LanguageClick),
            (Phase::SkippingShop, Event::Completed) => self.start_shop(),
            (Phase::NavigatingShop, Event::Completed) => {
                self.phase = Phase::WaitingCard;
                Command::WaitForElement { selector: String::from_str(product_card_selector()) }
            },
            (Phase::NavigatingShop, Event::Failed) => self.skip_shop(),
            (Phase::WaitingCard, Event::Completed) => {
                self.phase = Phase::FindingCards;
                Command::FindCards { selector: String::from_str(product_card_selector()) }
            },
            (Phase::WaitingCard, Event::Failed) => self.skip_shop(),
            (Phase::FindingCards, Event::Completed) => {
                self.phase = Phase::Scrolling;
                Command::RunScroll { plan: scroll_plan() }
            },
            (Phase::FindingCards, Event::Failed) => self.skip_shop(),
            (Phase::Scrolling, Event::Completed) => {
                self.phase = Phase::FetchingCards;
                Command::FetchCardFragments
            },
            (Phase::Scrolling, Event::Failed) => self.abort(AbortReason::ScrollScript),
            (Phase::FetchingCards, Event::Fragments { cards }) => {
                let shop_name = self.shops[self.idx].shop_name.clone();
                let (stats, mut found) = scan_cards(&cards, shop_name.as_str());
                let ghost pre_products = self.products@;
                self.products.append(&mut found);
                proof {
                    assert(products_view(self.products@) =~= products_view(pre_products)
                        + scan_products(
                        opt_str_seq_view(cards@),
                        old(self).cur_shop().shop_name@,
                    ));
                }
                self.pending = Some(stats);
                self.phase = Phase::Probing;
                Command::FetchControllerFragment {
                    selector: String::from_str(page_controller_selector()),
                }
            },
            (Phase::Probing, Event::Controller { html }) => {
                let mut stats = match self.pending.take() {
                    Some(st) => st,
                    None => {
                        return self.abort(AbortReason::Protocol);
                    },
                };
                let pages = match &html {
                    Some(h) => probe_fragment(h.as_str()),
                    None => Vec::new(),
                };
                proof {
                    if html is None {
                        assert(pages@.map_values(|n: i32| n as int) =~= Seq::<int>::empty());
                    }
                }
                stats.discovered_pages = pages;
                let shop_name = self.shops[self.idx].shop_name.clone();
                self.phase = Phase::Reporting;
                Command::ReportShop { report: ShopReport { shop_name, stats } }
            },
            (Phase::Reporting, Event::Completed) => {
                let _len = self.shops.len();
                self.idx = self.idx + 1;
                self.start_shop()
            },
            (_, _) => self.abort(AbortReason::Protocol),
        }
    }

    fn abort(&mut self, reason: AbortReason) -> (cmd: Command)
        requires
            old(self).idx <= old(self).shops@.len(),
        ensures
            final(self).wf(),
            aborts(*old(self), *final(self), cmd, reason),
    {
        self.phase = Phase::Aborted;
        Command::Abort { reason }
    }

    fn skip_shop(&mut self) -> (cmd: Command)
        requires
            old(self).wf(),
            old(self).idx < old(self).shops@.len(),
        ensures
            final(self).wf(),
            skips_shop(*old(self), *final(self), cmd),
    {
        let _len = self.shops.len();
        let name = self.shops[self.idx].shop_name.clone();
        self.idx = self.idx + 1;
        self.phase = Phase::SkippingShop;
        Command::SkipShop { shop_name: name }
    }

    fn start_shop(&mut self) -> (cmd: Command)
        requires
            old(self).idx <= old(self).shops@.len(),
        ensures
            final(self).wf(),
            starts_shop(*old(self), *final(self), cmd),
    {
        if self.idx >= self.shops.len() {
            self.phase = Phase::Done;
            return Command::Finish;
        }
        match shop_search_url(self.shops[self.idx].shop_id.as_str()) {
            Some(u) => {
                self.phase = Phase::NavigatingShop;
                Command::Navigate { url: u }
            },
            None => {
                let name = self.shops[self.idx].shop_name.clone();
                self.idx = self.idx + 1;
                self.phase = Phase::SkippingShop;
                Command::SkipShop { shop_name: name }
            },
        }
    }
}

} // verus!
