//! Reading the statistics site's pages. Every selector the bot depends on
//! stands here, and each page is read into the plain values that the replies
//! are built from; a lookup that finds nothing fails the whole command.
use vstd::prelude::*;
use vstd::string::*;
use crate::champion_build::{get_lane, opt_view};
use crate::lists::{get_counter_lane, RankedEntry, NUM_CHAMP_COUNTERS};
use crate::text::views_of;
use crate::runes::{get_runes, grid_view, rune_page_from, RuneBuild};
use crate::text::upper_of;
use crate::win_rate::{parse_win_rate, win_rate_of, WinRate};

verus! {

/// The marker the build page shows when it has no data for a query.
pub const NO_DATA_SELECTOR: &'static str = ".flex .items-center .flex-col .w-full .py-[60px] .px-[12px] .bg-purple-400 .rounded-[3px]";

/// The build panel that a loaded build page shows.
pub const BUILD_PANEL_SELECTOR: &'static str = ".champion-recommended-build";

/// The active role filter that a loaded build page shows.
pub const ACTIVE_ROLE_SELECTOR: &'static str = "a.role-filter.active";

/// The content of a page.
pub const CONTENT_SELECTOR: &'static str = "div#content";

/// The table body of the tier list.
pub const TIER_TABLE_SELECTOR: &'static str = "#content .tier-list .rt-tbody";

/// The name in an item's tooltip.
pub const TOOLTIP_TEXT_SELECTOR: &'static str = "div#tooltip-portal .tooltip-item .name";

/// The starting items of a build.
pub const STARTING_ITEMS_SELECTOR: &'static str = ".recommended-build_items .starting-items .item-img";

/// The core items of a build.
pub const CORE_ITEMS_SELECTOR: &'static str = ".recommended-build_items .core-items .image-wrapper";

/// The options for a build's fourth item.
pub const FOURTH_ITEMS_SELECTOR: &'static str = ".recommended-build_items .item-options-1 .item-img";

/// The options for a build's fifth item.
pub const FIFTH_ITEMS_SELECTOR: &'static str = ".recommended-build_items .item-options-2 .item-img";

/// The options for a build's sixth item.
pub const SIXTH_ITEMS_SELECTOR: &'static str = ".recommended-build_items .item-options-3 .item-img";

/// The win rate on a build page with an opponent.
pub const WINRATE_SELECTOR: &'static str = ".champion-recommended-build > div:first-child > div:first-child > div:first-child > div:first-child";

/// The win rate on a build page without an opponent.
pub const WINRATE_SELECTOR_IF_OPP: &'static str = ".champion-recommended-build > div:first-child > div:first-child > div:nth-child(2) > div:first-child";

/// The lane a build page shows.
pub const BUILD_LANE_SELECTOR: &'static str = ".role-value div";

/// The title of the primary rune tree.
pub const PRIMARY_TITLE_SELECTOR: &'static str = ".media-query_MOBILE_LARGE__DESKTOP_LARGE .rune-tree.primary-tree .perk-style-title .pointer";

/// The title of the secondary rune tree.
pub const SECONDARY_TITLE_SELECTOR: &'static str = ".media-query_MOBILE_LARGE__DESKTOP_LARGE .secondary-tree .perk-style-title .pointer";

/// The rows of the primary rune tree.
pub const PRIMARY_ROWS_SELECTOR: &'static str = ".media-query_MOBILE_LARGE__DESKTOP_LARGE .rune-tree.primary-tree .perk-row .perks";

/// The rows of the secondary rune tree.
pub const SECONDARY_ROWS_SELECTOR: &'static str = ".media-query_MOBILE_LARGE__DESKTOP_LARGE .secondary-tree :first-child .rune-tree .perk-row .perks";

/// The rows of the stat shards.
pub const SHARD_ROWS_SELECTOR: &'static str = ".media-query_MOBILE_LARGE__DESKTOP_LARGE .stat-shards-container .perk-row .perks";

/// The rows of the skill order.
pub const SKILL_ROW_SELECTOR: &'static str = ".skill-order-row";

/// The cells of a skill-order row.
pub const SKILL_CELL_SELECTOR: &'static str = ".skill-order > div";

/// The lane a counters page shows.
pub const COUNTER_LANE_SELECTOR: &'static str = ".media-query_MOBILE_SMALL__DESKTOP_SMALL .filter-select .role-value div";

/// The entries of the best picks on a counters page.
pub const BEST_PICKS_SELECTOR: &'static str = ".w-full.grid div:first-child a";

/// The entries of the worst picks on a counters page.
pub const WORST_PICKS_SELECTOR: &'static str = ".w-full.grid div:nth-child(2) a";

/// The entries of the same-lane picks on a counters page.
pub const LANE_PICKS_SELECTOR: &'static str = ".w-full.grid div:nth-child(3) a";

/// A champion's name in a counters entry.
pub const COUNTER_NAME_SELECTOR: &'static str = ".text-white.font-bold.truncate";

/// A champion's win rate in a counters entry.
pub const COUNTER_RATE_SELECTOR: &'static str = ".font-bold.whitespace-nowrap.text-right";

/// The rows of the tier list.
pub const TIER_ROW_SELECTOR: &'static str = ".rt-tr-group .rt-tr";

/// A champion's name in a tier-list row.
pub const TIER_NAME_SELECTOR: &'static str = ".rt-td:nth-child(3) strong";

/// A champion's tier in a tier-list row.
pub const TIER_RATE_SELECTOR: &'static str = ".rt-td:nth-child(5) b";

/// Why a page could not be read.
#[derive(Clone, Copy, Debug, PartialEq, Eq, Structural)]
pub enum PageError {
    /// A selector is not valid CSS.
    InvalidSelector,
    /// An element that the page must show is missing.
    ElementNotFound,
}

impl PageError {
    /// The message shown to the user.
    pub fn to_text(&self) -> (r: String)
        ensures
            r@ == match *self {
                PageError::InvalidSelector => "Invalid selector"@,
                PageError::ElementNotFound => "Element not found"@,
            },
    {
        match self {
            PageError::InvalidSelector => String::from_str("Invalid selector"),
            PageError::ElementNotFound => String::from_str("Element not found"),
        }
    }
}

/// The view of an optional string.
pub open spec fn opt_text(o: Option<String>) -> Option<Seq<char>> {
    match o {
        Some(s) => Some(s@),
        None => None,
    }
}

/// The view of what a selection found: per element, its first text and the
/// class of each child.
pub open spec fn elements_view(v: Seq<(Option<String>, Vec<Option<String>>)>) -> Seq<
    (Option<Seq<char>>, Seq<Option<Seq<char>>>),
> {
    Seq::new(
        v.len(),
        |i: int| (opt_text(v[i].0), Seq::new(v[i].1@.len(), |j: int| opt_text(v[i].1@[j]))),
    )
}

/// The view of what a nested selection found: per outer element, per inner
/// element, its first text and its class.
pub open spec fn inner_view(v: Seq<Vec<(Option<String>, Option<String>)>>) -> Seq<
    Seq<(Option<Seq<char>>, Option<Seq<char>>)>,
> {
    Seq::new(
        v.len(),
        |i: int| Seq::new(v[i]@.len(), |j: int| (opt_text(v[i]@[j].0), opt_text(v[i]@[j].1))),
    )
}

/// What scraper finds in the document `html` for `selector`: per matching
/// element, in the order that `Html::select` yields them, its first text node and the class attribute
/// of each child node (none where the child is no element or has no class);
/// `None` where the selector does not parse.
pub uninterp spec fn selected(html: Seq<char>, selector: Seq<char>) -> Option<
    Seq<(Option<Seq<char>>, Seq<Option<Seq<char>>>)>,
>;

/// What scraper finds in the document `html` for `inner` within each element
/// that `outer` matches: per inner match, its first text node and its class
/// attribute; `None` where a selector does not parse.
pub uninterp spec fn selected_within(html: Seq<char>, outer: Seq<char>, inner: Seq<char>) -> Option<
    Seq<Seq<(Option<Seq<char>>, Option<Seq<char>>)>>,
>;

/// `s` without leading and trailing whitespace, as `str::trim` gives it.
pub uninterp spec fn trimmed(s: Seq<char>) -> Seq<char>;

/// Relies on scraper's `Selector::parse`, `Html::parse_document` and
/// `Html::select`, with `ElementRef::text` and the class attributes of the
/// children: what the document holds for a selector depends on the two texts
/// alone.
#[verifier::external_body]
fn select_elements(html: &str, selector: &str) -> (r: Option<
    Vec<(Option<String>, Vec<Option<String>>)>,
>)
    ensures
        match r {
            Some(v) => selected(html@, selector@) == Some(elements_view(v@)),
            None => selected(html@, selector@) is None,
        },
{
    let sel = scraper::Selector::parse(selector).ok()?;
    let doc = scraper::Html::parse_document(html);
    Some(
        doc.select(&sel)
            .map(|e| {
                let classes = e.children().map(|c| c.value().as_element().and_then(|x| x.attr("class")));
                (e.text().next().map(String::from), classes.map(|c| c.map(String::from)).collect())
            })
            .collect(),
    )
}

/// Relies on scraper's `Selector::parse`, `Html::parse_document`,
/// `Html::select` and `ElementRef::select`, with `ElementRef::text` and
/// `ElementRef::attr`: what the document holds depends on the three texts
/// alone.
#[verifier::external_body]
fn select_within(html: &str, outer: &str, inner: &str) -> (r: Option<
    Vec<Vec<(Option<String>, Option<String>)>>,
>)
    ensures
        match r {
            Some(v) => selected_within(html@, outer@, inner@) == Some(inner_view(v@)),
            None => selected_within(html@, outer@, inner@) is None,
        },
{
    let (o, i) = (scraper::Selector::parse(outer).ok()?, scraper::Selector::parse(inner).ok()?);
    let doc = scraper::Html::parse_document(html);
    let cell = |x: scraper::ElementRef| {
        (x.text().next().map(String::from), x.attr("class").map(String::from))
    };
    Some(doc.select(&o).map(|e| e.select(&i).map(cell).collect()).collect())
}

/// Relies on `str::trim`: what is left depends on the characters alone.
#[verifier::external_body]
fn trim_text(s: &str) -> (r: String)
    ensures
        r@ == trimmed(s@),
{
    s.trim().to_string()
}

/// The first text of the first element that `selector` finds.
pub open spec fn first_text_of(html: Seq<char>, selector: Seq<char>) -> Result<Seq<char>, PageError> {
    match selected(html, selector) {
        None => Err(PageError::InvalidSelector),
        Some(es) => if es.len() > 0 && es[0].0 is Some {
            Ok(es[0].0->Some_0)
        } else {
            Err(PageError::ElementNotFound)
        },
    }
}

/// Reads the first text of the first element that `selector` finds.
pub fn first_text(html: &str, selector: &str) -> (r: Result<String, PageError>)
    ensures
        match first_text_of(html@, selector@) {
            Ok(t) => r is Ok && r->Ok_0@ == t,
            Err(e) => r == Err::<String, PageError>(e),
        },
{
    let found = match select_elements(html, selector) {
        Some(v) => v,
        None => return Err(PageError::InvalidSelector),
    };
    if found.len() == 0 {
        return Err(PageError::ElementNotFound);
    }
    match &found[0].0 {
        Some(t) => Ok(t.clone()),
        None => Err(PageError::ElementNotFound),
    }
}

/// The class of every child of every element that `selector` finds; every
/// child must be an element with a class.
pub open spec fn row_classes_of(html: Seq<char>, selector: Seq<char>) -> Result<
    Seq<Seq<Seq<char>>>,
    PageError,
> {
    match selected(html, selector) {
        None => Err(PageError::InvalidSelector),
        Some(es) => if forall|i: int, j: int|
            0 <= i < es.len() && 0 <= j < es[i].1.len() ==> (#[trigger] es[i].1[j]) is Some {
            Ok(Seq::new(es.len(), |i: int| Seq::new(es[i].1.len(), |j: int| es[i].1[j]->Some_0)))
        } else {
            Err(PageError::ElementNotFound)
        },
    }
}

fn classes_of(children: &Vec<Option<String>>) -> (r: Option<Vec<String>>)
    ensures
        match r {
            Some(v) => (forall|j: int| 0 <= j < children@.len() ==> (#[trigger] children@[j]) is Some)
                && views_of(v@) == Seq::new(children@.len(), |j: int| children@[j]->Some_0@),
            None => exists|j: int| 0 <= j < children@.len() && (#[trigger] children@[j]) is None,
        },
{
    let mut v: Vec<String> = Vec::new();
    let mut j: usize = 0;
    while j < children.len()
        invariant
            j <= children@.len(),
            forall|k: int| 0 <= k < j ==> (#[trigger] children@[k]) is Some,
            views_of(v@) == Seq::new(j as nat, |k: int| children@[k]->Some_0@),
        decreases children@.len() - j,
    {
        match &children[j] {
            Some(c) => {
                let ghost before = v@;
                let c2 = c.clone();
                assert(c2@ == children@[j as int]->Some_0@);
                v.push(c2);
                assert(views_of(v@) =~= views_of(before).push(c2@));
                assert(views_of(v@) =~= Seq::new((j + 1) as nat, |k: int| children@[k]->Some_0@));
            },
            None => return None,
        }
        j = j + 1;
    }
    Some(v)
}

/// Reads the class of every child of every element that `selector` finds.
pub fn row_classes(html: &str, selector: &str) -> (r: Result<Vec<Vec<String>>, PageError>)
    ensures
        match row_classes_of(html@, selector@) {
            Ok(g) => r is Ok && grid_view(r->Ok_0@) == g,
            Err(e) => r == Err::<Vec<Vec<String>>, PageError>(e),
        },
{
    let found = match select_elements(html, selector) {
        Some(v) => v,
        None => return Err(PageError::InvalidSelector),
    };
    let ghost es = elements_view(found@);
    let mut rows: Vec<Vec<String>> = Vec::new();
    let mut i: usize = 0;
    while i < found.len()
        invariant
            i <= found@.len(),
            es == elements_view(found@),
            selected(html@, selector@) == Some(es),
            forall|k: int, j: int|
                0 <= k < i && 0 <= j < es[k].1.len() ==> (#[trigger] es[k].1[j]) is Some,
            grid_view(rows@) == Seq::new(
                i as nat,
                |k: int| Seq::new(es[k].1.len(), |j: int| es[k].1[j]->Some_0),
            ),
        decreases found@.len() - i,
    {
        let children = &found[i].1;
        assert(children@ == found@[i as int].1@);
        assert(es[i as int].1 == Seq::new(children@.len(), |j: int| opt_text(children@[j])));
        match classes_of(children) {
            Some(v) => {
                proof {
                    assert forall|j: int| 0 <= j < es[i as int].1.len() implies (
                    #[trigger] es[i as int].1[j]) is Some by {
                        assert(es[i as int].1[j] == opt_text(found@[i as int].1@[j]));
                    }
                    assert(views_of(v@) =~= Seq::new(
                        es[i as int].1.len(),
                        |j: int| es[i as int].1[j]->Some_0,
                    ));
                }
                let ghost before = rows@;
                rows.push(v);
                assert(grid_view(rows@) =~= grid_view(before).push(views_of(v@)));
                assert(grid_view(rows@) =~= Seq::new(
                    (i + 1) as nat,
                    |k: int| Seq::new(es[k].1.len(), |j: int| es[k].1[j]->Some_0),
                ));
            },
            None => {
                proof {
                    let j = choose|j: int| 0 <= j < children@.len() && (#[trigger] children@[j]) is None;
                    assert(es[i as int].1[j] == opt_text(children@[j]));
                    assert(es[i as int].1[j] is None);
                    assert(selected(html@, selector@) == Some(es));
                }
                return Err(PageError::ElementNotFound);
            },
        }
        i = i + 1;
    }
    Ok(rows)
}

/// The views of a list of ranked entries.
pub open spec fn entries_view(v: Seq<RankedEntry>) -> Seq<(Seq<char>, Seq<char>)> {
    Seq::new(v.len(), |i: int| (v[i].name@, v[i].rate@))
}

/// Whether the `i`-th row shows both a name and a rate.
pub open spec fn entry_found(
    names: Seq<Seq<(Option<Seq<char>>, Option<Seq<char>>)>>,
    rates: Seq<Seq<(Option<Seq<char>>, Option<Seq<char>>)>>,
    i: int,
) -> bool {
    &&& i < rates.len()
    &&& names[i].len() > 0
    &&& names[i][0].0 is Some
    &&& rates[i].len() > 0
    &&& rates[i][0].0 is Some
}

/// The first `limit` rows that `rows` finds, each read as the first text
/// of its `name` and of its `rate`; the name is trimmed, and so is the rate
/// where `trim_rate` holds. Every one of those rows must show both.
pub open spec fn ranked_of(
    html: Seq<char>,
    rows: Seq<char>,
    name: Seq<char>,
    rate: Seq<char>,
    limit: nat,
    trim_rate: bool,
) -> Result<Seq<(Seq<char>, Seq<char>)>, PageError> {
    match (selected_within(html, rows, name), selected_within(html, rows, rate)) {
        (Some(ns), Some(rs)) => {
            let n = if ns.len() < limit {
                ns.len()
            } else {
                limit
            };
            if forall|i: int| 0 <= i < n ==> #[trigger] entry_found(ns, rs, i) {
                Ok(
                    Seq::new(
                        n,
                        |i: int|
                            (
                                trimmed(ns[i][0].0->Some_0),
                                if trim_rate {
                                    trimmed(rs[i][0].0->Some_0)
                                } else {
                                    rs[i][0].0->Some_0
                                },
                            ),
                    ),
                )
            } else {
                Err(PageError::ElementNotFound)
            }
        },
        _ => Err(PageError::InvalidSelector),
    }
}

/// Reads the first `limit` rows of a ranked list.
pub fn read_ranked(
    html: &str,
    rows: &str,
    name: &str,
    rate: &str,
    limit: usize,
    trim_rate: bool,
) -> (r: Result<Vec<RankedEntry>, PageError>)
    ensures
        match ranked_of(html@, rows@, name@, rate@, limit as nat, trim_rate) {
            Ok(es) => r is Ok && entries_view(r->Ok_0@) == es,
            Err(e) => r == Err::<Vec<RankedEntry>, PageError>(e),
        },
{
    let names = match select_within(html, rows, name) {
        Some(v) => v,
        None => return Err(PageError::InvalidSelector),
    };
    let rates = match select_within(html, rows, rate) {
        Some(v) => v,
        None => return Err(PageError::InvalidSelector),
    };
    let ghost ns = inner_view(names@);
    let ghost rs = inner_view(rates@);
    let n = if names.len() < limit {
        names.len()
    } else {
        limit
    };
    let mut out: Vec<RankedEntry> = Vec::new();
    let mut i: usize = 0;
    while i < n
        invariant
            i <= n,
            n <= names@.len(),
            n == (if ns.len() < limit { ns.len() } else { limit as nat }),
            ns == inner_view(names@),
            rs == inner_view(rates@),
            selected_within(html@, rows@, name@) == Some(ns),
            selected_within(html@, rows@, rate@) == Some(rs),
            forall|k: int| 0 <= k < i ==> #[trigger] entry_found(ns, rs, k),
            entries_view(out@) == Seq::new(
                i as nat,
                |k: int|
                    (
                        trimmed(ns[k][0].0->Some_0),
                        if trim_rate {
                            trimmed(rs[k][0].0->Some_0)
                        } else {
                            rs[k][0].0->Some_0
                        },
                    ),
            ),
        decreases n - i,
    {
        if i >= rates.len() || names[i].len() == 0 || rates[i].len() == 0 {
            assert(!entry_found(ns, rs, i as int));
            return Err(PageError::ElementNotFound);
        }
        let name_text = match &names[i][0].0 {
            Some(t) => trim_text(t.as_str()),
            None => {
                assert(!entry_found(ns, rs, i as int));
                return Err(PageError::ElementNotFound);
            },
        };
        let rate_text = match &rates[i][0].0 {
            Some(t) => if trim_rate {
                trim_text(t.as_str())
            } else {
                t.clone()
            },
            None => {
                assert(!entry_found(ns, rs, i as int));
                return Err(PageError::ElementNotFound);
            },
        };
        assert(entry_found(ns, rs, i as int));
        let ghost before = out@;
        let entry = RankedEntry { name: name_text, rate: rate_text };
        out.push(entry);
        assert(entries_view(out@) =~= entries_view(before).push((entry.name@, entry.rate@)));
        i = i + 1;
        assert(entries_view(out@) =~= Seq::new(
            i as nat,
            |k: int|
                (
                    trimmed(ns[k][0].0->Some_0),
                    if trim_rate {
                        trimmed(rs[k][0].0->Some_0)
                    } else {
                        rs[k][0].0->Some_0
                    },
                ),
        ));
    }
    Ok(out)
}

/// The class of every cell of every skill-order row; every cell must have
/// one.
pub open spec fn skill_classes_of(html: Seq<char>) -> Result<Seq<Seq<Seq<char>>>, PageError> {
    match selected_within(html, SKILL_ROW_SELECTOR@, SKILL_CELL_SELECTOR@) {
        None => Err(PageError::InvalidSelector),
        Some(rows) => if forall|i: int, j: int|
            0 <= i < rows.len() && 0 <= j < rows[i].len() ==> (#[trigger] rows[i][j]).1 is Some {
            Ok(Seq::new(rows.len(), |i: int| Seq::new(rows[i].len(), |j: int| rows[i][j].1->Some_0)))
        } else {
            Err(PageError::ElementNotFound)
        },
    }
}

/// Reads the class of every cell of the skill order, one row per skill.
pub fn read_skill_classes(html: &str) -> (r: Result<Vec<Vec<String>>, PageError>)
    ensures
        match skill_classes_of(html@) {
            Ok(g) => r is Ok && grid_view(r->Ok_0@) == g,
            Err(e) => r == Err::<Vec<Vec<String>>, PageError>(e),
        },
{
    let found = match select_within(html, SKILL_ROW_SELECTOR, SKILL_CELL_SELECTOR) {
        Some(v) => v,
        None => return Err(PageError::InvalidSelector),
    };
    let ghost rs = inner_view(found@);
    let mut rows: Vec<Vec<String>> = Vec::new();
    let mut i: usize = 0;
    while i < found.len()
        invariant
            i <= found@.len(),
            rs == inner_view(found@),
            selected_within(html@, SKILL_ROW_SELECTOR@, SKILL_CELL_SELECTOR@) == Some(rs),
            forall|k: int, j: int| 0 <= k < i && 0 <= j < rs[k].len() ==> (#[trigger] rs[k][j]).1 is Some,
            grid_view(rows@) == Seq::new(
                i as nat,
                |k: int| Seq::new(rs[k].len(), |j: int| rs[k][j].1->Some_0),
            ),
        decreases found@.len() - i,
    {
        let cells = &found[i];
        let mut row: Vec<String> = Vec::new();
        let mut j: usize = 0;
        while j < cells.len()
            invariant
                j <= cells@.len(),
                cells@ == found@[i as int]@,
                rs == inner_view(found@),
                selected_within(html@, SKILL_ROW_SELECTOR@, SKILL_CELL_SELECTOR@) == Some(rs),
                i < found@.len(),
                forall|k: int| 0 <= k < j ==> (#[trigger] rs[i as int][k]).1 is Some,
                views_of(row@) == Seq::new(j as nat, |k: int| rs[i as int][k].1->Some_0),
            decreases cells@.len() - j,
        {
            assert(rs[i as int][j as int] == (opt_text(cells@[j as int].0), opt_text(cells@[j as int].1)));
            match &cells[j].1 {
                Some(c) => {
                    let ghost before = row@;
                    let c2 = c.clone();
                    row.push(c2);
                    assert(views_of(row@) =~= views_of(before).push(c2@));
                    assert(views_of(row@) =~= Seq::new((j + 1) as nat, |k: int| rs[i as int][k].1->Some_0));
                },
                None => {
                    assert(rs[i as int][j as int].1 is None);
                    return Err(PageError::ElementNotFound);
                },
            }
            j = j + 1;
        }
        let ghost before = rows@;
        rows.push(row);
        assert(grid_view(rows@) =~= grid_view(before).push(views_of(row@)));
        assert(grid_view(rows@) =~= Seq::new(
            (i + 1) as nat,
            |k: int| Seq::new(rs[k].len(), |j: int| rs[k][j].1->Some_0),
        ));
        i = i + 1;
    }
    Ok(rows)
}

/// What the first phase of a build reply reads from the build page.
pub struct BuildPage {
    pub win_rate: WinRate,
    pub lane: String,
    pub runes: RuneBuild,
}

/// The selector of the win rate: which one the page uses depends on whether
/// an opponent was asked for.
pub open spec fn win_rate_selector(has_enemy: bool) -> Seq<char> {
    if has_enemy {
        WINRATE_SELECTOR@
    } else {
        WINRATE_SELECTOR_IF_OPP@
    }
}

/// The lane a reply names: the one asked for, else the page's.
pub open spec fn page_lane_of(html: Seq<char>, lane: Option<Seq<char>>, selector: Seq<char>) -> Result<
    Seq<char>,
    PageError,
> {
    match lane {
        Some(l) => Ok(l),
        None => first_text_of(html, selector),
    }
}

/// Whether every lookup of the first build phase succeeds.
pub open spec fn build_page_found(html: Seq<char>, has_enemy: bool, lane: Option<Seq<char>>) -> bool {
    &&& first_text_of(html, win_rate_selector(has_enemy)) is Ok
    &&& page_lane_of(html, lane, BUILD_LANE_SELECTOR@) is Ok
    &&& first_text_of(html, PRIMARY_TITLE_SELECTOR@) is Ok
    &&& row_classes_of(html, PRIMARY_ROWS_SELECTOR@) is Ok
    &&& first_text_of(html, SECONDARY_TITLE_SELECTOR@) is Ok
    &&& row_classes_of(html, SECONDARY_ROWS_SELECTOR@) is Ok
    &&& row_classes_of(html, SHARD_ROWS_SELECTOR@) is Ok
}

/// Reads the first phase of a build from the build page: the win rate, the
/// lane (the one asked for where there is one), and the rune page with the
/// trees' titles trimmed.
pub fn read_build_page(html: &str, has_enemy: bool, lane: Option<&str>) -> (r: Result<
    BuildPage,
    PageError,
>)
    ensures
        r is Ok <==> build_page_found(html@, has_enemy, opt_view(lane)),
        r is Ok ==> ({
            let p = r->Ok_0;
            &&& p.win_rate.hundredths as nat == win_rate_of(
                first_text_of(html@, win_rate_selector(has_enemy))->Ok_0,
            )
            &&& p.lane@ == upper_of(page_lane_of(html@, opt_view(lane), BUILD_LANE_SELECTOR@)->Ok_0)
            &&& rune_page_from(
                p.runes,
                trimmed(first_text_of(html@, PRIMARY_TITLE_SELECTOR@)->Ok_0),
                row_classes_of(html@, PRIMARY_ROWS_SELECTOR@)->Ok_0,
                trimmed(first_text_of(html@, SECONDARY_TITLE_SELECTOR@)->Ok_0),
                row_classes_of(html@, SECONDARY_ROWS_SELECTOR@)->Ok_0,
                row_classes_of(html@, SHARD_ROWS_SELECTOR@)->Ok_0,
            )
        }),
{
    let rate_selector = if has_enemy {
        WINRATE_SELECTOR
    } else {
        WINRATE_SELECTOR_IF_OPP
    };
    let rate_text = first_text(html, rate_selector)?;
    let win_rate = parse_win_rate(rate_text.as_str());
    let shown = match lane {
        Some(_) => String::new(),
        None => first_text(html, BUILD_LANE_SELECTOR)?,
    };
    let lane_text = get_lane(lane, shown.as_str());
    let primary_title = first_text(html, PRIMARY_TITLE_SELECTOR)?;
    let primary_rows = row_classes(html, PRIMARY_ROWS_SELECTOR)?;
    let secondary_title = first_text(html, SECONDARY_TITLE_SELECTOR)?;
    let secondary_rows = row_classes(html, SECONDARY_ROWS_SELECTOR)?;
    let shard_rows = row_classes(html, SHARD_ROWS_SELECTOR)?;
    let primary = trim_text(primary_title.as_str());
    let secondary = trim_text(secondary_title.as_str());
    let runes = get_runes(
        primary.as_str(),
        &primary_rows,
        secondary.as_str(),
        &secondary_rows,
        &shard_rows,
    );
    Ok(BuildPage { win_rate, lane: lane_text, runes })
}

/// What a counters reply reads from the counters page.
pub struct CountersPage {
    pub lane: String,
    pub best: Vec<RankedEntry>,
    pub worst: Vec<RankedEntry>,
    pub lane_picks: Vec<RankedEntry>,
}

/// Whether every lookup of a counters reply succeeds.
pub open spec fn counters_page_found(html: Seq<char>, lane: Option<Seq<char>>) -> bool {
    &&& page_lane_of(html, lane, COUNTER_LANE_SELECTOR@) is Ok
    &&& ranked_of(html, BEST_PICKS_SELECTOR@, COUNTER_NAME_SELECTOR@, COUNTER_RATE_SELECTOR@, NUM_CHAMP_COUNTERS as nat, false) is Ok
    &&& ranked_of(html, WORST_PICKS_SELECTOR@, COUNTER_NAME_SELECTOR@, COUNTER_RATE_SELECTOR@, NUM_CHAMP_COUNTERS as nat, false) is Ok
    &&& ranked_of(html, LANE_PICKS_SELECTOR@, COUNTER_NAME_SELECTOR@, COUNTER_RATE_SELECTOR@, NUM_CHAMP_COUNTERS as nat, false) is Ok
}

/// Reads a counters page: the lane (the one asked for in upper case, else
/// the page's, trimmed) and the first ten best, worst and same-lane picks.
pub fn read_counters_page(html: &str, lane: Option<&str>) -> (r: Result<CountersPage, PageError>)
    ensures
        r is Ok <==> counters_page_found(html@, opt_view(lane)),
        r is Ok ==> ({
            let p = r->Ok_0;
            &&& p.lane@ == match lane {
                Some(x) => upper_of(x@),
                None => trimmed(first_text_of(html@, COUNTER_LANE_SELECTOR@)->Ok_0),
            }
            &&& entries_view(p.best@) == ranked_of(
                html@,
                BEST_PICKS_SELECTOR@,
                COUNTER_NAME_SELECTOR@,
                COUNTER_RATE_SELECTOR@,
                NUM_CHAMP_COUNTERS as nat,
                false,
            )->Ok_0
            &&& entries_view(p.worst@) == ranked_of(
                html@,
                WORST_PICKS_SELECTOR@,
                COUNTER_NAME_SELECTOR@,
                COUNTER_RATE_SELECTOR@,
                NUM_CHAMP_COUNTERS as nat,
                false,
            )->Ok_0
            &&& entries_view(p.lane_picks@) == ranked_of(
                html@,
                LANE_PICKS_SELECTOR@,
                COUNTER_NAME_SELECTOR@,
                COUNTER_RATE_SELECTOR@,
                NUM_CHAMP_COUNTERS as nat,
                false,
            )->Ok_0
        }),
{
    let shown = match lane {
        Some(_) => String::new(),
        None => {
            let text = first_text(html, COUNTER_LANE_SELECTOR)?;
            trim_text(text.as_str())
        },
    };
    let lane_text = get_counter_lane(lane, shown.as_str());
    let best = read_ranked(html, BEST_PICKS_SELECTOR, COUNTER_NAME_SELECTOR, COUNTER_RATE_SELECTOR, NUM_CHAMP_COUNTERS, false)?;
    let worst = read_ranked(html, WORST_PICKS_SELECTOR, COUNTER_NAME_SELECTOR, COUNTER_RATE_SELECTOR, NUM_CHAMP_COUNTERS, false)?;
    let lane_picks = read_ranked(html, LANE_PICKS_SELECTOR, COUNTER_NAME_SELECTOR, COUNTER_RATE_SELECTOR, NUM_CHAMP_COUNTERS, false)?;
    Ok(CountersPage { lane: lane_text, best, worst, lane_picks })
}

} // verus!
