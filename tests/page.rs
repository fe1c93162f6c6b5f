use lol_bot::page::{
    first_text, read_build_page, read_counters_page, read_ranked, read_skill_classes,
    row_classes, PageError, TIER_NAME_SELECTOR, TIER_RATE_SELECTOR, TIER_ROW_SELECTOR,
};
use lol_bot::win_rate::WinRate;

fn build_page() -> String {
    [
        "<html><body>",
        "<div class=\"champion-recommended-build\"><div><div>",
        "<div><div>52.10%</div></div>",
        "<div><div>49.5%</div></div>",
        "</div></div></div>",
        "<div class=\"role-value\"><div>Top</div></div>",
        "<div class=\"media-query_MOBILE_LARGE__DESKTOP_LARGE\">",
        "<div class=\"rune-tree primary-tree\">",
        "<div class=\"perk-style-title\"><span class=\"pointer\"> Precision </span></div>",
        "<div class=\"perk-row\"><div class=\"perks\"><div class=\"perk perk-active\"></div><div class=\"perk\"></div></div></div>",
        "<div class=\"perk-row\"><div class=\"perks\"><div class=\"perk\"></div><div class=\"perk perk-active\"></div><div class=\"perk\"></div></div></div>",
        "</div>",
        "<div class=\"secondary-tree\"><div>",
        "<div class=\"perk-style-title\"><span class=\"pointer\">Sorcery</span></div>",
        "<div><div class=\"rune-tree\"><div class=\"perk-row\"><div class=\"perks\"><div class=\"perk\"></div><div class=\"perk perk-active\"></div></div></div></div></div>",
        "</div></div>",
        "<div class=\"stat-shards-container\"><div class=\"perk-row\"><div class=\"perks\"><div class=\"shard shard-active\"></div><div class=\"shard\"></div></div></div></div>",
        "</div>",
        "<div class=\"skill-order-row\"><div class=\"skill-order\"><div class=\" skill-up \"></div><div class=\"no-skill-up\"></div></div></div>",
        "<div class=\"skill-order-row\"><div class=\"skill-order\"><div class=\"no-skill-up\"></div><div class=\"skill-up\"></div></div></div>",
        "</body></html>",
    ]
    .concat()
}

#[test]
fn first_text_finds_the_first_match() {
    let html = "<p class=\"a\">one</p><p class=\"a\">two</p>";
    assert_eq!(first_text(html, "p.a").unwrap(), "one");
    assert_eq!(first_text(html, "p.b"), Err(PageError::ElementNotFound));
    assert_eq!(first_text(html, "p..b"), Err(PageError::InvalidSelector));
}

#[test]
fn row_classes_reads_children() {
    let html = "<div class=\"r\"><i class=\"x\"></i><i class=\"y z\"></i></div><div class=\"r\"></div>";
    assert_eq!(row_classes(html, ".r").unwrap(), vec![vec!["x".to_string(), "y z".to_string()], vec![]]);
    let with_text = "<div class=\"r\"><i class=\"x\"></i> text</div>";
    assert_eq!(row_classes(with_text, ".r"), Err(PageError::ElementNotFound));
}

#[test]
fn build_page_is_read() {
    let page = read_build_page(&build_page(), true, None).unwrap();
    assert_eq!(page.win_rate, WinRate { hundredths: 5210 });
    assert_eq!(page.lane, "TOP");
    assert_eq!(page.runes.primary.title, "Precision");
    assert_eq!(page.runes.primary.perks, vec![vec![true, false], vec![false, true, false]]);
    assert_eq!(page.runes.secondary.title, "Sorcery");
    assert_eq!(page.runes.secondary.perks, vec![vec![false, true]]);
    assert_eq!(page.runes.shards.title, "Stat Shards");
    assert_eq!(page.runes.shards.perks, vec![vec![true, false]]);
}

#[test]
fn build_page_without_enemy_and_with_lane() {
    let page = read_build_page(&build_page(), false, Some("mid")).unwrap();
    assert_eq!(page.win_rate, WinRate { hundredths: 4950 });
    assert_eq!(page.lane, "MID");
}

#[test]
fn build_page_missing_runes_fails() {
    let html = "<div class=\"champion-recommended-build\"><div><div><div><div>50%</div></div></div></div></div>";
    assert_eq!(read_build_page(html, true, Some("top")).err(), Some(PageError::ElementNotFound));
}

#[test]
fn skill_cells_are_read() {
    let classes = read_skill_classes(&build_page()).unwrap();
    assert_eq!(classes, vec![
        vec![" skill-up ".to_string(), "no-skill-up".to_string()],
        vec!["no-skill-up".to_string(), "skill-up".to_string()],
    ]);
    assert_eq!(read_skill_classes("<div class=\"skill-order-row\"><div class=\"skill-order\"><div></div></div></div>"), Err(PageError::ElementNotFound));
}

fn counter(name: &str, rate: &str) -> String {
    format!(
        "<a><div class=\"text-white font-bold truncate\"> {} </div><div class=\"font-bold whitespace-nowrap text-right\">{}</div></a>",
        name, rate
    )
}

#[test]
fn counters_page_is_read() {
    let best: String = (0..12).map(|i| counter(&format!("Best{}", i), "55%")).collect();
    let html = format!(
        "<div class=\"media-query_MOBILE_SMALL__DESKTOP_SMALL\"><div class=\"filter-select\"><div class=\"role-value\"><div> Mid </div></div></div></div><div class=\"w-full grid\"><div>{}</div><div>{}</div><div>{}</div></div>",
        best,
        counter("Malphite", "45.2%"),
        counter("Zed", "50%"),
    );
    let page = read_counters_page(&html, None).unwrap();
    assert_eq!(page.lane, "Mid");
    assert_eq!(page.best.len(), 10);
    assert_eq!(page.best[0].name, "Best0");
    assert_eq!(page.best[0].rate, "55%");
    assert_eq!(page.worst.len(), 1);
    assert_eq!(page.worst[0].name, "Malphite");
    assert_eq!(page.worst[0].rate, "45.2%");
    assert_eq!(page.lane_picks[0].name, "Zed");
    let page = read_counters_page(&html, Some("top")).unwrap();
    assert_eq!(page.lane, "TOP");
}

#[test]
fn tier_rows_are_read_and_trimmed() {
    let row = |name: &str, tier: &str| format!(
        "<div class=\"rt-tr-group\"><div class=\"rt-tr\"><div class=\"rt-td\">1</div><div class=\"rt-td\">x</div><div class=\"rt-td\"><strong> {} </strong></div><div class=\"rt-td\">y</div><div class=\"rt-td\"><b> {} </b></div></div></div>",
        name, tier
    );
    let html = format!("<div>{}{}{}</div>", row("Garen", "S+"), row("Darius", "S"), row("Teemo", "A"));
    let entries = read_ranked(&html, TIER_ROW_SELECTOR, TIER_NAME_SELECTOR, TIER_RATE_SELECTOR, 2, true).unwrap();
    assert_eq!(entries.len(), 2);
    assert_eq!(entries[0].name, "Garen");
    assert_eq!(entries[0].rate, "S+");
    assert_eq!(entries[1].name, "Darius");
    let broken = "<div class=\"rt-tr-group\"><div class=\"rt-tr\"></div></div>";
    assert_eq!(read_ranked(broken, TIER_ROW_SELECTOR, TIER_NAME_SELECTOR, TIER_RATE_SELECTOR, 5, true).err(), Some(PageError::ElementNotFound));
    assert!(read_ranked(broken, TIER_ROW_SELECTOR, TIER_NAME_SELECTOR, TIER_RATE_SELECTOR, 0, true).unwrap().is_empty());
}
