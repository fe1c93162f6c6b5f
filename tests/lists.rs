use lol_bot::lists::{
    counter_list, counters_url, get_counter_lane, handle_counters_command, handle_tierlist_command,
    tierlist_url, RankedEntry,
};
use lol_bot::output::Accent;

fn entry(name: &str, rate: &str) -> RankedEntry {
    RankedEntry { name: name.to_string(), rate: rate.to_string() }
}

#[test]
fn counters_urls() {
    assert_eq!(counters_url("yasuo", None), "https://u.gg/lol/champions/yasuo/counter");
    assert_eq!(counters_url("yasuo", Some("mid")), "https://u.gg/lol/champions/yasuo/counter?role=mid");
}

#[test]
fn counter_lane() {
    assert_eq!(get_counter_lane(Some("mid"), "Top"), "MID");
    assert_eq!(get_counter_lane(None, "Top"), "Top");
}

#[test]
fn counter_lines_are_padded_and_capped() {
    assert_eq!(counter_list(&vec![entry("Malphite", "55.1%")]), "Malphite   - 55.1%\n");
    assert_eq!(counter_list(&vec![entry("Kassadin12", "50%")]), "Kassadin12 - 50%\n");
    assert_eq!(counter_list(&vec![entry("Aurelion Sol", "49%")]), "Aurelion Sol - 49%\n");
    let many: Vec<RankedEntry> = (0..12).map(|i| entry(&format!("C{}", i), "1%")).collect();
    assert_eq!(counter_list(&many).lines().count(), 10);
    assert_eq!(counter_list(&vec![]), "");
}

#[test]
fn counters_reply() {
    let out = handle_counters_command("Yasuo", "MID", &vec![entry("Malphite", "55%")], &vec![], &vec![entry("Zed", "50%")]);
    assert_eq!(out.title, "Counter picks for Yasuo (MID)");
    assert_eq!(out.color, Accent::DarkGreen);
    assert_eq!(out.fields.len(), 3);
    assert_eq!(out.fields[0].0, "🟢 - Best Picks");
    assert_eq!(out.fields[0].1, "```Malphite   - 55%\n```");
    assert_eq!(out.fields[1].0, "🔴 - Worst Picks");
    assert_eq!(out.fields[1].1, "``````");
    assert_eq!(out.fields[2].0, "🟡 - Lane Picks");
    assert_eq!(out.fields[2].1, "```Zed        - 50%\n```");
}

#[test]
fn tierlist_urls() {
    assert_eq!(tierlist_url(None), "https://u.gg/lol/tier-list");
    assert_eq!(tierlist_url(Some("top")), "https://u.gg/lol/top-lane-tier-list");
    assert_eq!(tierlist_url(Some("mid")), "https://u.gg/lol/mid-tier-list");
}

#[test]
fn tierlist_reply() {
    let rows = vec![entry("Garen", "S+"), entry("Darius", "S"), entry("Teemo", "A")];
    let out = handle_tierlist_command(Some("top"), 2, &rows);
    assert_eq!(out.title, "Top 2 tier list for top");
    assert_eq!(out.fields[0].0, "Champion - Tier");
    assert_eq!(
        out.fields[0].1,
        format!("```{:<20} - {:<20}\n{:<20} - {:<20}```", "Garen", "S+", "Darius", "S")
    );
    let out = handle_tierlist_command(None, 30, &rows);
    assert_eq!(out.title, "Top 30 tier list for All");
    assert_eq!(out.fields[0].1.lines().count(), 3);
}

#[test]
fn accent_colours() {
    assert_eq!(Accent::Blue.rgb(), 0x3498DB);
    assert_eq!(Accent::DarkGreen.rgb(), 0x1F8B4C);
    assert_eq!(Accent::DarkRed.rgb(), 0x992D22);
}

#[test]
fn failed_command_reply() {
    let out = lol_bot::output::command_error_output("boom");
    assert_eq!(out.color, Accent::Red);
    assert_eq!(out.footer, "boom");
    assert_eq!(out.title, "");
    assert!(out.fields.is_empty());
    assert_eq!(Accent::Red.rgb(), 0xE74C3C);
    assert_eq!(Accent::DarkGold.rgb(), 0xC27C0E);
}
