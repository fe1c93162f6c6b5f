use lol_bot::runes::{get_runes, marked_grid};
use lol_bot::runes::{
    columnize_trees, get_color_from_rune_title, grid_to_row, perks_to_colored_grid, rune_field,
    same_text, RuneBuild, RuneBuildInfo, UnknownRuneTree, RUNE_COLUMN_WIDTH, SELECTED_CIRCLE,
    TRANSPARENT_CIRCLE,
};

fn s(v: &[&str]) -> Vec<String> {
    v.iter().map(|x| x.to_string()).collect()
}

#[test]
fn tree_titles_map_to_colours() {
    assert_eq!(get_color_from_rune_title("Precision"), Ok("🟡"));
    assert_eq!(get_color_from_rune_title("Resolve"), Ok("🟢"));
    assert_eq!(get_color_from_rune_title("Inspiration"), Ok("🔵"));
    assert_eq!(get_color_from_rune_title("Domination"), Ok("🔴"));
    assert_eq!(get_color_from_rune_title("Sorcery"), Ok("🟣"));
    assert_eq!(get_color_from_rune_title("precision"), Err(UnknownRuneTree));
    assert_eq!(get_color_from_rune_title(""), Err(UnknownRuneTree));
}

#[test]
fn same_text_compares_characters() {
    assert!(same_text("abc", "abc"));
    assert!(!same_text("abc", "abd"));
    assert!(!same_text("abc", "ab"));
    assert!(same_text("", ""));
}

#[test]
fn colored_grid_keeps_the_shape() {
    let grid = vec![vec![true, false, false], vec![false, true], vec![]];
    let out = perks_to_colored_grid(&grid, "🔴");
    assert_eq!(out.len(), 3);
    assert_eq!(out[0], vec!["🔴", TRANSPARENT_CIRCLE, TRANSPARENT_CIRCLE]);
    assert_eq!(out[1], vec![TRANSPARENT_CIRCLE, "🔴"]);
    assert!(out[2].is_empty());
}

#[test]
fn colored_grid_of_nothing() {
    assert!(perks_to_colored_grid(&vec![], "🔴").is_empty());
}

#[test]
fn row_is_the_cells_in_order() {
    assert_eq!(grid_to_row(&vec!["a", "⚫", "c"]), "a⚫c");
    assert_eq!(grid_to_row(&vec![]), "");
}

#[test]
fn columns_take_the_longer_length() {
    let out = columnize_trees(&s(&["a", "b"]), &s(&["x", "y", "z"]));
    let lines: Vec<&str> = out.split_terminator('\n').collect();
    assert_eq!(lines.len(), 3);
    assert_eq!(lines[0], format!("a{}x", " ".repeat(14)));
    assert_eq!(lines[1], format!("b{}y", " ".repeat(14)));
    assert_eq!(lines[2], format!("{}z", " ".repeat(15)));
    let out = columnize_trees(&s(&["a", "b", "c"]), &s(&[]));
    assert_eq!(out.split_terminator('\n').count(), 3);
    assert_eq!(columnize_trees(&s(&[]), &s(&[])), "");
}

#[test]
fn padding_goes_by_display_width() {
    let wide = columnize_trees(&s(&["🟡"]), &s(&["R"]));
    let plain = columnize_trees(&s(&["ab"]), &s(&["R"]));
    assert_eq!(wide, format!("🟡{}R\n", " ".repeat(13)));
    assert_eq!(plain, format!("ab{}R\n", " ".repeat(13)));
}

#[test]
fn long_left_entries_get_no_padding() {
    let long = "x".repeat(RUNE_COLUMN_WIDTH + 3);
    let out = columnize_trees(&vec![long.clone()], &s(&["R"]));
    assert_eq!(out, format!("{}R\n", long));
}

#[test]
fn rune_field_lays_out_both_trees() {
    let runes = RuneBuild {
        primary: RuneBuildInfo { title: "Precision".to_string(), perks: vec![vec![true, false], vec![false, true]] },
        secondary: RuneBuildInfo { title: "Sorcery".to_string(), perks: vec![vec![false, true]] },
        shards: RuneBuildInfo { title: "Stat Shards".to_string(), perks: vec![vec![true, false, false]] },
    };
    let (heading, body, inline) = rune_field(&runes).unwrap();
    assert_eq!(heading, "Runes");
    assert!(!inline);
    let pad = |t: &str, w: usize| format!("{}{}", t, " ".repeat(15 - w));
    let expected = format!(
        "```{}{}\n{}{}\n{}{}\n{}{}\n```",
        pad("Precision", 9), "Sorcery",
        pad("🟡⚫", 4), "⚫🟣",
        pad("⚫🟡", 4), "Stat Shards",
        pad("", 0), format!("{}{}{}", SELECTED_CIRCLE, TRANSPARENT_CIRCLE, TRANSPARENT_CIRCLE),
    );
    assert_eq!(body, expected);
}

#[test]
fn rune_field_rejects_an_unknown_tree() {
    let runes = RuneBuild {
        primary: RuneBuildInfo { title: "Precision".to_string(), perks: vec![] },
        secondary: RuneBuildInfo { title: "Mystery".to_string(), perks: vec![] },
        shards: RuneBuildInfo { title: "Stat Shards".to_string(), perks: vec![] },
    };
    assert_eq!(rune_field(&runes).unwrap_err(), UnknownRuneTree);
}

#[test]
fn runes_read_from_classes() {
    let c = |v: &[&str]| v.iter().map(|x| x.to_string()).collect::<Vec<String>>();
    let primary = vec![c(&["perk keystone perk-active", "perk keystone"]), c(&["perk", "perk perk-active"])];
    let secondary = vec![c(&["perk perk-active"])];
    let shards = vec![c(&["shard", "shard shard-active", "shard perk-active"])];
    let r = get_runes("Precision", &primary, "Sorcery", &secondary, &shards);
    assert_eq!(r.primary.title, "Precision");
    assert_eq!(r.primary.perks, vec![vec![true, false], vec![false, true]]);
    assert_eq!(r.secondary.title, "Sorcery");
    assert_eq!(r.secondary.perks, vec![vec![true]]);
    assert_eq!(r.shards.title, "Stat Shards");
    assert_eq!(r.shards.perks, vec![vec![false, true, false]]);
}

#[test]
fn marked_grid_either_way() {
    let g = vec![vec!["a x".to_string(), "b".to_string()]];
    assert_eq!(marked_grid(&g, "x", true), vec![vec![true, false]]);
    assert_eq!(marked_grid(&g, "x", false), vec![vec![false, true]]);
}
