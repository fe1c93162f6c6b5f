//! Rune pages as text art: each rune tree becomes a grid of coloured circles,
//! and the trees are laid out in two columns.
use vstd::prelude::*;
use vstd::string::*;
use crate::text::{
    concat_all, contains_text, display_width, has_substring, spaces, views_of, width_of,
    push_spaces,
};

verus! {

/// The circle of an option that was not chosen.
pub const TRANSPARENT_CIRCLE: &'static str = "⚫";

/// The circle of a chosen stat shard.
pub const SELECTED_CIRCLE: &'static str = "⚪";

/// The display width that the left column is padded to.
pub const RUNE_COLUMN_WIDTH: usize = 15;

/// A rune tree's title and, per row, which of its options are chosen.
pub struct RuneBuildInfo {
    pub title: String,
    pub perks: Vec<Vec<bool>>,
}

/// The two rune trees and the stat shards of a build.
pub struct RuneBuild {
    pub primary: RuneBuildInfo,
    pub secondary: RuneBuildInfo,
    pub shards: RuneBuildInfo,
}

/// A rune tree title that none of the five trees has.
#[derive(Clone, Copy, Debug, PartialEq, Eq, Structural)]
pub struct UnknownRuneTree;

/// The coloured circle of each of the five rune trees.
pub open spec fn tree_icon(title: Seq<char>) -> Option<Seq<char>> {
    if title == "Precision"@ {
        Some("🟡"@)
    } else if title == "Resolve"@ {
        Some("🟢"@)
    } else if title == "Inspiration"@ {
        Some("🔵"@)
    } else if title == "Domination"@ {
        Some("🔴"@)
    } else if title == "Sorcery"@ {
        Some("🟣"@)
    } else {
        None
    }
}

/// Whether two strings hold the same characters.
pub fn same_text(a: &str, b: &str) -> (r: bool)
    ensures
        r == (a@ == b@),
{
    let n = a.unicode_len();
    if n != b.unicode_len() {
        return false;
    }
    let mut i: usize = 0;
    while i < n
        invariant
            n == a@.len(),
            n == b@.len(),
            i <= n,
            forall|j: int| 0 <= j < i ==> a@[j] == b@[j],
        decreases n - i,
    {
        if a.get_char(i) != b.get_char(i) {
            return false;
        }
        i = i + 1;
    }
    assert(a@ =~= b@);
    true
}

/// The circle that marks a chosen option of the tree titled `title`.
pub fn get_color_from_rune_title(title: &str) -> (r: Result<&'static str, UnknownRuneTree>)
    ensures
        match tree_icon(title@) {
            Some(icon) => r is Ok && r->Ok_0@ == icon,
            None => r is Err,
        },
{
    if same_text(title, "Precision") {
        Ok("🟡")
    } else if same_text(title, "Resolve") {
        Ok("🟢")
    } else if same_text(title, "Inspiration") {
        Ok("🔵")
    } else if same_text(title, "Domination") {
        Ok("🔴")
    } else if same_text(title, "Sorcery") {
        Ok("🟣")
    } else {
        Err(UnknownRuneTree)
    }
}

/// The circle of one cell: `icon` where the option is chosen.
pub open spec fn cell_icon(chosen: bool, icon: Seq<char>) -> Seq<char> {
    if chosen {
        icon
    } else {
        TRANSPARENT_CIRCLE@
    }
}

/// Turns a grid of choices into a grid of circles of the same shape: `icon`
/// for each chosen option, the transparent circle for the others.
pub fn perks_to_colored_grid<'a>(grid: &Vec<Vec<bool>>, icon: &'a str) -> (r: Vec<Vec<&'a str>>)
    ensures
        r@.len() == grid@.len(),
        forall|i: int|
            0 <= i < grid@.len() ==> (#[trigger] r@[i])@.len() == grid@[i]@.len(),
        forall|i: int, j: int|
            0 <= i < grid@.len() && 0 <= j < grid@[i]@.len() ==> (#[trigger] r@[i]@[j])@
                == cell_icon(grid@[i]@[j], icon@),
{
    let mut r: Vec<Vec<&'a str>> = Vec::new();
    let mut i: usize = 0;
    while i < grid.len()
        invariant
            i <= grid@.len(),
            r@.len() == i,
            forall|k: int| 0 <= k < i ==> (#[trigger] r@[k])@.len() == grid@[k]@.len(),
            forall|k: int, j: int|
                0 <= k < i && 0 <= j < grid@[k]@.len() ==> (#[trigger] r@[k]@[j])@
                    == cell_icon(grid@[k]@[j], icon@),
        decreases grid@.len() - i,
    {
        let row = &grid[i];
        let mut out: Vec<&'a str> = Vec::new();
        let mut j: usize = 0;
        while j < row.len()
            invariant
                j <= row@.len(),
                out@.len() == j,
                forall|k: int| 0 <= k < j ==> (#[trigger] out@[k])@ == cell_icon(row@[k], icon@),
            decreases row@.len() - j,
        {
            if row[j] {
                out.push(icon);
            } else {
                out.push(TRANSPARENT_CIRCLE);
            }
            j = j + 1;
        }
        r.push(out);
        i = i + 1;
    }
    r
}

/// The views of a row of cells.
pub open spec fn cell_views(row: Seq<&str>) -> Seq<Seq<char>> {
    Seq::new(row.len(), |i: int| row[i]@)
}

/// Writes a row of cells as one line of text.
pub fn grid_to_row(row: &Vec<&str>) -> (r: String)
    ensures
        r@ == concat_all(cell_views(row@)),
{
    let mut r = String::new();
    let mut i: usize = 0;
    while i < row.len()
        invariant
            i <= row@.len(),
            r@ == concat_all(cell_views(row@.subrange(0, i as int))),
        decreases row@.len() - i,
    {
        r.append(row[i]);
        i = i + 1;
        assert(cell_views(row@.subrange(0, i as int)).drop_last() =~= cell_views(
            row@.subrange(0, i - 1),
        ));
    }
    assert(row@.subrange(0, row@.len() as int) =~= row@);
    r
}

/// The padding after a left-column entry: what its display width falls short
/// of the column width.
pub open spec fn column_padding(left: Seq<char>) -> nat {
    if display_width(left) < RUNE_COLUMN_WIDTH {
        (RUNE_COLUMN_WIDTH - display_width(left)) as nat
    } else {
        0
    }
}

/// The `i`-th entry of a column, or nothing past its end.
pub open spec fn entry_at(column: Seq<Seq<char>>, i: int) -> Seq<char> {
    if i < column.len() {
        column[i]
    } else {
        Seq::empty()
    }
}

/// One line of the two-column layout.
pub open spec fn column_line(left: Seq<char>, right: Seq<char>) -> Seq<char> {
    left + spaces(column_padding(left)) + right + "\n"@
}

/// The lines of the two-column layout: as many as the longer column has
/// entries.
pub open spec fn column_lines(left: Seq<Seq<char>>, right: Seq<Seq<char>>) -> Seq<Seq<char>> {
    let n = if left.len() < right.len() {
        right.len()
    } else {
        left.len()
    };
    Seq::new(n, |i: int| column_line(entry_at(left, i), entry_at(right, i)))
}

/// Lays out two columns side by side: line `i` holds the left column's `i`-th
/// entry padded to the column's display width, then the right column's
/// `i`-th entry; a column that has run out gives empty entries.
pub fn columnize_trees(left: &Vec<String>, right: &Vec<String>) -> (r: String)
    ensures
        r@ == concat_all(column_lines(views_of(left@), views_of(right@))),
{
    let n = if left.len() < right.len() {
        right.len()
    } else {
        left.len()
    };
    let ghost lines = column_lines(views_of(left@), views_of(right@));
    let mut r = String::new();
    let mut i: usize = 0;
    while i < n
        invariant
            i <= n,
            n == lines.len(),
            lines == column_lines(views_of(left@), views_of(right@)),
            r@ == concat_all(lines.subrange(0, i as int)),
        decreases n - i,
    {
        let empty = String::new();
        let l: &String = if i < left.len() {
            &left[i]
        } else {
            &empty
        };
        let rt: &String = if i < right.len() {
            &right[i]
        } else {
            &empty
        };
        assert(l@ == entry_at(views_of(left@), i as int));
        assert(rt@ == entry_at(views_of(right@), i as int));
        let w = width_of(l.as_str());
        r.append(l.as_str());
        if w < RUNE_COLUMN_WIDTH {
            push_spaces(&mut r, RUNE_COLUMN_WIDTH - w);
        } else {
            push_spaces(&mut r, 0);
        }
        r.append(rt.as_str());
        r.append("\n");
        proof {
            assert(lines.subrange(0, i + 1).drop_last() =~= lines.subrange(0, i as int));
            assert(r@ =~= concat_all(lines.subrange(0, i + 1)));
        }
        i = i + 1;
    }
    assert(lines.subrange(0, n as int) =~= lines);
    r
}

/// Entries of equal display width get equal padding, however many
/// characters they hold.
pub proof fn lemma_padding_follows_display_width(a: Seq<char>, b: Seq<char>)
    requires
        display_width(a) == display_width(b),
    ensures
        column_padding(a) == column_padding(b),
{
}

/// The lines of a tree's grid, one per row, each chosen option shown as `icon`.
pub open spec fn tree_rows(grid: Seq<Vec<bool>>, icon: Seq<char>) -> Seq<Seq<char>> {
    Seq::new(
        grid.len(),
        |i: int| concat_all(Seq::new(grid[i]@.len(), |j: int| cell_icon(grid[i]@[j], icon))),
    )
}

/// A tree's column: its title, then its rows.
pub open spec fn tree_column(tree: RuneBuildInfo, icon: Seq<char>) -> Seq<Seq<char>> {
    seq![tree.title@] + tree_rows(tree.perks@, icon)
}

/// Appends a tree's column to `column`.
fn push_tree_column(column: &mut Vec<String>, tree: &RuneBuildInfo, icon: &str)
    ensures
        views_of(final(column)@) == views_of(old(column)@) + tree_column(*tree, icon@),
{
    let ghost start = views_of(column@);
    column.push(tree.title.clone());
    let grid = perks_to_colored_grid(&tree.perks, icon);
    let ghost rows = tree_rows(tree.perks@, icon@);
    let mut i: usize = 0;
    while i < grid.len()
        invariant
            i <= grid@.len(),
            grid@.len() == tree.perks@.len(),
            rows == tree_rows(tree.perks@, icon@),
            forall|k: int| 0 <= k < grid@.len() ==> (#[trigger] grid@[k])@.len() == tree.perks@[k]@.len(),
            forall|k: int, j: int|
                0 <= k < grid@.len() && 0 <= j < tree.perks@[k]@.len() ==> (#[trigger] grid@[k]@[j])@
                    == cell_icon(tree.perks@[k]@[j], icon@),
            views_of(column@) == start + seq![tree.title@] + rows.subrange(0, i as int),
        decreases grid@.len() - i,
    {
        let line = grid_to_row(&grid[i]);
        proof {
            assert(cell_views(grid@[i as int]@) =~= Seq::new(
                tree.perks@[i as int]@.len(),
                |j: int| cell_icon(tree.perks@[i as int]@[j], icon@),
            ));
            assert(line@ == rows[i as int]);
        }
        let ghost before = column@;
        column.push(line);
        proof {
            assert(views_of(column@) =~= views_of(before).push(rows[i as int]));
            assert(rows.subrange(0, i + 1) =~= rows.subrange(0, i as int).push(rows[i as int]));
        }
        i = i + 1;
        assert(views_of(column@) =~= start + seq![tree.title@] + rows.subrange(0, i as int));
    }
    assert(rows.subrange(0, grid@.len() as int) =~= rows);
    assert(start + seq![tree.title@] + rows =~= start + tree_column(*tree, icon@));
}

/// The left column of a rune page: the primary tree.
pub open spec fn left_column(runes: RuneBuild, primary_icon: Seq<char>) -> Seq<Seq<char>> {
    tree_column(runes.primary, primary_icon)
}

/// The right column of a rune page: the secondary tree, then the stat shards.
pub open spec fn right_column(runes: RuneBuild, secondary_icon: Seq<char>) -> Seq<Seq<char>> {
    tree_column(runes.secondary, secondary_icon) + tree_column(runes.shards, SELECTED_CIRCLE@)
}

/// The body of the runes field: both columns laid out side by side in a code
/// block.
pub open spec fn runes_body(runes: RuneBuild, primary_icon: Seq<char>, secondary_icon: Seq<char>) -> Seq<
    char,
> {
    "```"@ + concat_all(column_lines(left_column(runes, primary_icon), right_column(runes, secondary_icon)))
        + "```"@
}

/// The `Runes` field of a build reply; it fails where either tree's title is
/// none of the five trees.
pub fn rune_field(runes: &RuneBuild) -> (r: Result<(String, String, bool), UnknownRuneTree>)
    ensures
        match (tree_icon(runes.primary.title@), tree_icon(runes.secondary.title@)) {
            (Some(p), Some(s)) => r is Ok && r->Ok_0.0@ == "Runes"@ && r->Ok_0.1@ == runes_body(
                *runes,
                p,
                s,
            ) && !r->Ok_0.2,
            _ => r is Err,
        },
{
    let primary_icon = match get_color_from_rune_title(runes.primary.title.as_str()) {
        Ok(icon) => icon,
        Err(e) => return Err(e),
    };
    let secondary_icon = match get_color_from_rune_title(runes.secondary.title.as_str()) {
        Ok(icon) => icon,
        Err(e) => return Err(e),
    };
    let mut left: Vec<String> = Vec::new();
    push_tree_column(&mut left, &runes.primary, primary_icon);
    let mut right: Vec<String> = Vec::new();
    push_tree_column(&mut right, &runes.secondary, secondary_icon);
    push_tree_column(&mut right, &runes.shards, SELECTED_CIRCLE);
    let columns = columnize_trees(&left, &right);
    let mut body = String::from_str("```");
    body.append(columns.as_str());
    body.append("```");
    assert(views_of(left@) =~= left_column(*runes, primary_icon@));
    assert(views_of(right@) =~= right_column(*runes, secondary_icon@));
    Ok((String::from_str("Runes"), body, false))
}

/// For each cell of a grid of `class` attributes, whether it holds `marker`
/// (`present`), or lacks it (`!present`).
pub fn marked_grid(classes: &Vec<Vec<String>>, marker: &str, present: bool) -> (r: Vec<Vec<bool>>)
    ensures
        r@.len() == classes@.len(),
        forall|i: int| 0 <= i < classes@.len() ==> (#[trigger] r@[i])@.len() == classes@[i]@.len(),
        forall|i: int, j: int|
            0 <= i < classes@.len() && 0 <= j < classes@[i]@.len() ==> (#[trigger] r@[i]@[j])
                == (has_substring(classes@[i]@[j]@, marker@) == present),
{
    let mut r: Vec<Vec<bool>> = Vec::new();
    let mut i: usize = 0;
    while i < classes.len()
        invariant
            i <= classes@.len(),
            r@.len() == i,
            forall|k: int| 0 <= k < i ==> (#[trigger] r@[k])@.len() == classes@[k]@.len(),
            forall|k: int, j: int|
                0 <= k < i && 0 <= j < classes@[k]@.len() ==> (#[trigger] r@[k]@[j])
                    == (has_substring(classes@[k]@[j]@, marker@) == present),
        decreases classes@.len() - i,
    {
        let row = &classes[i];
        let mut out: Vec<bool> = Vec::new();
        let mut j: usize = 0;
        while j < row.len()
            invariant
                j <= row@.len(),
                out@.len() == j,
                forall|k: int|
                    0 <= k < j ==> (#[trigger] out@[k]) == (has_substring(row@[k]@, marker@)
                        == present),
            decreases row@.len() - j,
        {
            let hit = contains_text(row[j].as_str(), marker);
            out.push(hit == present);
            j = j + 1;
        }
        r.push(out);
        i = i + 1;
    }
    r
}

/// Whether the grid `perks` marks, cell by cell, which of the `classes`
/// hold `marker`.
pub open spec fn grid_marks(perks: Seq<Vec<bool>>, classes: Seq<Seq<Seq<char>>>, marker: Seq<char>) -> bool {
    &&& perks.len() == classes.len()
    &&& forall|i: int| 0 <= i < classes.len() ==> (#[trigger] perks[i])@.len() == classes[i].len()
    &&& forall|i: int, j: int|
        0 <= i < classes.len() && 0 <= j < classes[i].len() ==> (#[trigger] perks[i]@[j])
            == has_substring(classes[i][j], marker)
}

/// Whether `r` is the rune page with these tree titles and option classes:
/// a rune is chosen where its class holds `perk-active`, a stat shard where
/// it holds `shard-active`.
pub open spec fn rune_page_from(
    r: RuneBuild,
    primary_title: Seq<char>,
    primary_classes: Seq<Seq<Seq<char>>>,
    secondary_title: Seq<char>,
    secondary_classes: Seq<Seq<Seq<char>>>,
    shard_classes: Seq<Seq<Seq<char>>>,
) -> bool {
    &&& r.primary.title@ == primary_title
    &&& r.secondary.title@ == secondary_title
    &&& r.shards.title@ == "Stat Shards"@
    &&& grid_marks(r.primary.perks@, primary_classes, "perk-active"@)
    &&& grid_marks(r.secondary.perks@, secondary_classes, "perk-active"@)
    &&& grid_marks(r.shards.perks@, shard_classes, "shard-active"@)
}

/// The views of a grid of strings.
pub open spec fn grid_view(v: Seq<Vec<String>>) -> Seq<Seq<Seq<char>>> {
    Seq::new(v.len(), |i: int| views_of(v[i]@))
}

/// Reads a rune page from the titles of its two trees and the `class`
/// attributes of the options of each row.
pub fn get_runes(
    primary_title: &str,
    primary_classes: &Vec<Vec<String>>,
    secondary_title: &str,
    secondary_classes: &Vec<Vec<String>>,
    shard_classes: &Vec<Vec<String>>,
) -> (r: RuneBuild)
    ensures
        rune_page_from(
            r,
            primary_title@,
            grid_view(primary_classes@),
            secondary_title@,
            grid_view(secondary_classes@),
            grid_view(shard_classes@),
        ),
{
    RuneBuild {
        primary: RuneBuildInfo {
            title: String::from_str(primary_title),
            perks: marked_grid(primary_classes, "perk-active", true),
        },
        secondary: RuneBuildInfo {
            title: String::from_str(secondary_title),
            perks: marked_grid(secondary_classes, "perk-active", true),
        },
        shards: RuneBuildInfo {
            title: String::from_str("Stat Shards"),
            perks: marked_grid(shard_classes, "shard-active", true),
        },
    }
}

} // verus!
