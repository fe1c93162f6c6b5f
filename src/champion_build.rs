//! The build command: the page it reads, the reply with the rune page, and the
//! continuation that adds the item build and the skill order.
use vstd::prelude::*;
use vstd::string::*;
use crate::output::{Accent, DiscordOutput};
use crate::runes::{
    marked_grid, rune_field, runes_body, tree_icon, RuneBuild, UnknownRuneTree, SELECTED_CIRCLE,
    TRANSPARENT_CIRCLE,
};
use crate::text::{
    has_substring, join_with, nat_text, pad_chars, push_nat, push_padded, to_upper, upper_of,
    views_of,
};

verus! {

/// The address of the build page.
pub open spec fn build_url_text(
    champion1: Seq<char>,
    champion2: Option<Seq<char>>,
    lane: Option<Seq<char>>,
) -> Seq<char> {
    "https://u.gg/lol/champions/"@ + champion1 + "/build"@ + match lane {
        Some(l) => "/"@ + l,
        None => Seq::empty(),
    } + match champion2 {
        Some(c) => "?opp="@ + c,
        None => Seq::empty(),
    }
}

/// The view of an optional string.
pub open spec fn opt_view(s: Option<&str>) -> Option<Seq<char>> {
    match s {
        Some(x) => Some(x@),
        None => None,
    }
}

/// The address of the build page of `champion1`, for a lane and against an
/// opponent where they are given.
pub fn build_url(champion1: &str, champion2: Option<&str>, lane: Option<&str>) -> (r: String)
    ensures
        r@ == build_url_text(champion1@, opt_view(champion2), opt_view(lane)),
{
    let mut r = String::from_str("https://u.gg/lol/champions/");
    r.append(champion1);
    r.append("/build");
    if let Some(x) = lane {
        r.append("/");
        r.append(x);
    }
    if let Some(x) = champion2 {
        r.append("?opp=");
        r.append(x);
    }
    assert(r@ =~= build_url_text(champion1@, opt_view(champion2), opt_view(lane)));
    r
}

/// The message of a query that the site has no data for.
pub open spec fn no_data_text(champion1: Seq<char>, champion2: Option<Seq<char>>) -> Seq<char> {
    "No data found for "@ + champion1 + " vs. "@ + match champion2 {
        Some(c) => c,
        None => Seq::empty(),
    }
}

/// Checks the loaded page before anything is read from it: where the site
/// shows its "no data" marker, the query fails with a message that names both
/// champions.
pub fn check_build_page(champion1: &str, champion2: Option<&str>, no_data_marker: bool) -> (r:
    Result<(), String>)
    ensures
        r is Ok <==> !no_data_marker,
        r is Err ==> r->Err_0@ == no_data_text(champion1@, opt_view(champion2)),
{
    if !no_data_marker {
        return Ok(());
    }
    let mut m = String::from_str("No data found for ");
    m.append(champion1);
    m.append(" vs. ");
    if let Some(c) = champion2 {
        m.append(c);
    }
    assert(m@ =~= no_data_text(champion1@, opt_view(champion2)));
    Err(m)
}

/// The reply of a build command that failed: red, titled
/// `Error fetching build for <champion>`, with the failure as description.
pub fn build_error_output(champion1: &str, message: &str) -> (r: DiscordOutput)
    ensures
        r.color == Accent::DarkRed,
        r.description@ == message@,
        r.fields@.len() == 0,
        r.footer@.len() == 0,
        r.title@ == "Error fetching build for "@ + champion1@,
        r.content@.len() == 0,
{
    let mut title = String::from_str("Error fetching build for ");
    title.append(champion1);
    DiscordOutput::new(
        Accent::DarkRed,
        String::from_str(message),
        Vec::new(),
        String::new(),
        title,
        String::new(),
    )
}

/// `s` with its first character in upper case.
pub open spec fn capitalized(s: Seq<char>) -> Seq<char> {
    if s.len() == 0 {
        s
    } else {
        upper_of(s.subrange(0, 1)) + s.subrange(1, s.len() as int)
    }
}

/// Puts the first character of `input` in upper case and keeps the rest.
pub fn capitalize_string(input: &str) -> (r: String)
    ensures
        r@ == capitalized(input@),
{
    let n = input.unicode_len();
    if n == 0 {
        return String::new();
    }
    let mut r = to_upper(input.substring_char(0, 1));
    r.append(input.substring_char(1, n));
    r
}

/// The title of a build reply: `(LANE) Champion vs. Enemy`, or
/// `(LANE) champion` without an opponent.
pub open spec fn title_text(champion1: Seq<char>, champion2: Option<Seq<char>>, lane: Seq<char>) -> Seq<
    char,
> {
    match champion2 {
        Some(c) => "("@ + lane + ") "@ + capitalized(champion1) + " vs. "@ + capitalized(c),
        None => "("@ + lane + ") "@ + champion1,
    }
}

/// The title of a build reply.
pub fn get_title(champion1: &str, champion2: Option<&str>, lane: &str) -> (r: String)
    ensures
        r@ == title_text(champion1@, opt_view(champion2), lane@),
{
    let mut r = String::from_str("(");
    r.append(lane);
    r.append(") ");
    match champion2 {
        Some(enemy) => {
            let a = capitalize_string(champion1);
            r.append(a.as_str());
            r.append(" vs. ");
            let b = capitalize_string(enemy);
            r.append(b.as_str());
        },
        None => {
            r.append(champion1);
        },
    }
    r
}

/// The lane of a build: the one asked for where there is one, else the one
/// the page shows; in upper case either way.
pub fn get_lane(lane: Option<&str>, page_lane: &str) -> (r: String)
    ensures
        r@ == upper_of(
            match lane {
                Some(x) => x@,
                None => page_lane@,
            },
        ),
{
    match lane {
        Some(x) => to_upper(x),
        None => to_upper(page_lane),
    }
}

/// The first reply of a build command: the rune page, under the title of the
/// matchup, with the colour and description that the win rate gave.
pub fn handle_build_command(
    champion1: &str,
    champion2: Option<&str>,
    lane: &str,
    runes: &RuneBuild,
    color: Accent,
    description: String,
) -> (r: Result<DiscordOutput, UnknownRuneTree>)
    ensures
        match (tree_icon(runes.primary.title@), tree_icon(runes.secondary.title@)) {
            (Some(p), Some(s)) => r is Ok && ({
                let o = r->Ok_0;
                &&& o.color == color
                &&& o.description@ == description@
                &&& o.fields@.len() == 1
                &&& o.fields@[0].0@ == "Runes"@
                &&& o.fields@[0].1@ == runes_body(*runes, p, s)
                &&& !o.fields@[0].2
                &&& o.footer@.len() == 0
                &&& o.title@ == title_text(champion1@, opt_view(champion2), lane@)
                &&& o.content@.len() == 0
            }),
            _ => r is Err,
        },
{
    let field = match rune_field(runes) {
        Ok(f) => f,
        Err(e) => return Err(e),
    };
    let title = get_title(champion1, champion2, lane);
    let mut fields: Vec<(String, String, bool)> = Vec::new();
    fields.push(field);
    Ok(DiscordOutput::new(color, description, fields, String::new(), title, String::new()))
}

/// The number of levels a skill order covers.
pub const SKILL_LEVELS: usize = 18;

/// The views of the rows of a grid.
pub open spec fn rows_view(grid: Seq<Vec<bool>>) -> Seq<Seq<bool>> {
    Seq::new(grid.len(), |i: int| grid[i]@)
}

/// The circle of one skill at one level: the transparent circle where the
/// skill is not levelled; where it is, a yellow circle at the levels where the
/// ultimate comes (6, 11 and 16), else the plain chosen circle.
pub open spec fn skill_glyph(up: bool, level: int) -> Seq<char> {
    if !up {
        TRANSPARENT_CIRCLE@
    } else if level == 6 || level == 11 || level == 16 {
        "🟡"@
    } else {
        SELECTED_CIRCLE@
    }
}

/// The circles of level `idx + 1`: one per skill whose row reaches that level.
pub open spec fn level_cells(skills: Seq<Seq<bool>>, idx: int) -> Seq<Seq<char>>
    decreases skills.len(),
{
    if skills.len() == 0 {
        Seq::empty()
    } else {
        let rest = level_cells(skills.drop_last(), idx);
        let row = skills.last();
        if idx < row.len() {
            rest.push(skill_glyph(row[idx], idx + 1))
        } else {
            rest
        }
    }
}

/// The line of level `idx + 1`: the level, padded to five characters, then
/// the circles of that level.
pub open spec fn level_line(skills: Seq<Seq<bool>>, idx: int) -> Seq<char> {
    pad_chars(nat_text((idx + 1) as nat), 5) + " "@ + join_with(level_cells(skills, idx), "  "@)
}

/// The skill order as a table: a header naming the skills, then one line per
/// level.
pub open spec fn skill_order_text(skills: Seq<Seq<bool>>) -> Seq<char> {
    "       "@ + "Q   W   E   R   Passive"@ + "\n"@ + join_with(
        Seq::new(SKILL_LEVELS as nat, |i: int| level_line(skills, i)),
        "\n"@,
    )
}

fn skill_glyph_str(up: bool, level: usize) -> (r: &'static str)
    ensures
        r@ == skill_glyph(up, level as int),
{
    if !up {
        TRANSPARENT_CIRCLE
    } else if level == 6 || level == 11 || level == 16 {
        "🟡"
    } else {
        SELECTED_CIRCLE
    }
}

fn level_line_of(skills: &Vec<Vec<bool>>, idx: usize) -> (r: String)
    requires
        idx < SKILL_LEVELS,
    ensures
        r@ == level_line(rows_view(skills@), idx as int),
{
    let mut cells: Vec<String> = Vec::new();
    let mut k: usize = 0;
    while k < skills.len()
        invariant
            k <= skills@.len(),
            idx < SKILL_LEVELS,
            views_of(cells@) == level_cells(rows_view(skills@.subrange(0, k as int)), idx as int),
        decreases skills@.len() - k,
    {
        let ghost before = cells@;
        proof {
            assert(rows_view(skills@.subrange(0, k + 1)).drop_last() =~= rows_view(
                skills@.subrange(0, k as int),
            ));
            assert(rows_view(skills@.subrange(0, k + 1)).last() == skills@[k as int]@);
        }
        if idx < skills[k].len() {
            let glyph = skill_glyph_str(skills[k][idx], idx + 1);
            cells.push(String::from_str(glyph));
            assert(views_of(cells@) =~= views_of(before).push(glyph@));
        }
        k = k + 1;
    }
    assert(rows_view(skills@.subrange(0, skills@.len() as int)) =~= rows_view(skills@));
    let mut r = String::new();
    push_padded_number(&mut r, idx + 1);
    r.append(" ");
    let joined = crate::text::join_strings(&cells, "  ");
    r.append(joined.as_str());
    r
}

fn push_padded_number(out: &mut String, n: usize)
    requires
        n <= SKILL_LEVELS,
    ensures
        final(out)@ == old(out)@ + pad_chars(nat_text(n as nat), 5),
{
    let mut digits = String::new();
    push_nat(&mut digits, n as u64);
    push_padded(out, digits.as_str(), 5);
}

/// Writes a skill order (one row per skill, one flag per level) as a table
/// with one line per level.
pub fn generate_output_from_skills(skills: &Vec<Vec<bool>>) -> (r: String)
    ensures
        r@ == skill_order_text(rows_view(skills@)),
{
    let ghost lines = Seq::new(SKILL_LEVELS as nat, |i: int| level_line(rows_view(skills@), i));
    let mut rows: Vec<String> = Vec::new();
    let mut idx: usize = 0;
    while idx < SKILL_LEVELS
        invariant
            idx <= SKILL_LEVELS,
            lines == Seq::new(SKILL_LEVELS as nat, |i: int| level_line(rows_view(skills@), i)),
            views_of(rows@) == lines.subrange(0, idx as int),
        decreases SKILL_LEVELS - idx,
    {
        let line = level_line_of(skills, idx);
        let ghost before = rows@;
        rows.push(line);
        assert(views_of(rows@) =~= views_of(before).push(lines[idx as int]));
        idx = idx + 1;
        assert(views_of(rows@) =~= lines.subrange(0, idx as int));
    }
    assert(lines.subrange(0, SKILL_LEVELS as int) =~= lines);
    let mut r = String::from_str("       ");
    r.append("Q   W   E   R   Passive");
    r.append("\n");
    let body = crate::text::join_strings(&rows, "\n");
    r.append(body.as_str());
    r
}

/// The item names of each slot group of a build, as their tooltips give them.
pub struct ItemBuild {
    pub starting: Vec<String>,
    pub core: Vec<String>,
    pub fourth: Vec<String>,
    pub fifth: Vec<String>,
    pub sixth: Vec<String>,
}

/// A slot group as text: its label, then one `> name` line per item.
pub open spec fn item_group_text(label: Seq<char>, names: Seq<Seq<char>>) -> Seq<char> {
    label + ":\n"@ + "    "@ + join_with(Seq::new(names.len(), |i: int| "> "@ + names[i]), "\n    "@)
        + "\n"@
}

/// The item build as text: the five slot groups one after another.
pub open spec fn item_build_text(items: ItemBuild) -> Seq<char> {
    item_group_text("Starting Items"@, views_of(items.starting@)) + item_group_text(
        "Core Items"@,
        views_of(items.core@),
    ) + item_group_text("Fourth Item Options"@, views_of(items.fourth@)) + item_group_text(
        "Fifth Item Options"@,
        views_of(items.fifth@),
    ) + item_group_text("Sixth Item Options"@, views_of(items.sixth@))
}

fn push_item_group(out: &mut String, label: &str, names: &Vec<String>)
    ensures
        final(out)@ == old(out)@ + item_group_text(label@, views_of(names@)),
{
    let mut lines: Vec<String> = Vec::new();
    let mut i: usize = 0;
    while i < names.len()
        invariant
            i <= names@.len(),
            views_of(lines@) == Seq::new(i as nat, |k: int| "> "@ + names@[k]@),
        decreases names@.len() - i,
    {
        let mut line = String::from_str("> ");
        line.append(names[i].as_str());
        let ghost before = lines@;
        lines.push(line);
        assert(views_of(lines@) =~= views_of(before).push("> "@ + names@[i as int]@));
        i = i + 1;
        assert(views_of(lines@) =~= Seq::new(i as nat, |k: int| "> "@ + names@[k]@));
    }
    assert(Seq::new(names@.len(), |k: int| "> "@ + names@[k]@) =~= Seq::new(
        views_of(names@).len(),
        |k: int| "> "@ + views_of(names@)[k],
    ));
    out.append(label);
    out.append(":\n");
    out.append("    ");
    let joined = crate::text::join_strings(&lines, "\n    ");
    out.append(joined.as_str());
    out.append("\n");
    assert(final(out)@ =~= old(out)@ + item_group_text(label@, views_of(names@)));
}

/// Writes the item build: each slot group under its label.
pub fn generate_item_build_info(items: &ItemBuild) -> (r: String)
    ensures
        r@ == item_build_text(*items),
{
    let mut r = String::new();
    push_item_group(&mut r, "Starting Items", &items.starting);
    push_item_group(&mut r, "Core Items", &items.core);
    push_item_group(&mut r, "Fourth Item Options", &items.fourth);
    push_item_group(&mut r, "Fifth Item Options", &items.fifth);
    push_item_group(&mut r, "Sixth Item Options", &items.sixth);
    assert(r@ =~= item_build_text(*items));
    r
}

/// The second reply of a build command: the first one with two fields added,
/// the item build and the skill order, each as a code block.
pub fn handle_build_continuation(
    items: &ItemBuild,
    skills: &Vec<Vec<bool>>,
    previous_output: DiscordOutput,
) -> (r: DiscordOutput)
    ensures
        r.color == previous_output.color,
        r.description@ == previous_output.description@,
        r.footer@ == previous_output.footer@,
        r.title@ == previous_output.title@,
        r.content@ == previous_output.content@,
        r.fields@.len() == previous_output.fields@.len() + 2,
        r.fields@.subrange(0, previous_output.fields@.len() as int) == previous_output.fields@,
        ({
            let n = previous_output.fields@.len() as int;
            &&& r.fields@[n].0@ == "Item Build"@
            &&& r.fields@[n].1@ == "```"@ + item_build_text(*items) + "```"@
            &&& !r.fields@[n].2
            &&& r.fields@[n + 1].0@ == "Skill Order"@
            &&& r.fields@[n + 1].1@ == "```"@ + skill_order_text(rows_view(skills@)) + "```"@
            &&& !r.fields@[n + 1].2
        }),
{
    let DiscordOutput { color, description, fields, footer, title, content } = previous_output;
    let mut new_fields = fields;
    let ghost old_fields = new_fields@;
    let mut item_body = String::from_str("```");
    let item_text = generate_item_build_info(items);
    item_body.append(item_text.as_str());
    item_body.append("```");
    let mut skill_body = String::from_str("```");
    let skill_text = generate_output_from_skills(skills);
    skill_body.append(skill_text.as_str());
    skill_body.append("```");
    new_fields.push((String::from_str("Item Build"), item_body, false));
    new_fields.push((String::from_str("Skill Order"), skill_body, false));
    assert(new_fields@.subrange(0, old_fields.len() as int) =~= old_fields);
    DiscordOutput::new(color, description, new_fields, footer, title, content)
}

/// Which skill is levelled at which level, read from the `class` attributes
/// of the skill-order cells: a cell is levelled unless its class holds
/// `no-skill-up`.
pub open spec fn skill_flags(classes: Seq<Vec<String>>) -> Seq<Seq<bool>> {
    Seq::new(
        classes.len(),
        |i: int| Seq::new(classes[i]@.len(), |j: int| !has_substring(classes[i]@[j]@, "no-skill-up"@)),
    )
}

/// Writes the skill order of a page from the `class` attributes of its cells,
/// one row per skill.
pub fn generate_skill_order(classes: &Vec<Vec<String>>) -> (r: String)
    ensures
        r@ == skill_order_text(skill_flags(classes@)),
{
    let skills = marked_grid(classes, "no-skill-up", false);
    assert(rows_view(skills@) =~= skill_flags(classes@)) by {
        assert forall|i: int| 0 <= i < skills@.len() implies #[trigger] rows_view(skills@)[i]
            == skill_flags(classes@)[i] by {
            assert(skills@[i]@ =~= skill_flags(classes@)[i]);
        }
    }
    generate_output_from_skills(&skills)
}

} // verus!
