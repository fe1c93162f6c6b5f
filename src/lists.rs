//! The counters and tier-list commands: their pages and their ranked lists.
use vstd::prelude::*;
use vstd::string::*;
use crate::output::{Accent, DiscordOutput};
use crate::text::{concat_all, join_with, nat_text, pad_chars, push_nat, push_padded, to_upper, upper_of};

verus! {

/// How many champions each counters list shows.
pub const NUM_CHAMP_COUNTERS: usize = 10;

/// A champion's name and the rate the page shows beside it.
pub struct RankedEntry {
    pub name: String,
    pub rate: String,
}

/// The views of the first `n` entries of a list (all of them if it is
/// shorter).
pub open spec fn first_entries(entries: Seq<RankedEntry>, n: nat) -> Seq<(Seq<char>, Seq<char>)> {
    let k = if entries.len() < n {
        entries.len()
    } else {
        n
    };
    Seq::new(k, |i: int| (entries[i].name@, entries[i].rate@))
}

/// The address of the counters page of a champion, for a lane where it is
/// given.
pub fn counters_url(champion: &str, lane: Option<&str>) -> (r: String)
    ensures
        r@ == "https://u.gg/lol/champions/"@ + champion@ + "/counter"@ + match lane {
            Some(l) => "?role="@ + l@,
            None => Seq::empty(),
        },
{
    let mut r = String::from_str("https://u.gg/lol/champions/");
    r.append(champion);
    r.append("/counter");
    if let Some(x) = lane {
        r.append("?role=");
        r.append(x);
    }
    r
}

/// The lane of a counters reply: the one asked for, in upper case, else the
/// one the page shows, as it shows it.
pub fn get_counter_lane(lane: Option<&str>, page_lane: &str) -> (r: String)
    ensures
        r@ == match lane {
            Some(x) => upper_of(x@),
            None => page_lane@,
        },
{
    match lane {
        Some(x) => to_upper(x),
        None => String::from_str(page_lane),
    }
}

/// One line of a counters list: the name padded to ten characters, then the
/// win rate.
pub open spec fn counter_line(entry: (Seq<char>, Seq<char>)) -> Seq<char> {
    pad_chars(entry.0, 10) + " - "@ + entry.1 + "\n"@
}

/// A counters list: the lines of its first ten entries.
pub open spec fn counter_block(entries: Seq<RankedEntry>) -> Seq<char> {
    let shown = first_entries(entries, NUM_CHAMP_COUNTERS as nat);
    concat_all(Seq::new(shown.len(), |i: int| counter_line(shown[i])))
}

/// Writes a counters list: one line for each of its first ten entries.
pub fn counter_list(entries: &Vec<RankedEntry>) -> (r: String)
    ensures
        r@ == counter_block(entries@),
{
    let n = if entries.len() < NUM_CHAMP_COUNTERS {
        entries.len()
    } else {
        NUM_CHAMP_COUNTERS
    };
    let ghost shown = first_entries(entries@, NUM_CHAMP_COUNTERS as nat);
    let ghost lines = Seq::new(shown.len(), |i: int| counter_line(shown[i]));
    let mut r = String::new();
    let mut i: usize = 0;
    while i < n
        invariant
            i <= n,
            n == shown.len(),
            n <= entries@.len(),
            shown == first_entries(entries@, NUM_CHAMP_COUNTERS as nat),
            lines == Seq::new(shown.len(), |i: int| counter_line(shown[i])),
            r@ == concat_all(lines.subrange(0, i as int)),
        decreases n - i,
    {
        push_padded(&mut r, entries[i].name.as_str(), 10);
        r.append(" - ");
        r.append(entries[i].rate.as_str());
        r.append("\n");
        proof {
            assert(lines.subrange(0, i + 1).drop_last() =~= lines.subrange(0, i as int));
        }
        i = i + 1;
        assert(r@ =~= concat_all(lines.subrange(0, i as int)));
    }
    assert(lines.subrange(0, n as int) =~= lines);
    r
}

fn code_block(text: &String) -> (r: String)
    ensures
        r@ == "```"@ + text@ + "```"@,
{
    let mut r = String::from_str("```");
    r.append(text.as_str());
    r.append("```");
    r
}

/// The reply of a counters command: the best, worst and same-lane picks
/// against `champion`, each as a code block.
pub fn handle_counters_command(
    champion: &str,
    lane: &str,
    best: &Vec<RankedEntry>,
    worst: &Vec<RankedEntry>,
    lane_picks: &Vec<RankedEntry>,
) -> (r: DiscordOutput)
    ensures
        r.color == Accent::DarkGreen,
        r.title@ == "Counter picks for "@ + champion@ + " ("@ + lane@ + ")"@,
        r.description@.len() == 0,
        r.footer@.len() == 0,
        r.content@.len() == 0,
        r.fields@.len() == 3,
        r.fields@[0].0@ == "🟢 - Best Picks"@,
        r.fields@[0].1@ == "```"@ + counter_block(best@) + "```"@,
        !r.fields@[0].2,
        r.fields@[1].0@ == "🔴 - Worst Picks"@,
        r.fields@[1].1@ == "```"@ + counter_block(worst@) + "```"@,
        !r.fields@[1].2,
        r.fields@[2].0@ == "🟡 - Lane Picks"@,
        r.fields@[2].1@ == "```"@ + counter_block(lane_picks@) + "```"@,
        !r.fields@[2].2,
{
    let mut fields: Vec<(String, String, bool)> = Vec::new();
    let b = counter_list(best);
    fields.push((String::from_str("🟢 - Best Picks"), code_block(&b), false));
    let w = counter_list(worst);
    fields.push((String::from_str("🔴 - Worst Picks"), code_block(&w), false));
    let l = counter_list(lane_picks);
    fields.push((String::from_str("🟡 - Lane Picks"), code_block(&l), false));
    let mut title = String::from_str("Counter picks for ");
    title.append(champion);
    title.append(" (");
    title.append(lane);
    title.append(")");
    DiscordOutput::new(Accent::DarkGreen, String::new(), fields, String::new(), title, String::new())
}

/// The address of the tier list, of one lane where it is given: the top lane
/// is written `top-lane-`, the others by their name and a dash.
pub fn tierlist_url(lane: Option<&str>) -> (r: String)
    ensures
        r@ == "https://u.gg/lol/"@ + match lane {
            Some(l) => if l@ == "top"@ {
                "top-lane-"@
            } else {
                l@ + "-"@
            },
            None => Seq::empty(),
        } + "tier-list"@,
{
    let mut r = String::from_str("https://u.gg/lol/");
    if let Some(l) = lane {
        if crate::runes::same_text(l, "top") {
            r.append("top-lane-");
        } else {
            r.append(l);
            r.append("-");
        }
    }
    r.append("tier-list");
    r
}

/// One line of the tier list: name and tier, each padded to twenty
/// characters.
pub open spec fn tier_line(entry: (Seq<char>, Seq<char>)) -> Seq<char> {
    pad_chars(entry.0, 20) + " - "@ + pad_chars(entry.1, 20)
}

/// The tier list: the lines of its first `count` entries, one per line.
pub open spec fn tier_block(entries: Seq<RankedEntry>, count: nat) -> Seq<char> {
    let shown = first_entries(entries, count);
    join_with(Seq::new(shown.len(), |i: int| tier_line(shown[i])), "\n"@)
}

/// The reply of a tier-list command: its first `count` entries, under the
/// title `Top <count> tier list for <lane>` (`All` without a lane).
pub fn handle_tierlist_command(lane: Option<&str>, count: usize, entries: &Vec<RankedEntry>) -> (r:
    DiscordOutput)
    ensures
        r.color == Accent::DarkGreen,
        r.title@ == "Top "@ + nat_text(count as nat) + " tier list for "@ + match lane {
            Some(l) => l@,
            None => "All"@,
        },
        r.description@.len() == 0,
        r.footer@.len() == 0,
        r.content@.len() == 0,
        r.fields@.len() == 1,
        r.fields@[0].0@ == "Champion - Tier"@,
        r.fields@[0].1@ == "```"@ + tier_block(entries@, count as nat) + "```"@,
        !r.fields@[0].2,
{
    let n = if entries.len() < count {
        entries.len()
    } else {
        count
    };
    let ghost shown = first_entries(entries@, count as nat);
    let ghost lines = Seq::new(shown.len(), |i: int| tier_line(shown[i]));
    let mut rows: Vec<String> = Vec::new();
    let mut i: usize = 0;
    while i < n
        invariant
            i <= n,
            n == shown.len(),
            n <= entries@.len(),
            shown == first_entries(entries@, count as nat),
            lines == Seq::new(shown.len(), |i: int| tier_line(shown[i])),
            crate::text::views_of(rows@) == lines.subrange(0, i as int),
        decreases n - i,
    {
        let mut line = String::new();
        push_padded(&mut line, entries[i].name.as_str(), 20);
        line.append(" - ");
        push_padded(&mut line, entries[i].rate.as_str(), 20);
        let ghost before = rows@;
        rows.push(line);
        assert(crate::text::views_of(rows@) =~= crate::text::views_of(before).push(lines[i as int]));
        i = i + 1;
    }
    assert(lines.subrange(0, n as int) =~= lines);
    let list = crate::text::join_strings(&rows, "\n");
    let mut fields: Vec<(String, String, bool)> = Vec::new();
    fields.push((String::from_str("Champion - Tier"), code_block(&list), false));
    let mut title = String::from_str("Top ");
    push_nat(&mut title, count as u64);
    title.append(" tier list for ");
    match lane {
        Some(l) => title.append(l),
        None => title.append("All"),
    }
    DiscordOutput::new(Accent::DarkGreen, String::new(), fields, String::new(), title, String::new())
}

} // verus!
