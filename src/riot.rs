//! The match-history API: its records, the URLs it is asked on, and the
//! per-match summary that replies are built from.
use vstd::prelude::*;
use crate::output::{Accent, DiscordOutput};
use crate::text::{int_text, nat_text, push_int, push_nat, to_upper, upper_of};

verus! {

/// The account record that a name and tag resolve to.
pub struct AccountDto {
    pub puuid: String,
}

/// The error body that the API sends with a failed request.
pub struct ErrorDto {
    pub status_code: String,
}

/// A failed lookup, with the query that caused it.
pub struct OutputError {
    pub status: String,
    pub message: String,
    pub player_name: String,
    pub tag: String,
    pub region: String,
}

/// A resolved player and the query that found them.
pub struct AccountInfoContext {
    pub puuid: String,
    pub player_name: String,
    pub tag: String,
    pub region: String,
}

/// One fetched match.
pub struct MatchDto {
    pub info: InfoDto,
    pub metadata: MetadataDto,
}

/// The identification of a match.
pub struct MetadataDto {
    pub data_version: String,
    pub match_id: String,
}

/// The body of a match: its players, in the order the API lists them.
pub struct InfoDto {
    pub participants: Vec<ParticipantDto>,
    pub game_mode: String,
}

/// One player's line in one match.
pub struct ParticipantDto {
    pub assists: i32,
    pub champion_name: String,
    pub deaths: i32,
    pub kills: i32,
    pub participant_id: i32,
    pub puuid: String,
    pub summoner_id: String,
    pub summoner_name: String,
    pub team_position: String,
    pub win: bool,
    pub riot_id_game_name: String,
    pub team_id: u32,
}

/// Why no summary could be made of a match.
#[derive(Clone, Copy, Debug, PartialEq, Eq, Structural)]
pub enum MatchInfoError {
    /// The match lists no players.
    NoParticipants,
    /// The queried player, or their lane opponent, is not in the match.
    ParticipantNotFound,
    /// The queried player, or their lane opponent, is not unique.
    AmbiguousParticipant,
}

impl MatchInfoError {
    /// The message shown for a match that could not be summarised.
    pub fn to_text(&self) -> (r: String)
        ensures
            r@ == match *self {
                MatchInfoError::NoParticipants => "No participants found"@,
                MatchInfoError::ParticipantNotFound => "Participant not found"@,
                MatchInfoError::AmbiguousParticipant => "More than one participant fits"@,
            },
    {
        match self {
            MatchInfoError::NoParticipants => String::from_str("No participants found"),
            MatchInfoError::ParticipantNotFound => String::from_str("Participant not found"),
            MatchInfoError::AmbiguousParticipant => String::from_str("More than one participant fits"),
        }
    }
}

/// The text of an `OutputError`.
pub open spec fn output_error_text(e: OutputError) -> Seq<char> {
    e.message@ + " \n ("@ + e.status@ + ") "@ + e.player_name@ + "#"@ + e.tag@ + ": ("@
        + e.region@ + ")"@
}

impl OutputError {
    /// The message shown to the user.
    pub fn to_text(&self) -> (r: String)
        ensures
            r@ == output_error_text(*self),
    {
        let mut r = String::new();
        r.append(self.message.as_str());
        r.append(" \n (");
        r.append(self.status.as_str());
        r.append(") ");
        r.append(self.player_name.as_str());
        r.append("#");
        r.append(self.tag.as_str());
        r.append(": (");
        r.append(self.region.as_str());
        r.append(")");
        r
    }
}

/// Whether `p` is the player with id `puuid`.
pub open spec fn is_player(puuid: Seq<char>) -> spec_fn(ParticipantDto) -> bool {
    |p: ParticipantDto| p.puuid@ == puuid
}

/// Whether `p` is a lane opponent of `me`: the other team, the same position.
pub open spec fn is_opponent(me: ParticipantDto) -> spec_fn(ParticipantDto) -> bool {
    |p: ParticipantDto| p.team_id != me.team_id && p.team_position@ == me.team_position@
}

/// Whether `p` shares `me`'s team and position (`me` itself does).
pub open spec fn is_lane_mate(me: ParticipantDto) -> spec_fn(ParticipantDto) -> bool {
    |p: ParticipantDto| p.team_id == me.team_id && p.team_position@ == me.team_position@
}

/// The queried player and their lane opponent in `m`. The player must be the
/// only one with their id and the only one of their team in their position,
/// and the opponent the only one of the other team in that position.
pub open spec fn match_pair(m: MatchDto, puuid: Seq<char>) -> Result<
    (ParticipantDto, ParticipantDto),
    MatchInfoError,
> {
    let ps = m.info.participants@;
    let mes = ps.filter(is_player(puuid));
    if ps.len() == 0 {
        Err(MatchInfoError::NoParticipants)
    } else if mes.len() == 0 {
        Err(MatchInfoError::ParticipantNotFound)
    } else if mes.len() > 1 {
        Err(MatchInfoError::AmbiguousParticipant)
    } else if ps.filter(is_lane_mate(mes[0])).len() > 1 {
        Err(MatchInfoError::AmbiguousParticipant)
    } else {
        let opps = ps.filter(is_opponent(mes[0]));
        if opps.len() == 0 {
            Err(MatchInfoError::ParticipantNotFound)
        } else if opps.len() > 1 {
            Err(MatchInfoError::AmbiguousParticipant)
        } else {
            Ok((mes[0], opps[0]))
        }
    }
}

/// Kills, deaths and assists as `k/d/a`.
pub open spec fn kda_text(p: ParticipantDto) -> Seq<char> {
    int_text(p.kills as int) + "/"@ + int_text(p.deaths as int) + "/"@ + int_text(p.assists as int)
}

/// The heading of a match's field: `n: LANE (WON|LOST)`.
pub open spec fn match_heading(n: nat, me: ParticipantDto) -> Seq<char> {
    nat_text(n) + ": "@ + upper_of(me.team_position@) + " ("@ + (if me.win {
        "WON"@
    } else {
        "LOST"@
    }) + ")"@
}

/// The body of a match's field: both players' score and champion, and the
/// opponent's name, as a code block.
pub open spec fn match_body(me: ParticipantDto, opp: ParticipantDto) -> Seq<char> {
    "```("@ + kda_text(me) + ")\n"@ + me.champion_name@ + "\nvs.\n("@ + kda_text(opp) + ")\n"@
        + opp.champion_name@ + "\n("@ + opp.riot_id_game_name@ + ")```"@
}

fn push_kda(out: &mut String, p: &ParticipantDto)
    ensures
        final(out)@ == old(out)@ + kda_text(*p),
{
    push_int(out, p.kills as i64);
    out.append("/");
    push_int(out, p.deaths as i64);
    out.append("/");
    push_int(out, p.assists as i64);
    assert(final(out)@ =~= old(out)@ + kda_text(*p));
}

/// What `find_unique` looks for: the player `puuid` where `me` is not given;
/// else the players in `me`'s position on `me`'s team (`same_team`) or on the
/// other team.
pub open spec fn seek(puuid: Seq<char>, me: Option<&ParticipantDto>, same_team: bool) -> spec_fn(
    ParticipantDto,
) -> bool {
    match me {
        Some(m) => if same_team {
            is_lane_mate(*m)
        } else {
            is_opponent(*m)
        },
        None => is_player(puuid),
    }
}

/// Finds the only participant that `seek` describes: `Ok(None)` where there
/// is none, `Err` where there are several.
fn find_unique(
    ps: &Vec<ParticipantDto>,
    puuid: &String,
    me: Option<&ParticipantDto>,
    same_team: bool,
) -> (r: Result<
    Option<usize>,
    (),
>)
    ensures
        ({
            let pred = seek(puuid@, me, same_team);
            let found = ps@.filter(pred);
            match r {
                Ok(None) => found.len() == 0,
                Ok(Some(i)) => found.len() == 1 && i < ps@.len() && found[0] == ps@[i as int],
                Err(()) => found.len() > 1,
            }
        }),
{
    let ghost pred = seek(puuid@, me, same_team);
    let mut first: Option<usize> = None;
    let mut i: usize = 0;
    while i < ps.len()
        invariant
            i <= ps@.len(),
            pred == seek(puuid@, me, same_team),
            match first {
                None => ps@.subrange(0, i as int).filter(pred).len() == 0,
                Some(j) => ps@.subrange(0, i as int).filter(pred).len() == 1 && j < i
                    && ps@.subrange(0, i as int).filter(pred)[0] == ps@[j as int],
            },
        decreases ps@.len() - i,
    {
        let p = &ps[i];
        let hit = match me {
            Some(m) => (p.team_id == m.team_id) == same_team && p.team_position == m.team_position,
            None => p.puuid == *puuid,
        };
        proof {
            reveal(Seq::filter);
            assert(ps@.subrange(0, i + 1).drop_last() =~= ps@.subrange(0, i as int));
            assert(ps@.subrange(0, i + 1).last() == ps@[i as int]);
            assert(hit == pred(ps@[i as int]));
        }
        if hit {
            if first.is_some() {
                proof {
                    assert(ps@.subrange(0, i + 1).filter(pred).len() == 2);
                    assert(ps@ =~= ps@.subrange(0, i + 1) + ps@.subrange(i + 1, ps@.len() as int));
                    Seq::filter_distributes_over_add(
                        ps@.subrange(0, i + 1),
                        ps@.subrange(i + 1, ps@.len() as int),
                        pred,
                    );
                }
                return Err(());
            }
            first = Some(i);
        }
        i = i + 1;
    }
    assert(ps@.subrange(0, ps@.len() as int) =~= ps@);
    Ok(first)
}

/// Summarises one match for the player with id `player_puuid`: a field whose
/// heading is `n: LANE (WON|LOST)` for sequence number `game_count`, and
/// whose body holds both lane opponents' scores, and whether the player won.
pub fn get_match_info(match_resp: &MatchDto, game_count: usize, player_puuid: &String) -> (r: Result<
    ((String, String, bool), bool),
    MatchInfoError,
>)
    ensures
        match match_pair(*match_resp, player_puuid@) {
            Ok((me, opp)) => r is Ok && r->Ok_0.0.0@ == match_heading(game_count as nat, me)
                && r->Ok_0.0.1@ == match_body(me, opp) && r->Ok_0.0.2 && r->Ok_0.1 == me.win,
            Err(e) => r == Err::<((String, String, bool), bool), MatchInfoError>(e),
        },
{
    let ps = &match_resp.info.participants;
    if ps.len() == 0 {
        return Err(MatchInfoError::NoParticipants);
    }
    let me_index = match find_unique(ps, player_puuid, None, false) {
        Ok(Some(i)) => i,
        Ok(None) => return Err(MatchInfoError::ParticipantNotFound),
        Err(()) => return Err(MatchInfoError::AmbiguousParticipant),
    };
    let me = &ps[me_index];
    if find_unique(ps, player_puuid, Some(me), true).is_err() {
        return Err(MatchInfoError::AmbiguousParticipant);
    }
    let opp_index = match find_unique(ps, player_puuid, Some(me), false) {
        Ok(Some(i)) => i,
        Ok(None) => return Err(MatchInfoError::ParticipantNotFound),
        Err(()) => return Err(MatchInfoError::AmbiguousParticipant),
    };
    let opp = &ps[opp_index];

    let mut heading = String::new();
    push_nat(&mut heading, game_count as u64);
    heading.append(": ");
    let lane = to_upper(me.team_position.as_str());
    heading.append(lane.as_str());
    heading.append(" (");
    if me.win {
        heading.append("WON");
    } else {
        heading.append("LOST");
    }
    heading.append(")");

    let mut body = String::new();
    body.append("```(");
    push_kda(&mut body, me);
    body.append(")\n");
    body.append(me.champion_name.as_str());
    body.append("\nvs.\n(");
    push_kda(&mut body, opp);
    body.append(")\n");
    body.append(opp.champion_name.as_str());
    body.append("\n(");
    body.append(opp.riot_id_game_name.as_str());
    body.append(")```");
    assert(heading@ =~= match_heading(game_count as nat, *me));
    assert(body@ =~= match_body(*me, *opp));
    Ok(((heading, body, true), me.win))
}

/// Whether a summary can be made of a match for the player `puuid`.
pub open spec fn extracts(puuid: Seq<char>) -> spec_fn(MatchDto) -> bool {
    |m: MatchDto| match_pair(m, puuid) is Ok
}

/// Whether a match can be summarised for the player `puuid` and they won it.
pub open spec fn won(puuid: Seq<char>) -> spec_fn(MatchDto) -> bool {
    |m: MatchDto| match_pair(m, puuid) is Ok && match_pair(m, puuid)->Ok_0.0.win
}

/// Whether a match can be summarised for the player `puuid` and they lost it.
pub open spec fn lost(puuid: Seq<char>) -> spec_fn(MatchDto) -> bool {
    |m: MatchDto| match_pair(m, puuid) is Ok && !match_pair(m, puuid)->Ok_0.0.win
}

/// The field that summarises match `m`, numbered `n`.
pub open spec fn match_field(m: MatchDto, n: nat, puuid: Seq<char>) -> (Seq<char>, Seq<char>, bool) {
    let (me, opp) = match_pair(m, puuid)->Ok_0;
    (match_heading(n, me), match_body(me, opp), true)
}

/// Whether `s` ends with `t`.
pub open spec fn ends_with(s: Seq<char>, t: Seq<char>) -> bool {
    t.len() <= s.len() && s.subrange(s.len() - t.len(), s.len() as int) == t
}

/// How many of `texts` end with `t`.
pub open spec fn count_ending(texts: Seq<Seq<char>>, t: Seq<char>) -> nat
    decreases texts.len(),
{
    if texts.len() == 0 {
        0
    } else {
        count_ending(texts.drop_last(), t) + if ends_with(texts.last(), t) {
            1nat
        } else {
            0nat
        }
    }
}

/// The headings of a list of fields.
pub open spec fn headings(fields: Seq<(String, String, bool)>) -> Seq<Seq<char>> {
    Seq::new(fields.len(), |i: int| fields[i].0@)
}

/// A match's heading ends with `(WON)` exactly when the player won, and with
/// `(LOST)` exactly when they lost.
pub proof fn lemma_heading_shows_result(n: nat, me: ParticipantDto)
    ensures
        ends_with(match_heading(n, me), "(WON)"@) == me.win,
        ends_with(match_heading(n, me), "(LOST)"@) == !me.win,
{
    reveal_strlit(" (");
    reveal_strlit("WON");
    reveal_strlit("LOST");
    reveal_strlit(")");
    reveal_strlit("(WON)");
    reveal_strlit("(LOST)");
    let h = match_heading(n, me);
    let head = nat_text(n) + ": "@ + upper_of(me.team_position@);
    let x = if me.win {
        "WON"@
    } else {
        "LOST"@
    };
    assert(h == head + " ("@ + x + ")"@);
    let k = head.len();
    if me.win {
        assert(h.len() == k + 6);
        assert(h.subrange(h.len() - 5, h.len() as int) =~= "(WON)"@);
        assert(h.subrange(h.len() - 6, h.len() as int)[0] == ' ');
    } else {
        assert(h.len() == k + 7);
        assert(h.subrange(h.len() - 6, h.len() as int) =~= "(LOST)"@);
        assert(h.subrange(h.len() - 5, h.len() as int)[0] == 'L');
    }
}

/// The matches of a batch that could be summarised, with the player's wins.
pub struct MatchesSummary {
    pub fields: Vec<(String, String, bool)>,
    pub wins: usize,
    pub total: usize,
}

/// Summarises a batch of matches for the player `player_puuid`: matches that
/// cannot be summarised are dropped, the others numbered from one in the
/// order given.
pub fn summarize_matches(matches: &Vec<MatchDto>, player_puuid: &String) -> (r: MatchesSummary)
    ensures
        ({
            let kept = matches@.filter(extracts(player_puuid@));
            &&& r.total == kept.len()
            &&& r.fields@.len() == kept.len()
            &&& forall|i: int|
                0 <= i < kept.len() ==> #[trigger] crate::output::field_view(r.fields@[i])
                    == match_field(kept[i], (i + 1) as nat, player_puuid@)
            &&& r.wins == matches@.filter(won(player_puuid@)).len()
            &&& r.wins == count_ending(headings(r.fields@), "(WON)"@)
            &&& r.total - r.wins == count_ending(headings(r.fields@), "(LOST)"@)
        }),
{
    let ghost ok = extracts(player_puuid@);
    let ghost w = won(player_puuid@);
    let mut fields: Vec<(String, String, bool)> = Vec::new();
    let mut wins: usize = 0;
    let mut i: usize = 0;
    while i < matches.len()
        invariant
            i <= matches@.len(),
            ok == extracts(player_puuid@),
            w == won(player_puuid@),
            fields@.len() == matches@.subrange(0, i as int).filter(ok).len(),
            fields@.len() <= i,
            wins == matches@.subrange(0, i as int).filter(w).len(),
            wins <= i,
            wins == count_ending(headings(fields@), "(WON)"@),
            fields@.len() - wins == count_ending(headings(fields@), "(LOST)"@),
            forall|j: int|
                0 <= j < fields@.len() ==> #[trigger] crate::output::field_view(fields@[j])
                    == match_field(matches@.subrange(0, i as int).filter(ok)[j], (j + 1) as nat, player_puuid@),
        decreases matches@.len() - i,
    {
        let ghost before = matches@.subrange(0, i as int);
        let ghost after = matches@.subrange(0, i + 1);
        proof {
            reveal(Seq::filter);
            assert(after.drop_last() =~= before);
            assert(after.last() == matches@[i as int]);
            Seq::lemma_filter_len(before, ok);
            Seq::lemma_filter_len(before, w);
        }
        let n = fields.len() + 1;
        match get_match_info(&matches[i], n, player_puuid) {
            Ok((field, win)) => {
                proof {
                    let me = match_pair(matches@[i as int], player_puuid@)->Ok_0.0;
                    lemma_heading_shows_result(n as nat, me);
                }
                let ghost before = fields@;
                let ghost heading = field.0@;
                fields.push(field);
                assert(headings(fields@) =~= headings(before).push(heading));
                assert(headings(fields@).drop_last() =~= headings(before));
                if win {
                    wins = wins + 1;
                }
            },
            Err(_) => {},
        }
        i = i + 1;
    }
    assert(matches@.subrange(0, matches@.len() as int) =~= matches@);
    let total = fields.len();
    MatchesSummary { fields, wins, total }
}

/// Every match that can be summarised counts once, as a win or as a loss.
pub proof fn lemma_wins_and_losses_cover_summarised(matches: Seq<MatchDto>, puuid: Seq<char>)
    ensures
        matches.filter(won(puuid)).len() + matches.filter(lost(puuid)).len()
            == matches.filter(extracts(puuid)).len(),
    decreases matches.len(),
{
    reveal(Seq::filter);
    if matches.len() > 0 {
        lemma_wins_and_losses_cover_summarised(matches.drop_last(), puuid);
    }
}

/// A match in which the queried player does not appear is dropped from a
/// summary: no field and no win comes of it.
pub proof fn lemma_absent_player_dropped(m: MatchDto, puuid: Seq<char>)
    requires
        forall|i: int|
            0 <= i < m.info.participants@.len() ==> #[trigger] m.info.participants@[i].puuid@
                != puuid,
    ensures
        !extracts(puuid)(m),
        !won(puuid)(m),
        !lost(puuid)(m),
{
    let ps = m.info.participants@;
    let pred = is_player(puuid);
    assert(ps.all(|p: ParticipantDto| !pred(p)));
    ps.lemma_all_neg_filter_empty(pred);
}

/// The address of the API host of a routing region.
pub open spec fn api_base(region: Seq<char>) -> Seq<char> {
    "https://"@ + region + ".api.riotgames.com"@
}

/// The address that resolves a player's name and tag to their account.
pub fn account_url(region: &str, player_name: &str, tag: &str) -> (r: String)
    ensures
        r@ == api_base(region@) + "/riot/account/v1/accounts/by-riot-id/"@ + player_name@ + "/"@
            + tag@,
{
    let mut r = String::new();
    r.append("https://");
    r.append(region);
    r.append(".api.riotgames.com");
    r.append("/riot/account/v1/accounts/by-riot-id/");
    r.append(player_name);
    r.append("/");
    r.append(tag);
    r
}

/// The address that lists a player's `game_count` most recent match ids.
pub fn match_ids_url(region: &str, puuid: &str, game_count: i64) -> (r: String)
    ensures
        r@ == api_base(region@) + "/lol/match/v5/matches/by-puuid/"@ + puuid@ + "/ids?count="@
            + int_text(game_count as int),
{
    let mut r = String::new();
    r.append("https://");
    r.append(region);
    r.append(".api.riotgames.com");
    r.append("/lol/match/v5/matches/by-puuid/");
    r.append(puuid);
    r.append("/ids?count=");
    push_int(&mut r, game_count);
    r
}

/// The address of one match's record.
pub fn match_url(region: &str, match_id: &str) -> (r: String)
    ensures
        r@ == api_base(region@) + "/lol/match/v5/matches/"@ + match_id@,
{
    let mut r = String::new();
    r.append("https://");
    r.append(region);
    r.append(".api.riotgames.com");
    r.append("/lol/match/v5/matches/");
    r.append(match_id);
    r
}

/// The addresses of the records of the given matches, in order.
pub fn match_urls(region: &str, match_ids: &Vec<String>) -> (r: Vec<String>)
    ensures
        r@.len() == match_ids@.len(),
        forall|i: int|
            0 <= i < r@.len() ==> #[trigger] r@[i]@ == api_base(region@) + "/lol/match/v5/matches/"@
                + match_ids@[i]@,
{
    let mut r: Vec<String> = Vec::new();
    let mut i: usize = 0;
    while i < match_ids.len()
        invariant
            i <= match_ids@.len(),
            r@.len() == i,
            forall|j: int|
                0 <= j < i ==> #[trigger] r@[j]@ == api_base(region@) + "/lol/match/v5/matches/"@
                    + match_ids@[j]@,
        decreases match_ids@.len() - i,
    {
        r.push(match_url(region, match_ids[i].as_str()));
        i = i + 1;
    }
    r
}

/// The two lookups whose failure ends a matches command.
#[derive(Clone, Copy, Debug, PartialEq, Eq, Structural)]
pub enum Lookup {
    /// Resolving a name and tag to an account.
    Account,
    /// Listing an account's recent matches.
    MatchList,
}

/// The message shown when a lookup fails.
pub open spec fn lookup_failure_message(lookup: Lookup) -> Seq<char> {
    match lookup {
        Lookup::Account => "Request to find account failed"@,
        Lookup::MatchList => "Unable to find matches from puuid"@,
    }
}

/// Decides a lookup by its HTTP status: only `200` succeeds; any other status
/// fails with an error that carries `status_text` and the query.
pub fn check_lookup_status(
    lookup: Lookup,
    status: u16,
    status_text: &str,
    player_name: &str,
    tag: &str,
    region: &str,
) -> (r: Result<(), OutputError>)
    ensures
        r is Ok <==> status == 200,
        r is Err ==> ({
            let e = r->Err_0;
            &&& e.status@ == status_text@
            &&& e.message@ == lookup_failure_message(lookup)
            &&& e.player_name@ == player_name@
            &&& e.tag@ == tag@
            &&& e.region@ == region@
        }),
{
    if status == 200 {
        return Ok(());
    }
    let message = match lookup {
        Lookup::Account => String::from_str("Request to find account failed"),
        Lookup::MatchList => String::from_str("Unable to find matches from puuid"),
    };
    Err(
        OutputError {
            status: String::from_str(status_text),
            message,
            player_name: String::from_str(player_name),
            tag: String::from_str(tag),
            region: String::from_str(region),
        },
    )
}

/// The description of a matches reply: `Winrate: P% (wins/total)`, where `P`
/// is the percentage as the caller wrote it.
pub open spec fn winrate_text(percent: Seq<char>, wins: nat, total: nat) -> Seq<char> {
    "Winrate: "@ + percent + "% ("@ + nat_text(wins) + "/"@ + nat_text(total) + ")"@
}

/// The reply of a matches command: one field per summarised match, the win
/// rate as description and `<name>'s Matches` as title.
pub fn get_matches_info(player_name: &str, summary: MatchesSummary, percent: &str) -> (r:
    DiscordOutput)
    ensures
        r.color == Accent::DarkGreen,
        r.description@ == winrate_text(percent@, summary.wins as nat, summary.total as nat),
        r.fields@ == summary.fields@,
        r.footer@.len() == 0,
        r.title@ == player_name@ + "'s Matches"@,
        r.content@.len() == 0,
{
    let mut description = String::new();
    description.append("Winrate: ");
    description.append(percent);
    description.append("% (");
    push_nat(&mut description, summary.wins as u64);
    description.append("/");
    push_nat(&mut description, summary.total as u64);
    description.append(")");
    let mut title = String::from_str(player_name);
    title.append("'s Matches");
    DiscordOutput::new(
        Accent::DarkGreen,
        description,
        summary.fields,
        String::new(),
        title,
        String::new(),
    )
}

proof fn lemma_filter_single<A>(s: Seq<A>, pred: spec_fn(A) -> bool, j: int)
    requires
        0 <= j < s.len(),
        pred(s[j]),
        forall|k: int| 0 <= k < s.len() && k != j ==> !pred(#[trigger] s[k]),
    ensures
        s.filter(pred) == seq![s[j]],
    decreases s.len(),
{
    reveal(Seq::filter);
    let init = s.drop_last();
    if j == s.len() - 1 {
        assert(init.all(|x: A| !pred(x))) by {
            assert forall|k: int| 0 <= k < init.len() implies !pred(#[trigger] init[k]) by {
                assert(init[k] == s[k]);
            }
        }
        init.lemma_all_neg_filter_empty(pred);
        assert(s.filter(pred) =~= seq![s[j]]);
    } else {
        assert forall|k: int| 0 <= k < init.len() && k != j implies !pred(#[trigger] init[k]) by {
            assert(init[k] == s[k]);
        }
        lemma_filter_single(init, pred, j);
    }
}

proof fn lemma_filter_two<A>(s: Seq<A>, pred: spec_fn(A) -> bool, j1: int, j2: int)
    requires
        0 <= j1 < j2 < s.len(),
        pred(s[j1]),
        pred(s[j2]),
    ensures
        s.filter(pred).len() >= 2,
    decreases s.len(),
{
    reveal(Seq::filter);
    let init = s.drop_last();
    if j2 == s.len() - 1 {
        Seq::lemma_filter_contains(init, pred, j1);
        assert(init.filter(pred).len() >= 1);
    } else {
        lemma_filter_two(init, pred, j1, j2);
    }
}

/// In a match where the queried player (at `me`) is the only one with their
/// id and the only one of their team in their position, and `opp` is the only
/// player of the other team in that position, the summary pairs the player
/// with `opp`.
pub proof fn lemma_unique_opponent_selected(m: MatchDto, puuid: Seq<char>, me: int, opp: int)
    requires
        0 <= me < m.info.participants@.len(),
        0 <= opp < m.info.participants@.len(),
        m.info.participants@[me].puuid@ == puuid,
        forall|k: int|
            0 <= k < m.info.participants@.len() && k != me ==> (#[trigger] m.info.participants@[k]).puuid@
                != puuid,
        forall|k: int|
            0 <= k < m.info.participants@.len() && k != me ==> !is_lane_mate(
                m.info.participants@[me],
            )(#[trigger] m.info.participants@[k]),
        is_opponent(m.info.participants@[me])(m.info.participants@[opp]),
        forall|k: int|
            0 <= k < m.info.participants@.len() && k != opp ==> !is_opponent(
                m.info.participants@[me],
            )(#[trigger] m.info.participants@[k]),
    ensures
        match_pair(m, puuid) == Ok::<(ParticipantDto, ParticipantDto), MatchInfoError>(
            (m.info.participants@[me], m.info.participants@[opp]),
        ),
{
    let ps = m.info.participants@;
    lemma_filter_single(ps, is_player(puuid), me);
    lemma_filter_single(ps, is_lane_mate(ps[me]), me);
    lemma_filter_single(ps, is_opponent(ps[me]), opp);
}

/// A match where two players of the other team share the queried player's
/// position is malformed: no summary is made of it.
pub proof fn lemma_duplicate_opponent_rejected(
    m: MatchDto,
    puuid: Seq<char>,
    me: int,
    a: int,
    b: int,
)
    requires
        0 <= me < m.info.participants@.len(),
        0 <= a < b < m.info.participants@.len(),
        m.info.participants@[me].puuid@ == puuid,
        forall|k: int|
            0 <= k < m.info.participants@.len() && k != me ==> (#[trigger] m.info.participants@[k]).puuid@
                != puuid,
        is_opponent(m.info.participants@[me])(m.info.participants@[a]),
        is_opponent(m.info.participants@[me])(m.info.participants@[b]),
    ensures
        match_pair(m, puuid) == Err::<(ParticipantDto, ParticipantDto), MatchInfoError>(
            MatchInfoError::AmbiguousParticipant,
        ),
{
    let ps = m.info.participants@;
    lemma_filter_single(ps, is_player(puuid), me);
    lemma_filter_two(ps, is_opponent(ps[me]), a, b);
}

/// A match where a teammate (at `other`) shares the queried player's
/// position is malformed: no summary is made of it.
pub proof fn lemma_duplicate_lane_mate_rejected(m: MatchDto, puuid: Seq<char>, me: int, other: int)
    requires
        0 <= me < m.info.participants@.len(),
        0 <= other < m.info.participants@.len(),
        me != other,
        m.info.participants@[me].puuid@ == puuid,
        forall|k: int|
            0 <= k < m.info.participants@.len() && k != me ==> (#[trigger] m.info.participants@[k]).puuid@
                != puuid,
        is_lane_mate(m.info.participants@[me])(m.info.participants@[other]),
    ensures
        match_pair(m, puuid) == Err::<(ParticipantDto, ParticipantDto), MatchInfoError>(
            MatchInfoError::AmbiguousParticipant,
        ),
{
    let ps = m.info.participants@;
    lemma_filter_single(ps, is_player(puuid), me);
    if me < other {
        lemma_filter_two(ps, is_lane_mate(ps[me]), me, other);
    } else {
        lemma_filter_two(ps, is_lane_mate(ps[me]), other, me);
    }
}

} // verus!
