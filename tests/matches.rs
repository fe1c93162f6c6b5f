use lol_bot::output::Accent;
use lol_bot::riot::{
    account_url, check_lookup_status, get_match_info, get_matches_info, match_ids_url, match_url,
    match_urls, summarize_matches, InfoDto, Lookup, MatchDto, MatchInfoError, MetadataDto,
    OutputError, ParticipantDto,
};

fn player(puuid: &str, name: &str, team: u32, pos: &str, champ: &str, kda: (i32, i32, i32), win: bool) -> ParticipantDto {
    ParticipantDto {
        assists: kda.2,
        champion_name: champ.to_string(),
        deaths: kda.1,
        kills: kda.0,
        participant_id: 1,
        puuid: puuid.to_string(),
        summoner_id: format!("s-{}", puuid),
        summoner_name: name.to_string(),
        team_position: pos.to_string(),
        win,
        riot_id_game_name: name.to_string(),
        team_id: team,
    }
}

fn game(participants: Vec<ParticipantDto>) -> MatchDto {
    MatchDto {
        info: InfoDto { participants, game_mode: "CLASSIC".to_string() },
        metadata: MetadataDto { data_version: "2".to_string(), match_id: "NA1_1".to_string() },
    }
}

fn full_game(me_win: bool) -> MatchDto {
    let positions = ["TOP", "JUNGLE", "MIDDLE", "BOTTOM", "UTILITY"];
    let mut ps = Vec::new();
    for (i, pos) in positions.iter().enumerate() {
        let me = i == 0;
        let puuid = if me { "foo-id".to_string() } else { format!("blue-{}", i) };
        ps.push(player(&puuid, if me { "Foo" } else { "Ally" }, 100, &pos.to_lowercase(), "Aatrox", (5, 2, 7), me_win));
        ps.push(player(&format!("red-{}", i), "Rival", 200, &pos.to_lowercase(), "Camille", (3, 4, 1), !me_win));
    }
    game(ps)
}

#[test]
fn match_info_names_lane_and_opponent() {
    let m = full_game(true);
    let ((heading, body, inline), win) = get_match_info(&m, 1, &"foo-id".to_string()).unwrap();
    assert_eq!(heading, "1: TOP (WON)");
    assert_eq!(body, "```(5/2/7)\nAatrox\nvs.\n(3/4/1)\nCamille\n(Rival)```");
    assert!(inline);
    assert!(win);
}

#[test]
fn match_info_reports_a_loss() {
    let m = full_game(false);
    let ((heading, _, _), win) = get_match_info(&m, 7, &"foo-id".to_string()).unwrap();
    assert_eq!(heading, "7: TOP (LOST)");
    assert!(!win);
}

#[test]
fn match_info_writes_negative_numbers() {
    let m = game(vec![
        player("me", "Me", 100, "MIDDLE", "Ahri", (-1, 0, 12), true),
        player("them", "Them", 200, "MIDDLE", "Zed", (10, 1, 0), false),
    ]);
    let ((_, body, _), _) = get_match_info(&m, 2, &"me".to_string()).unwrap();
    assert_eq!(body, "```(-1/0/12)\nAhri\nvs.\n(10/1/0)\nZed\n(Them)```");
}

#[test]
fn match_info_without_participants() {
    let m = game(vec![]);
    assert!(matches!(get_match_info(&m, 1, &"x".to_string()), Err(MatchInfoError::NoParticipants)));
}

#[test]
fn match_info_without_the_player() {
    let m = full_game(true);
    assert!(matches!(get_match_info(&m, 1, &"nobody".to_string()), Err(MatchInfoError::ParticipantNotFound)));
}

#[test]
fn match_info_without_an_opponent() {
    let m = game(vec![
        player("me", "Me", 100, "TOP", "Garen", (1, 1, 1), true),
        player("ally", "Ally", 100, "MIDDLE", "Ahri", (1, 1, 1), true),
        player("them", "Them", 200, "JUNGLE", "Lee", (1, 1, 1), false),
    ]);
    assert!(matches!(get_match_info(&m, 1, &"me".to_string()), Err(MatchInfoError::ParticipantNotFound)));
}

#[test]
fn match_info_rejects_a_teammate_in_the_same_position() {
    let m = game(vec![
        player("me", "Me", 100, "TOP", "Garen", (1, 1, 1), true),
        player("ally", "Ally", 100, "TOP", "Darius", (1, 1, 1), true),
        player("them", "Them", 200, "TOP", "Teemo", (1, 1, 1), false),
    ]);
    assert!(matches!(get_match_info(&m, 1, &"me".to_string()), Err(MatchInfoError::AmbiguousParticipant)));
}

#[test]
fn match_info_error_texts() {
    let m = game(vec![]);
    let e = get_match_info(&m, 1, &"x".to_string()).unwrap_err();
    assert_eq!(e.to_text(), "No participants found");
    assert_eq!(MatchInfoError::ParticipantNotFound.to_text(), "Participant not found");
    assert_eq!(MatchInfoError::AmbiguousParticipant.to_text(), "More than one participant fits");
}

#[test]
fn match_info_selects_the_unique_opponent() {
    let m = game(vec![
        player("ally", "Ally", 100, "JUNGLE", "Vi", (0, 0, 0), true),
        player("x", "Other", 200, "JUNGLE", "Lee", (0, 0, 0), false),
        player("me", "Me", 100, "TOP", "Garen", (1, 2, 3), true),
        player("y", "TopLaner", 200, "TOP", "Teemo", (4, 5, 6), false),
    ]);
    let ((_, body, _), _) = get_match_info(&m, 3, &"me".to_string()).unwrap();
    assert_eq!(body, "```(1/2/3)\nGaren\nvs.\n(4/5/6)\nTeemo\n(TopLaner)```");
}

#[test]
fn match_info_rejects_two_opponents_in_one_position() {
    let m = game(vec![
        player("me", "Me", 100, "TOP", "Garen", (1, 1, 1), true),
        player("a", "A", 200, "TOP", "Teemo", (1, 1, 1), false),
        player("b", "B", 200, "TOP", "Nasus", (1, 1, 1), false),
    ]);
    assert!(matches!(get_match_info(&m, 1, &"me".to_string()), Err(MatchInfoError::AmbiguousParticipant)));
}

#[test]
fn match_info_rejects_a_repeated_player_id() {
    let m = game(vec![
        player("me", "Me", 100, "TOP", "Garen", (1, 1, 1), true),
        player("me", "Me", 100, "MIDDLE", "Ahri", (1, 1, 1), true),
        player("a", "A", 200, "TOP", "Teemo", (1, 1, 1), false),
    ]);
    assert!(matches!(get_match_info(&m, 1, &"me".to_string()), Err(MatchInfoError::AmbiguousParticipant)));
}

#[test]
fn summary_drops_matches_without_the_player_and_counts_the_rest() {
    let mut stranger = full_game(true);
    for p in stranger.info.participants.iter_mut() {
        if p.puuid == "foo-id" {
            p.puuid = "someone-else".to_string();
        }
    }
    let ms = vec![full_game(true), stranger, full_game(false), full_game(true)];
    let s = summarize_matches(&ms, &"foo-id".to_string());
    assert_eq!(s.total, 3);
    assert_eq!(s.wins, 2);
    assert_eq!(s.fields.len(), 3);
    assert_eq!(s.fields[0].0, "1: TOP (WON)");
    assert_eq!(s.fields[1].0, "2: TOP (LOST)");
    assert_eq!(s.fields[2].0, "3: TOP (WON)");
    let losses = s.fields.iter().filter(|f| f.0.ends_with("(LOST)")).count();
    assert_eq!(s.wins + losses, s.total);
}

#[test]
fn summary_of_no_matches() {
    let s = summarize_matches(&vec![], &"foo-id".to_string());
    assert_eq!(s.total, 0);
    assert_eq!(s.wins, 0);
    assert!(s.fields.is_empty());
}

#[test]
fn two_won_matches_give_full_winrate() {
    let ms = vec![full_game(true), full_game(true)];
    let s = summarize_matches(&ms, &"foo-id".to_string());
    let out = get_matches_info("Foo", s, "100");
    assert_eq!(out.description, "Winrate: 100% (2/2)");
    assert_eq!(out.title, "Foo's Matches");
    assert_eq!(out.color, Accent::DarkGreen);
    assert_eq!(out.fields.len(), 2);
    assert_eq!(out.footer, "");
    assert_eq!(out.content, "");
}

#[test]
fn urls_of_the_match_history_api() {
    assert_eq!(
        account_url("americas", "Foo", "NA1"),
        "https://americas.api.riotgames.com/riot/account/v1/accounts/by-riot-id/Foo/NA1"
    );
    assert_eq!(
        match_ids_url("americas", "abc", 2),
        "https://americas.api.riotgames.com/lol/match/v5/matches/by-puuid/abc/ids?count=2"
    );
    assert_eq!(
        match_ids_url("europe", "abc", 40),
        "https://europe.api.riotgames.com/lol/match/v5/matches/by-puuid/abc/ids?count=40"
    );
    assert_eq!(
        match_url("asia", "KR_1"),
        "https://asia.api.riotgames.com/lol/match/v5/matches/KR_1"
    );
    let urls = match_urls("americas", &vec!["NA1_1".to_string(), "NA1_2".to_string()]);
    assert_eq!(urls, vec![
        "https://americas.api.riotgames.com/lol/match/v5/matches/NA1_1".to_string(),
        "https://americas.api.riotgames.com/lol/match/v5/matches/NA1_2".to_string(),
    ]);
}

#[test]
fn lookup_status_decides_success() {
    assert!(check_lookup_status(Lookup::Account, 200, "200 OK", "Foo", "NA1", "americas").is_ok());
    let e = check_lookup_status(Lookup::Account, 404, "404 Not Found", "Foo", "NA1", "americas").unwrap_err();
    assert_eq!(e.message, "Request to find account failed");
    assert_eq!(e.to_text(), "Request to find account failed \n (404 Not Found) Foo#NA1: (americas)");
    let e = check_lookup_status(Lookup::MatchList, 204, "204", "Foo", "NA1", "americas").unwrap_err();
    assert_eq!(e.message, "Unable to find matches from puuid");
    assert_eq!(e.status, "204");
}

#[test]
fn output_error_text() {
    let e = OutputError {
        status: "403".to_string(),
        message: "Forbidden".to_string(),
        player_name: "Bar".to_string(),
        tag: "EUW".to_string(),
        region: "europe".to_string(),
    };
    assert_eq!(e.to_text(), "Forbidden \n (403) Bar#EUW: (europe)");
}
