use lol_bot::riot::{get_matches_info, summarize_matches, InfoDto, MatchDto, MetadataDto, ParticipantDto};
use serde_json::Value;

fn participant(v: &Value) -> Option<ParticipantDto> {
    Some(ParticipantDto {
        assists: v["assists"].as_i64()? as i32,
        champion_name: v["championName"].as_str()?.to_string(),
        deaths: v["deaths"].as_i64()? as i32,
        kills: v["kills"].as_i64()? as i32,
        participant_id: v["participantId"].as_i64()? as i32,
        puuid: v["puuid"].as_str()?.to_string(),
        summoner_id: v["summonerId"].as_str()?.to_string(),
        summoner_name: v["summonerName"].as_str()?.to_string(),
        team_position: v["teamPosition"].as_str()?.to_string(),
        win: v["win"].as_bool()?,
        riot_id_game_name: v["riotIdGameName"].as_str()?.to_string(),
        team_id: v["teamId"].as_u64()? as u32,
    })
}

fn parse_match(text: &str) -> Option<MatchDto> {
    let v: Value = serde_json::from_str(text).ok()?;
    let participants = v["info"]["participants"].as_array()?.iter().map(participant).collect::<Option<Vec<_>>>()?;
    Some(MatchDto {
        info: InfoDto { participants, game_mode: v["info"]["gameMode"].as_str()?.to_string() },
        metadata: MetadataDto {
            data_version: v["metadata"]["dataVersion"].as_str()?.to_string(),
            match_id: v["metadata"]["matchId"].as_str()?.to_string(),
        },
    })
}

fn player_json(puuid: &str, name: &str, team: u32, pos: &str, champ: &str, win: bool) -> String {
    format!(
        "{{\"assists\":3,\"championName\":\"{}\",\"deaths\":2,\"kills\":4,\"participantId\":1,\"puuid\":\"{}\",\"summonerId\":\"s\",\"summonerName\":\"{}\",\"teamPosition\":\"{}\",\"win\":{},\"riotIdGameName\":\"{}\",\"teamId\":{}}}",
        champ, puuid, name, pos, win, name, team
    )
}

fn match_json(id: &str, me: &str, me_wins: bool) -> String {
    let players = [
        player_json(me, "Foo", 100, "TOP", "Garen", me_wins),
        player_json("p2", "Rival", 200, "TOP", "Darius", !me_wins),
        player_json("p3", "Jg", 100, "JUNGLE", "Vi", me_wins),
        player_json("p4", "Jg2", 200, "JUNGLE", "Lee", !me_wins),
    ];
    format!(
        "{{\"metadata\":{{\"dataVersion\":\"2\",\"matchId\":\"{}\"}},\"info\":{{\"gameMode\":\"CLASSIC\",\"participants\":[{}]}}}}",
        id,
        players.join(",")
    )
}

#[test]
fn canned_records_give_consistent_counts() {
    let bodies = vec![
        match_json("NA1_1", "foo", true),
        match_json("NA1_2", "someone-else", true),
        "{\"not\": \"a match\"}".to_string(),
        match_json("NA1_3", "foo", false),
        match_json("NA1_4", "foo", true),
    ];
    let matches: Vec<MatchDto> = bodies.iter().filter_map(|b| parse_match(b)).collect();
    assert_eq!(matches.len(), 4);
    let summary = summarize_matches(&matches, &"foo".to_string());
    assert_eq!(summary.total, 3);
    assert_eq!(summary.wins, 2);
    let losses = summary.fields.iter().filter(|f| f.0.ends_with("(LOST)")).count();
    assert_eq!(summary.wins + losses, summary.total);
    assert_eq!(summary.fields[0].1, "```(4/2/3)\nGaren\nvs.\n(4/2/3)\nDarius\n(Rival)```");
    let out = get_matches_info("Foo", summary, "66.66667");
    assert_eq!(out.description, "Winrate: 66.66667% (2/3)");
}
