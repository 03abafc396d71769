use risk_auth::player::{
    loaded_or, me, mercs, mercs_team, player, player_multifetch, players, roster, rows_or,
    split_at_commas, RosterQuery,
};
use risk_auth::team::{team_territories_visited_by_season, teamplayersbymoves, teams};
use risk_auth::territory::{
    territories, territories_loaded, territory_turn, territoryhistory, Latest,
};

#[test]
fn rosters() {
    assert_eq!(players(None), Ok(RosterQuery::All));
    assert_eq!(
        players(Some("Texas%20A%26M".to_string())),
        Ok(RosterQuery::Team("Texas A&M".to_string()))
    );
    assert_eq!(players(Some("a+b".to_string())), Ok(RosterQuery::Team("a+b".to_string())));
    assert_eq!(players(Some("%ff".to_string())), Err(404));
    assert_eq!(roster(Some(None)), Err(404));
    assert_eq!(roster(Some(Some("x".to_string()))), Ok(RosterQuery::Team("x".to_string())));
    assert_eq!(mercs("Ohio%20State".to_string()), Ok("Ohio State".to_string()));
    assert_eq!(mercs("100%".to_string()), Ok("100%".to_string()));
    assert_eq!(mercs("%c3".to_string()), Err(409));
    assert_eq!(mercs_team(None), Err(409));
}

#[test]
fn player_batches() {
    assert_eq!(
        player_multifetch(Some("a,b,c".to_string())),
        Ok(vec!["a".to_string(), "b".to_string(), "c".to_string()])
    );
    assert_eq!(player_multifetch(None), Err(404));
    assert_eq!(split_at_commas(""), vec!["".to_string()]);
    assert_eq!(split_at_commas(","), vec!["".to_string(), "".to_string()]);
    assert_eq!(split_at_commas("é,,b "), vec!["é".to_string(), "".to_string(), "b ".to_string()]);
    let text = "x,yy,,z,";
    let expected: Vec<String> = text.split(',').map(|s| s.to_string()).collect();
    assert_eq!(split_at_commas(text), expected);
}

#[test]
fn my_own_player() {
    assert_eq!(me("carol", Some("Carol")), Ok(()));
    assert_eq!(me("carol", Some("bob")), Err(404));
    assert_eq!(me("carol", None), Err(404));
    assert_eq!(player(Some(3)), Ok(3));
    assert_eq!(player::<i32>(None), Err(404));
}

#[test]
fn loads_and_their_statuses() {
    assert_eq!(loaded_or(Some("x"), 404), Ok("x"));
    assert_eq!(loaded_or::<u8>(None, 410), Err(410));
    assert_eq!(rows_or(vec![1], 404), Ok(vec![1]));
    assert_eq!(rows_or::<u8>(vec![], 404), Err(404));
    assert_eq!(teams(vec!["a", "b"]), Ok(vec!["a", "b"]));
    assert_eq!(teams::<u8>(vec![]), Err(404));
    assert_eq!(teamplayersbymoves::<u8>(Some(vec![])), Ok(vec![]));
    assert_eq!(teamplayersbymoves::<u8>(None), Err(404));
    assert_eq!(team_territories_visited_by_season(Some(vec![1])), Ok(vec![1]));
    assert_eq!(team_territories_visited_by_season::<u8>(None), Err(404));
    assert_eq!(territoryhistory(vec![1, 2]), Ok(vec![1, 2]));
    assert_eq!(territoryhistory::<u8>(vec![]), Err(400));
    assert_eq!(territories_loaded(vec![1]), Ok(vec![1]));
    assert_eq!(territories_loaded::<u8>(vec![]), Err(400));
    assert_eq!(territory_turn(Some(7)), Ok(7));
    assert_eq!(territory_turn::<u8>(None), Err(400));
}

#[test]
fn the_day_to_load() {
    let latest = Latest { season: 3, day: 14 };
    assert_eq!(territories(None, None, Some(latest)), Ok(latest));
    assert_eq!(territories(Some(2), None, Some(latest)), Ok(Latest { season: 2, day: 14 }));
    assert_eq!(territories(None, Some(1), Some(latest)), Ok(Latest { season: 3, day: 1 }));
    assert_eq!(territories(Some(2), Some(1), Some(latest)), Ok(Latest { season: 2, day: 1 }));
    assert_eq!(territories(Some(2), Some(1), None), Err(400));
}
