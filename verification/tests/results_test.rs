use aiarena_client_gui_backend_lib::games::MatchConfig;
use aiarena_client_gui_backend_lib::results::{FileResultsData, GameResult, ResultsData};
use aiarena_client_gui_backend_lib::str_map::StrMap;
use std::collections::HashMap;

fn results_data_with(report1: &str, report2: &str) -> ResultsData {
    let mut results = StrMap::new();
    let mut bots = HashMap::new();
    results.insert("Bot1".to_string(), report1.to_string());
    results.insert("Bot2".to_string(), report2.to_string());
    bots.insert(1, "Bot1".to_string());
    bots.insert(2, "Bot2".to_string());

    ResultsData::new(
        results,
        60486,
        "Complete".to_string(),
        bots,
        "AutomatonLE".to_string(),
        "/empty/path".to_string(),
        1,
    )
}

fn results_data_setup() -> ResultsData {
    results_data_with("Victory", "Defeat")
}

#[test]
fn test_get_bot1() {
    let results_data = results_data_setup();
    assert_eq!(results_data.get_bot1(), "Bot1".to_string())
}

#[test]
fn test_get_bot2() {
    let results_data = results_data_setup();
    assert_eq!(results_data.get_bot2(), "Bot2".to_string())
}

#[test]
fn test_get_map() {
    let results_data = results_data_setup();
    assert_eq!(results_data.get_map(), "AutomatonLE".to_string())
}

#[test]
fn test_get_winner_result() {
    let results_data = results_data_setup();
    let winner_result = results_data.get_winner_result();
    assert_eq!(winner_result.0, "Bot1");
    assert_eq!(winner_result.1, "Player1Win");
}

#[test]
fn test_game_result_conversion() {
    let results_data = results_data_setup();
    let game_result: GameResult = GameResult::from(results_data.clone());
    assert_eq!(game_result.match_id, results_data.match_id);
    assert_eq!(game_result.map, results_data.get_map());
    assert_eq!(game_result.result, results_data.get_winner_result().1);
    assert_eq!(game_result.replay_path, results_data.replay_path);
    assert_eq!(game_result.game_time, results_data.game_time);
    assert_eq!(game_result.winner, results_data.get_winner_result().0);
    assert_eq!(game_result.bot1, results_data.get_bot1());
    assert_eq!(game_result.bot2, results_data.get_bot2());
}

#[test]
fn outcome_of_each_first_player_report() {
    let cases = [
        ("Crash", "Bot2", "Player1Crash"),
        ("Timeout", "Bot2", "Player1TimeOut"),
        ("Victory", "Bot1", "Player1Win"),
        ("Defeat", "Bot2", "Player2Win"),
        ("Tie", "Tie", "Tie"),
        ("InitializationError", "", "InitializationError"),
    ];
    for (report, winner, result) in cases.iter() {
        let (w, r) = results_data_with(report, "whatever").get_winner_result();
        assert_eq!(w, *winner);
        assert_eq!(r, *result);
    }
}

#[test]
fn outcome_falls_back_to_second_player_report() {
    let cases = [
        ("Crash", "Bot1", "Player2Crash"),
        ("Timeout", "Bot1", "Player2TimeOut"),
        ("Victory", "Bot2", "Player2Win"),
        ("Defeat", "Bot1", "Player1Win"),
        ("Tie", "Tie", "Tie"),
        ("InitializationError", "", "InitializationError"),
        ("Unknown", "", "Error"),
    ];
    for (report, winner, result) in cases.iter() {
        let (w, r) = results_data_with("Unknown", report).get_winner_result();
        assert_eq!(w, *winner);
        assert_eq!(r, *result);
    }
}

#[test]
fn server_crash_is_an_error() {
    let (w, r) = results_data_with("Victory", "SC2Crash").get_winner_result();
    assert_eq!(w, "");
    assert_eq!(r, "Error");
}

fn config() -> MatchConfig {
    MatchConfig {
        map: "AutomatonLE".to_string(),
        disable_debug: true,
        match_id: 7,
        player1: "Alpha".to_string(),
        player2: "Beta".to_string(),
        real_time: false,
        visualize: false,
        max_game_time: 60480,
    }
}

#[test]
fn init_error_report_is_an_initialization_error() {
    let data = ResultsData::init_error(&config());
    assert_eq!(data.get_bot1(), "Alpha");
    assert_eq!(data.get_bot2(), "Beta");
    assert_eq!(data.status, "Completed");
    assert_eq!(data.game_time, 0);
    assert_eq!(data.match_id, 7);
    assert_eq!(data.replay_path, "");
    assert_eq!(data.results.get("Alpha").unwrap(), "InitializationError");
    assert_eq!(data.results.get("Beta").unwrap(), "InitializationError");
    assert_eq!(data.bots.len(), 2);
    assert_eq!(data.results.len(), 2);
    let record = GameResult::from(data);
    assert_eq!(record.winner, "");
    assert_eq!(record.result, "InitializationError");
    assert_eq!(record.map, "AutomatonLE");
    assert_eq!(record.game_time_formatted, "");
    assert_eq!(record.time_stamp, "");
}

fn record(match_id: i64) -> GameResult {
    GameResult {
        match_id,
        ..Default::default()
    }
}

#[test]
fn max_match_id_of_no_results_is_zero() {
    assert_eq!(FileResultsData::default().max_match_id(), 0);
}

#[test]
fn max_match_id_after_adding_results() {
    let mut file = FileResultsData::default();
    file.add_result(record(-3));
    assert_eq!(file.max_match_id(), -3);
    file.add_result(record(5));
    assert_eq!(file.max_match_id(), 5);
    file.add_result(record(2));
    assert_eq!(file.max_match_id(), 5);
    assert_eq!(file.results.len(), 3);
    assert_eq!(file.results[2].match_id, 2);
}

#[test]
fn outcome_needs_the_deciding_reports() {
    let mut bots = HashMap::new();
    bots.insert(1u8, "Alpha".to_string());
    bots.insert(2u8, "Beta".to_string());
    let mut results = StrMap::new();
    results.insert("Alpha".to_string(), "Unknown".to_string());
    let data = ResultsData::new(results, 10, String::new(), bots.clone(), String::new(), String::new(), 1);
    assert!(!data.has_outcome());
    let mut results = StrMap::new();
    results.insert("Alpha".to_string(), "Defeat".to_string());
    let data = ResultsData::new(results, 10, String::new(), bots.clone(), String::new(), String::new(), 1);
    assert!(data.has_outcome());
    assert_eq!(data.get_winner_result(), ("Beta".to_string(), "Player2Win".to_string()));
    let mut results = StrMap::new();
    results.insert("Beta".to_string(), "SC2Crash".to_string());
    let data = ResultsData::new(results, 10, String::new(), bots, String::new(), String::new(), 1);
    assert!(data.has_outcome());
    assert_eq!(data.get_winner_result(), (String::new(), "Error".to_string()));
}
