use aiarena_client_gui_backend_lib::games::{
    after_first_bot_reply, after_second_bot_reply, bots_to_download, first_match,
    is_results_message, match_config, next_match, resolve_map, starts_map, FirstBotStep,
    MatchConfig, MatchCursor, RunGameData, SecondBotStep, CLIENT_PORT,
};
use aiarena_client_gui_backend_lib::settings::SettingsFormData;

fn strings(v: &[&str]) -> Vec<String> {
    v.iter().map(|s| s.to_string()).collect()
}

#[test]
fn bots_to_download_dedups_neighbours_and_keeps_arena_bots() {
    let run = RunGameData {
        bot1: strings(&["A (AI-Arena)", "A (AI-Arena)", "Local"]),
        bot2: strings(&["Local", "B (AI-Arena)", "A (AI-Arena)"]),
        ..Default::default()
    };
    assert_eq!(
        bots_to_download(&run),
        strings(&["A (AI-Arena)", "B (AI-Arena)", "A (AI-Arena)"])
    );
    assert!(bots_to_download(&RunGameData::default()).is_empty());
}

#[test]
fn schedule_visits_every_match_once_in_order() {
    let run = RunGameData {
        bot1: strings(&["a", "b"]),
        bot2: strings(&["x", "y", "z"]),
        map: strings(&["m1", "m2"]),
        iterations: 2,
        ..Default::default()
    };
    let mut seen = Vec::new();
    let mut c = first_match(&run);
    while let Some(cur) = c {
        seen.push((cur.iteration, cur.map, cur.bot1, cur.bot2));
        c = next_match(&run, cur);
    }
    let mut expected = Vec::new();
    for i in 0..2u64 {
        for m in 0..2usize {
            for b1 in 0..2usize {
                for b2 in 0..3usize {
                    expected.push((i, m, b1, b2));
                }
            }
        }
    }
    assert_eq!(seen, expected);
    assert_eq!(seen.len(), 24);
}

#[test]
fn empty_request_schedules_nothing() {
    let run = RunGameData {
        bot1: strings(&["a"]),
        bot2: strings(&[]),
        map: strings(&["m1"]),
        iterations: 3,
        ..Default::default()
    };
    assert!(first_match(&run).is_none());
}

#[test]
fn map_choice_points() {
    assert!(starts_map(MatchCursor { iteration: 1, map: 1, bot1: 0, bot2: 0 }));
    assert!(!starts_map(MatchCursor { iteration: 1, map: 1, bot1: 0, bot2: 1 }));
}

#[test]
fn map_resolution() {
    let maps = strings(&["A", "B"]);
    assert_eq!(resolve_map(&"Fixed".to_string(), &maps), "Fixed");
    for _ in 0..20 {
        let m = resolve_map(&"Random".to_string(), &maps);
        assert!(m == "A" || m == "B");
    }
    assert_eq!(resolve_map(&"Random".to_string(), &strings(&["Only"])), "Only");
}

#[test]
fn config_from_settings_and_request() {
    let settings = SettingsFormData {
        allow_debug: true,
        max_game_time: (1u64 << 32) + 5,
        ..Default::default()
    };
    let run = RunGameData { realtime: true, visualize: false, ..Default::default() };
    let c = match_config(&settings, &run, "M".to_string(), "p1".to_string(), "p2".to_string(), 4);
    assert_eq!(c.map, "M");
    assert!(!c.disable_debug);
    assert_eq!(c.match_id, 4);
    assert_eq!(c.player1, "p1");
    assert_eq!(c.player2, "p2");
    assert!(c.real_time);
    assert!(!c.visualize);
    assert_eq!(c.max_game_time, 5);
    assert_eq!(CLIENT_PORT, 8642);
}

fn config() -> MatchConfig {
    MatchConfig {
        map: "M".to_string(),
        disable_debug: false,
        match_id: 3,
        player1: "p1".to_string(),
        player2: "p2".to_string(),
        real_time: false,
        visualize: true,
        max_game_time: 10,
    }
}

#[test]
fn protocol_decisions() {
    assert!(matches!(after_first_bot_reply(Some(true), &config()), FirstBotStep::StartSecondBot));
    assert!(matches!(after_first_bot_reply(Some(false), &config()), FirstBotStep::AwaitResults));
    match after_first_bot_reply(None, &config()) {
        FirstBotStep::Record(d) => {
            assert_eq!(d.match_id, 3);
            assert_eq!(d.get_winner_result(), ("".to_string(), "InitializationError".to_string()));
        }
        _ => panic!("a missing reply is recorded"),
    }
    assert!(matches!(after_second_bot_reply(Some(false), &config()), SecondBotStep::AwaitResults));
    match after_second_bot_reply(None, &config()) {
        SecondBotStep::ResetAndRecord(d) => assert_eq!(d.get_bot2(), "p2"),
        _ => panic!("a missing reply is recorded"),
    }
    assert!(is_results_message("{\"MatchID\": 1}"));
    assert!(!is_results_message("{\"Bot\": \"Connected\"}"));
}
