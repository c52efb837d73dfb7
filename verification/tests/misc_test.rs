use aiarena_client_gui_backend_lib::errors::MyError;
use aiarena_client_gui_backend_lib::gui::log_file_name;
use aiarena_client_gui_backend_lib::helpers::get_non_empty_string;
use aiarena_client_gui_backend_lib::paths::{
    bot_names, file_name_in, file_name_of, map_name_in, map_names, map_names_in,
    maps_base_directory, normalize_map_name, BotFolder, MapFile,
};
use aiarena_client_gui_backend_lib::settings::{
    default_max_game_time, fill_sc2_directory, settings_okay, SettingsFormData,
};
use aiarena_client_gui_backend_lib::todo::{apply_cmd, inline_script, inline_style, Cmd, Task};

#[test]
fn settings_checks() {
    assert_eq!(default_max_game_time(), 60480);
    assert!(!settings_okay(None));
    let mut s = SettingsFormData {
        bot_directory_location: "b".to_string(),
        sc2_directory_location: "s".to_string(),
        replay_directory_location: "r".to_string(),
        ..Default::default()
    };
    assert!(settings_okay(Some(&s)));
    s.replay_directory_location.clear();
    assert!(!settings_okay(Some(&s)));
}

#[test]
fn sc2_directory_fallbacks() {
    let mut s = SettingsFormData::default();
    assert!(fill_sc2_directory(&mut s, Some("proxy".to_string()), Some("path".to_string())));
    assert_eq!(s.sc2_directory_location, "proxy");
    assert!(!fill_sc2_directory(&mut s, None, Some("path".to_string())));
    assert_eq!(s.sc2_directory_location, "proxy");
    let mut s = SettingsFormData::default();
    assert!(fill_sc2_directory(&mut s, None, Some("path".to_string())));
    assert_eq!(s.sc2_directory_location, "path");
    let mut s = SettingsFormData::default();
    assert!(fill_sc2_directory(&mut s, None, None));
    assert_eq!(s.sc2_directory_location, "");
}

#[test]
fn non_empty_strings() {
    assert_eq!(get_non_empty_string("x".to_string()).unwrap(), "x");
    assert_eq!(get_non_empty_string(String::new()).unwrap_err().message, " string is empty");
    assert_eq!(MyError::new("m".to_string()).message, "m");
    assert_eq!(MyError::from_text("t").message, "t");
}

#[test]
fn map_and_bot_listings() {
    assert_eq!(normalize_map_name("AutomatonLE.SC2Map"), "AutomatonLE");
    let files = vec![
        MapFile { path: "A.SC2Map".to_string(), extension: "SC2Map".to_string() },
        MapFile { path: "notes.txt".to_string(), extension: "txt".to_string() },
        MapFile { path: "Ladder/B.SC2Map".to_string(), extension: "SC2Map".to_string() },
    ];
    assert_eq!(map_names(&files), vec!["A".to_string(), "B".to_string()]);
    let folders = vec![
        BotFolder { name: "One".to_string(), files: vec!["run.py".to_string(), "ladderbots.json".to_string()] },
        BotFolder { name: "Two".to_string(), files: vec!["run.py".to_string()] },
    ];
    assert_eq!(bot_names(&folders), vec!["One".to_string()]);
    assert_eq!(maps_base_directory(None), None);
    let mut s = SettingsFormData::default();
    assert_eq!(maps_base_directory(Some(&s)), None);
    s.sc2_directory_location = "C:/SC2".to_string();
    assert_eq!(maps_base_directory(Some(&s)), Some("C:/SC2".to_string()));
}

#[test]
fn task_commands() {
    let mut tasks: Vec<Task> = Vec::new();
    assert_eq!(apply_cmd(&mut tasks, Cmd::Init), None);
    assert_eq!(apply_cmd(&mut tasks, Cmd::Log { text: "hi".to_string() }), Some("hi".to_string()));
    apply_cmd(&mut tasks, Cmd::AddTask { name: "a".to_string() });
    apply_cmd(&mut tasks, Cmd::AddTask { name: "b".to_string() });
    apply_cmd(&mut tasks, Cmd::AddTask { name: "c".to_string() });
    apply_cmd(&mut tasks, Cmd::MarkTask { index: 1, done: true });
    assert!(tasks[1].done);
    apply_cmd(&mut tasks, Cmd::ClearDoneTasks);
    let names: Vec<&str> = tasks.iter().map(|t| t.name.as_str()).collect();
    assert_eq!(names, vec!["a", "c"]);
    assert!(tasks.iter().all(|t| !t.done));
}

#[test]
fn page_snippets() {
    assert_eq!(inline_style("x{}"), "<style type=\"text/css\">x{}</style>");
    assert_eq!(inline_script("f()"), "<script type=\"text/javascript\">f()</script>");
}

#[test]
fn log_file_names() {
    assert_eq!(
        log_file_name("2021-03-04 05:06:07.123 UTC"),
        "aiarena-client-gui2021_03_04_050607123_UTC.log"
    );
}

#[test]
fn map_name_is_the_last_path_component() {
    assert_eq!(normalize_map_name("Ladder2019Season3/AutomatonLE.SC2Map"), "AutomatonLE");
    assert_eq!(normalize_map_name("Maps/Ladder/Acropolis.SC2Map/"), "Acropolis");
}

#[test]
fn final_path_components() {
    assert_eq!(file_name_of("a/b"), Some("b".to_string()));
    assert_eq!(file_name_of("a//b/"), Some("b".to_string()));
    assert_eq!(file_name_of("a/b/."), Some("b".to_string()));
    assert_eq!(file_name_of("./x"), Some("x".to_string()));
    assert_eq!(file_name_of("a/.."), None);
    assert_eq!(file_name_of("/"), None);
    assert_eq!(file_name_of("."), None);
    assert_eq!(file_name_of(""), None);
    for p in ["a/b", "a//b/", "a/b/.", "./x", "a/..", "/", ".", "", "x.SC2Map", "/tmp/y.txt"] {
        let expected = std::path::Path::new(p).file_name().map(|f| f.to_str().unwrap().to_string());
        assert_eq!(file_name_of(p), expected);
    }
}

#[test]
fn backslash_separates_where_the_machine_says_so() {
    assert_eq!(map_name_in("Ladder2019Season3\\AutomatonLE.SC2Map", true), "AutomatonLE");
    assert_eq!(
        map_name_in("Ladder2019Season3\\AutomatonLE.SC2Map", false),
        "Ladder2019Season3\\AutomatonLE"
    );
    assert_eq!(map_name_in("Ladder2019Season3/AutomatonLE.SC2Map", false), "AutomatonLE");
    assert_eq!(file_name_in("a\\b\\", true), Some("b".to_string()));
    assert_eq!(file_name_in("a\\..", true), None);
    assert_eq!(file_name_in("a\\..", false), Some("a\\..".to_string()));
    let files = vec![
        MapFile { path: "Ladder\\A.SC2Map".to_string(), extension: "SC2Map".to_string() },
        MapFile { path: "B.txt".to_string(), extension: "txt".to_string() },
    ];
    assert_eq!(map_names_in(&files, true), vec!["A".to_string()]);
    assert_eq!(map_names_in(&files, false), vec!["Ladder\\A".to_string()]);
    let native = std::path::Path::new("Ladder\\A.SC2Map").file_name().unwrap().to_str().unwrap().replace(".SC2Map", "");
    assert_eq!(normalize_map_name("Ladder\\A.SC2Map"), native);
}
