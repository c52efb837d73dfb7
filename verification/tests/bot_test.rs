use aiarena_client_gui_backend_lib::api::{AiarenaApiBot, AiarenaApiBots};
use aiarena_client_gui_backend_lib::bot::{
    bot_from_ladderbots, bot_json_for, launch_plan, BotConnection, BotDownloadStatus, BotJson,
    BotNumber,
    LadderBotsJson, StartCommand, ToDownload,
};
use aiarena_client_gui_backend_lib::download::{
    authorization_header, bot_details_url, bot_folder_present, bots_listing_url, bots_to_fetch,
    extract_directory_name, first_api_bot, normalize_bot_name, record_zip_hash, zip_file_name,
    zip_hash_outdated, zip_step, ZipStep,
};
use aiarena_client_gui_backend_lib::hashes::{BotHash, MD5HashesFile};
use aiarena_client_gui_backend_lib::str_map::StrMap;

fn ladder_bots() -> LadderBotsJson {
    let mut bots = StrMap::new();
    bots.insert(
        "ExampleBot".to_string(),
        BotJson {
            name: String::new(),
            race: "Protoss".to_string(),
            bot_type: "Python".to_string(),
            root_path: "./".to_string(),
            file_name: "run.py".to_string(),
            debug: true,
        },
    );
    LadderBotsJson { bots }
}

#[test]
fn ladder_bots_test_read_ladderbots() {
    let bot = bot_from_ladderbots(ladder_bots()).unwrap();
    assert!(!bot.name.is_empty())
}

#[test]
fn bots_test_read_ladderbots() {
    let bot = bot_from_ladderbots(ladder_bots()).unwrap();
    assert!(!bot.name.is_empty());
    assert_eq!(bot.name, "ExampleBot");
    assert_eq!(bot.file_name, "run.py");
}

#[test]
fn empty_ladderbots_is_an_error() {
    let e = bot_from_ladderbots(LadderBotsJson::default()).unwrap_err();
    assert_eq!(e.message, "ladderbots.json error");
}

#[test]
fn last_ladderbots_entry_is_the_bot() {
    let mut l = ladder_bots();
    l.bots.insert("Second".to_string(), BotJson::default());
    assert_eq!(bot_from_ladderbots(l).unwrap().name, "Second");
}

fn bot_of_type(t: &str) -> BotJson {
    BotJson {
        bot_type: t.to_string(),
        file_name: "bot.exe".to_string(),
        ..Default::default()
    }
}

fn base_args() -> Vec<String> {
    ["bot.exe", "--GamePort", "8642", "--StartPort", "8642", "--LadderServer", "127.0.0.1", "--OpponentId", "opp"]
        .iter()
        .map(|s| s.to_string())
        .collect()
}

#[test]
fn launch_plan_by_bot_type() {
    let p = launch_plan(&bot_of_type("DotNetCore"), "8642", "opp");
    assert!(matches!(p.command, StartCommand::Program(ref s) if s == "dotnet"));
    assert_eq!(p.args, base_args());

    let p = launch_plan(&bot_of_type("BinaryCpp"), "8642", "opp");
    assert!(matches!(p.command, StartCommand::BotsDirectoryFile(ref s) if s == "bot.exe"));
    assert_eq!(p.args, base_args()[1..].to_vec());

    let p = launch_plan(&bot_of_type("Java"), "8642", "opp");
    assert!(matches!(p.command, StartCommand::Program(ref s) if s == "java"));
    let mut java_args = vec!["-jar".to_string()];
    java_args.extend(base_args());
    assert_eq!(p.args, java_args);

    let p = launch_plan(&bot_of_type("NodeJS"), "8642", "opp");
    assert!(matches!(p.command, StartCommand::Program(ref s) if s == "node"));
    assert_eq!(p.args, base_args());

    let p = launch_plan(&bot_of_type("Python"), "8642", "opp");
    assert!(matches!(p.command, StartCommand::Program(ref s) if s == "python"));
    assert_eq!(p.args, base_args());
}

#[test]
fn download_status_done() {
    assert!(BotDownloadStatus::NotApplicable.is_done());
    assert!(BotDownloadStatus::Complete.is_done());
    assert!(BotDownloadStatus::Error.is_done());
    assert!(!BotDownloadStatus::Pending.is_done());
    assert!(!BotDownloadStatus::DetailRequest.is_done());
    assert!(!BotDownloadStatus::ZipDownload.is_done());
    assert!(!BotDownloadStatus::ZipExtract.is_done());
}

#[test]
fn to_download_follows_its_channels() {
    let mut t = ToDownload::new();
    assert!(!t.keep_waiting());
    t.update_status(BotNumber::One, BotDownloadStatus::Pending);
    t.update_status(BotNumber::Two, BotDownloadStatus::ZipDownload);
    assert!(t.keep_waiting());
    let (s1, r1) = crossbeam::channel::unbounded();
    t.add_channel(BotNumber::One, Some(r1));
    t.update_statuses();
    assert!(matches!(t.status(BotNumber::One), BotDownloadStatus::Pending));
    s1.send(BotDownloadStatus::Complete).unwrap();
    t.update_statuses();
    assert!(matches!(t.status(BotNumber::One), BotDownloadStatus::Complete));
    assert!(matches!(t.status(BotNumber::Two), BotDownloadStatus::ZipDownload));
    assert!(!t.keep_waiting());
}

fn api_bot(name: &str, data_hash: Option<&str>) -> AiarenaApiBot {
    AiarenaApiBot {
        name: name.to_string(),
        plays_race: "Zerg".to_string(),
        bot_type: "python".to_string(),
        bot_data_md5hash: data_hash.map(|s| s.to_string()),
        ..Default::default()
    }
}

#[test]
fn bot_json_from_api_bot() {
    let b = bot_json_for(&api_bot("Zergling", None));
    assert_eq!(b.name, "Zergling");
    assert_eq!(b.race, "Zerg");
    assert_eq!(b.bot_type, "python");
    assert_eq!(b.root_path, "");
    assert!(!b.debug);
    LadderBotsJson::from(&api_bot("Zergling", None));
    assert!(LadderBotsJson::save_to_file(std::path::PathBuf::from("x")).is_ok());
}

#[test]
fn hash_update_reads_back() {
    let mut h = MD5HashesFile::new();
    assert!(h.get_hash("a").is_none());
    h.update_zip_hash("a", "111");
    assert_eq!(h.get_hash("a").unwrap().get_zip_hash(), Some(&"111".to_string()));
    assert_eq!(h.get_hash("a").unwrap().get_data_hash(), None);
    h.bots.get_mut("a").unwrap().bot_data_md5hash = Some("data".to_string());
    h.update_zip_hash("a", "222");
    h.update_zip_hash("b", "333");
    let a: &BotHash = h.get_hash("a").unwrap();
    assert_eq!(a.get_zip_hash(), Some(&"222".to_string()));
    assert_eq!(a.get_data_hash(), Some(&"data".to_string()));
    assert_eq!(h.get_hash("b").unwrap().get_zip_hash(), Some(&"333".to_string()));
    assert!(h.get_hash_mut("c").is_none());
}

#[test]
fn download_decisions() {
    let mut h = MD5HashesFile::new();
    assert!(zip_hash_outdated(&h, &api_bot("a", Some("x"))));
    h.update_zip_hash("a", "x");
    assert!(!zip_hash_outdated(&h, &api_bot("a", Some("x"))));
    assert!(zip_hash_outdated(&h, &api_bot("a", Some("y"))));
    assert!(zip_hash_outdated(&h, &api_bot("a", None)));
    let dirs = vec!["/bots/Alpha (AI-Arena)".to_string(), "/bots/Other".to_string()];
    assert!(bot_folder_present(&dirs, "Alpha"));
    assert!(!bot_folder_present(&dirs, "Beta"));
}

#[test]
fn download_names_and_addresses() {
    assert_eq!(normalize_bot_name("Alpha (AI-Arena)"), "Alpha");
    assert_eq!(normalize_bot_name("Alpha"), "Alpha");
    assert_eq!(zip_file_name("Alpha"), "Alpha (AI-Arena).zip");
    assert_eq!(extract_directory_name("Alpha"), "Alpha (AI-Arena)");
    assert_eq!(authorization_header("tok"), "Token  tok");
    assert_eq!(bot_details_url("Alpha"), "https://aiarena.net/api/bots/?format=json&name=Alpha");
    assert_eq!(
        bots_listing_url(),
        "https://aiarena.net/api/bots/?&format=json&bot_zip_publicly_downloadable=true&ordering=name"
    );
}

#[test]
fn fetch_requested_bots() {
    let api = AiarenaApiBots {
        results: vec![api_bot("A", None), api_bot("B", None), api_bot("C", None)],
        ..Default::default()
    };
    let requested = vec!["C (AI-Arena)".to_string(), "A (AI-Arena)".to_string()];
    assert_eq!(bots_to_fetch(&api, &requested), vec![0, 2]);
    assert_eq!(bots_to_fetch(&api, &vec![]), Vec::<usize>::new());
}

#[test]
fn first_bot_of_listing() {
    let api = AiarenaApiBots {
        results: vec![api_bot("A", None), api_bot("B", None)],
        ..Default::default()
    };
    assert_eq!(first_api_bot(api).unwrap().name, "A");
    let e = first_api_bot(AiarenaApiBots::default()).unwrap_err();
    assert_eq!(e.message, "Could not connect to AiArena API");
}

#[test]
fn reports_replace_statuses() {
    let mut t = ToDownload::new();
    t.update_status(BotNumber::One, BotDownloadStatus::Pending);
    t.update_status(BotNumber::Two, BotDownloadStatus::DetailRequest);
    t.apply_reports((None, Some(BotDownloadStatus::ZipExtract)));
    assert!(matches!(t.status(BotNumber::One), BotDownloadStatus::Pending));
    assert!(matches!(t.status(BotNumber::Two), BotDownloadStatus::ZipExtract));
    t.apply_reports((Some(BotDownloadStatus::Error), None));
    assert!(matches!(t.status(BotNumber::One), BotDownloadStatus::Error));
    assert!(matches!(t.status(BotNumber::Two), BotDownloadStatus::ZipExtract));
}

#[test]
fn connection_reports() {
    assert!(BotConnection { bot: "Connected".to_string() }.is_connected());
    assert!(!BotConnection { bot: "Disconnected".to_string() }.is_connected());
    assert!(!BotConnection { bot: String::new() }.is_connected());
}

fn zipped_bot(name: &str, data_hash: Option<&str>, zip: Option<&str>) -> AiarenaApiBot {
    AiarenaApiBot {
        bot_zip: zip.map(|s| s.to_string()),
        bot_zip_md5hash: Some("zip-hash".to_string()),
        ..api_bot(name, data_hash)
    }
}

#[test]
fn zip_steps() {
    let mut h = MD5HashesFile::new();
    let bot = zipped_bot("Alpha", Some("x"), Some("https://example/alpha.zip"));
    // Nothing recorded: fetch straight away.
    assert!(matches!(zip_step(&h, &bot, None), ZipStep::Fetch(u) if u == "https://example/alpha.zip"));
    // Stale but no archive address: keep.
    assert!(matches!(zip_step(&h, &zipped_bot("Alpha", Some("x"), None), None), ZipStep::Keep));
    h.update_zip_hash("Alpha", "x");
    // Current hashes: the folders decide.
    assert!(matches!(zip_step(&h, &bot, None), ZipStep::CheckFolders));
    let with_folder = vec!["/bots/Alpha (AI-Arena)".to_string()];
    let without = vec!["/bots/Other".to_string()];
    assert!(matches!(zip_step(&h, &bot, Some(&with_folder)), ZipStep::Keep));
    assert!(matches!(zip_step(&h, &bot, Some(&without)), ZipStep::Fetch(_)));
    // Recording takes the listed archive hash.
    record_zip_hash(&mut h, &bot);
    assert_eq!(h.get_hash("Alpha").unwrap().get_zip_hash(), Some(&"zip-hash".to_string()));
}
