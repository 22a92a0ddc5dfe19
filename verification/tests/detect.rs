use game_detector::platforms::steam::{self, SteamStore, VDFValue};
use game_detector::{
    any_process_contains, detect_custom, detect_game, next_step, DetectError, DetectedGame,
    FetchError, GameInfo, GamePlatform, Probe, Probes, Process, Remote, Reply, Step,
};

fn none() -> Probes {
    Probes {
        steam: false,
        itchio: false,
        gamejolt: false,
        lutris: false,
        roblox: false,
        minecraft: false,
    }
}

fn custom(pairs: &[(&str, &str)]) -> Option<Vec<(String, String)>> {
    Some(pairs.iter().map(|(id, text)| (id.to_string(), text.to_string())).collect())
}

fn snapshot(cmdlines: &[&str]) -> Vec<Process> {
    cmdlines.iter().enumerate().map(|(i, c)| Process::new(i as i32 + 1, c.to_string())).collect()
}

fn table(entries: Vec<(&str, VDFValue)>) -> VDFValue {
    VDFValue::Table(entries.into_iter().map(|(k, v)| (k.to_string(), v)).collect())
}

#[test]
fn a_process_is_built_from_its_command_line() {
    let process = Process::new(12, "C:\\Windows\\NOTEPAD.EXE Foo.txt".to_string());
    assert_eq!(process.pid, 12);
    assert_eq!(process.cmdline, "C:\\Windows\\NOTEPAD.EXE Foo.txt");
    assert_eq!(process.lowered, "c:\\windows\\notepad.exe foo.txt");
    let args = vec!["/usr/bin/Java".to_string(), "-jar".to_string(), "Minecraft.jar".to_string()];
    let process = Process::from_args(3, &args);
    assert_eq!(process.pid, 3);
    assert_eq!(process.cmdline, "/usr/bin/Java -jar Minecraft.jar");
    assert_eq!(process.lowered, "/usr/bin/java -jar minecraft.jar");
    let process = Process::from_args(4, &Vec::new());
    assert_eq!(process.cmdline, "");
}

#[test]
fn a_needle_is_sought_in_the_lowered_command_lines() {
    let processes = snapshot(&["/sbin/init", "Notepad.exe foo.txt"]);
    assert!(any_process_contains(&processes, "notepad"));
    assert!(!any_process_contains(&processes, "Notepad"));
    assert!(!any_process_contains(&processes, "wordpad"));
    assert!(!any_process_contains(&Vec::new(), ""));
    assert!(any_process_contains(&processes, ""));
}

#[test]
fn a_custom_game_is_detected_before_any_probe() {
    let processes = snapshot(&["notepad.exe foo.txt"]);
    let step = detect_game(&custom(&[("id1", "notepad")]), &processes, &Probes::all());
    match step {
        Step::Done(Ok(Some(DetectedGame::Custom(id)))) => assert_eq!(id, "id1"),
        other => panic!("unexpected {:?}", other),
    }
}

#[test]
fn custom_games_match_whatever_the_case() {
    let processes = snapshot(&["C:\\Program Files\\NotePad.EXE foo.txt"]);
    let found = detect_custom(&custom(&[("id1", "NOTEPAD.exe")]), &processes);
    assert_eq!(found, Some(DetectedGame::Custom("id1".to_string())));
}

#[test]
fn the_first_custom_game_of_the_mapping_wins() {
    let processes = snapshot(&["bash", "notepad.exe foo.txt"]);
    let games = custom(&[("zero", "wordpad"), ("one", "foo.txt"), ("two", "notepad")]);
    assert_eq!(detect_custom(&games, &processes), Some(DetectedGame::Custom("one".to_string())));
    let games = custom(&[("two", "notepad"), ("one", "foo.txt")]);
    assert_eq!(detect_custom(&games, &processes), Some(DetectedGame::Custom("two".to_string())));
}

#[test]
fn without_a_custom_match_the_first_probe_runs() {
    let processes = snapshot(&["notepad.exe foo.txt"]);
    let games = custom(&[("id1", "wordpad")]);
    assert!(matches!(detect_game(&games, &processes, &Probes::all()), Step::Run(Probe::Steam)));
    assert!(matches!(detect_game(&None, &processes, &Probes::all()), Step::Run(Probe::Steam)));
    let mut enabled = Probes::all();
    enabled.steam = false;
    enabled.itchio = false;
    assert!(matches!(detect_game(&None, &processes, &enabled), Step::Run(Probe::GameJolt)));
    assert!(matches!(detect_game(&None, &processes, &none()), Step::Done(Ok(None))));
    assert_eq!(detect_custom(&games, &processes), None);
    assert_eq!(detect_custom(&custom(&[]), &processes), None);
}

#[test]
fn the_probes_run_in_their_order() {
    let all = Probes::all();
    assert!(matches!(next_step(Probe::Steam, Ok(None), &all), Step::Run(Probe::ItchIo)));
    assert!(matches!(next_step(Probe::ItchIo, Ok(None), &all), Step::Run(Probe::GameJolt)));
    assert!(matches!(next_step(Probe::GameJolt, Ok(None), &all), Step::Run(Probe::Lutris)));
    assert!(matches!(next_step(Probe::Lutris, Ok(None), &all), Step::Run(Probe::Roblox)));
    assert!(matches!(next_step(Probe::Roblox, Ok(None), &all), Step::Run(Probe::Minecraft)));
    assert!(matches!(next_step(Probe::Minecraft, Ok(None), &all), Step::Done(Ok(None))));
}

#[test]
fn probes_that_do_not_run_are_passed_over() {
    let mut enabled = Probes::all();
    enabled.lutris = false;
    enabled.gamejolt = false;
    assert!(matches!(next_step(Probe::ItchIo, Ok(None), &enabled), Step::Run(Probe::Roblox)));
    enabled.roblox = false;
    enabled.minecraft = false;
    assert!(matches!(next_step(Probe::ItchIo, Ok(None), &enabled), Step::Done(Ok(None))));
}

#[test]
fn the_first_match_ends_the_pass() {
    let game = DetectedGame::Roblox { id: 1818, url: "https://roblox.com/games/1818".to_string() };
    match next_step(Probe::Steam, Ok(Some(game)), &Probes::all()) {
        Step::Done(Ok(Some(DetectedGame::Roblox { id, url }))) => {
            assert_eq!(id, 1818);
            assert_eq!(url, "https://roblox.com/games/1818");
        }
        other => panic!("unexpected {:?}", other),
    }
}

#[test]
fn malformed_state_ends_the_pass() {
    let error = DetectError::MalformedLocalState(GamePlatform::ItchIo);
    match next_step(Probe::ItchIo, Err(error), &Probes::all()) {
        Step::Done(Err(e)) => assert_eq!(e, error),
        other => panic!("unexpected {:?}", other),
    }
}

#[test]
fn a_pass_over_a_steam_store_detects_the_running_app() {
    let processes = snapshot(&["/sbin/init"]);
    let enabled = Probes::all();
    let step = detect_game(&None, &processes, &enabled);
    assert!(matches!(step, Step::Run(Probe::Steam)));
    let leaf = table(vec![("RunningAppID", VDFValue::Number(601050))]);
    let store = SteamStore::Vdf(table(vec![(
        "Registry",
        table(vec![(
            "HKCU",
            table(vec![("Software", table(vec![("Valve", table(vec![("Steam", leaf)]))]))]),
        )]),
    )]));
    match next_step(Probe::Steam, steam::detect_game(&store), &enabled) {
        Step::Done(Ok(Some(DetectedGame::Steam { id, .. }))) => assert_eq!(id, 601050),
        other => panic!("unexpected {:?}", other),
    }
}

#[test]
fn a_custom_game_is_resolved_to_its_id() {
    let game = DetectedGame::Custom("id1".to_string());
    assert_eq!(game.first_request(), None);
    let info = game.get_info(&Remote::Nothing).unwrap();
    assert_eq!(
        info,
        GameInfo {
            app_id: None,
            via_platform: GamePlatform::Custom,
            name: "id1".to_string(),
            description: String::new(),
            cover: String::new(),
            icon: String::new(),
            developers: vec![],
            publishers: vec![],
            required_age: None,
            url: String::new(),
        }
    );
}

#[test]
fn resolution_needs_the_answers_of_the_games_platform() {
    let game = DetectedGame::Steam { id: 601050, url: String::new(), icon: String::new() };
    assert_eq!(game.get_info(&Remote::Nothing).unwrap_err(), FetchError::UnsupportedForVariant);
    let lutris = Remote::Lutris(Reply::Unreachable);
    assert_eq!(game.get_info(&lutris).unwrap_err(), FetchError::UnsupportedForVariant);
    let steam = Remote::Steam(Reply::Unreachable);
    assert_eq!(game.get_info(&steam).unwrap_err(), FetchError::NetworkFailure);
    let minecraft = DetectedGame::Minecraft { cover: String::new(), icon: String::new() };
    assert_eq!(minecraft.get_info(&steam).unwrap().name, "Minecraft");
}

#[test]
fn the_first_request_of_each_platform() {
    let steam = DetectedGame::Steam { id: 601050, url: String::new(), icon: String::new() };
    assert_eq!(
        steam.first_request().unwrap(),
        "https://store.steampowered.com/api/appdetails?appids=601050"
    );
    let roblox = DetectedGame::Roblox { id: 1818, url: String::new() };
    assert_eq!(
        roblox.first_request().unwrap(),
        "https://apis.roblox.com/universes/v1/places/1818/universe"
    );
    let lutris = DetectedGame::Lutris {
        id: 4168,
        slug: "grand-theft-auto-v".to_string(),
        name: String::new(),
        cover: String::new(),
        icon: String::new(),
    };
    assert_eq!(
        lutris.first_request().unwrap(),
        "https://lutris.net/api/games/grand-theft-auto-v"
    );
    let gamejolt = DetectedGame::GameJolt {
        id: 303626,
        url: String::new(),
        name: String::new(),
        cover: String::new(),
        icon: String::new(),
        developers: vec![],
        publishers: vec![],
    };
    assert_eq!(
        gamejolt.first_request().unwrap(),
        "https://gamejolt.com/site-api/web/discover/games/303626"
    );
    let minecraft = DetectedGame::Minecraft { cover: String::new(), icon: String::new() };
    assert_eq!(minecraft.first_request(), None);
}

#[test]
fn a_reply_is_worth_its_body() {
    let reply = Reply::Answer { status: 200, body: Some(5) };
    assert_eq!(reply.body(), Ok(&5));
    let reply = Reply::Answer { status: 199, body: Some(5) };
    assert_eq!(reply.body(), Err(FetchError::NetworkFailure));
    let reply = Reply::Answer { status: 404, body: None::<i32> };
    assert_eq!(reply.body(), Err(FetchError::NetworkFailure));
    let reply = Reply::Answer { status: 204, body: None::<i32> };
    assert_eq!(reply.body(), Err(FetchError::SchemaMismatch));
    assert_eq!(Reply::<i32>::Unreachable.body(), Err(FetchError::NetworkFailure));
}
