use game_detector::platforms::lutris::{
    catalog_url, detect_game, fetch_info, is_running, Library, Record, Row,
};
use game_detector::{DetectError, DetectedGame, FetchError, GamePlatform, Process, Reply};

fn gta() -> Row {
    Row {
        id: 4168,
        slug: "grand-theft-auto-v".to_string(),
        name: "Grand Theft Auto V".to_string(),
        directory: "/home/u/games/gta5".to_string(),
    }
}

fn doom() -> Row {
    Row {
        id: 7,
        slug: "doom".to_string(),
        name: "DOOM".to_string(),
        directory: "/home/u/games/doom".to_string(),
    }
}

fn snapshot() -> Vec<Process> {
    vec![
        Process::new(1, "/sbin/init".to_string()),
        Process::new(2, "lutris-wrapper: Grand Theft Auto V /home/u/games/gta5/GTA5.exe".to_string()),
    ]
}

fn detected() -> DetectedGame {
    DetectedGame::Lutris {
        id: 4168,
        slug: "grand-theft-auto-v".to_string(),
        name: "Grand Theft Auto V".to_string(),
        cover: "https://lutris.net/games/banner/grand-theft-auto-v.jpg".to_string(),
        icon: "https://lutris.net/games/icon/grand-theft-auto-v.png".to_string(),
    }
}

#[test]
fn the_wrapper_runs_a_game() {
    assert!(is_running(&snapshot(), "grand theft auto v", "/home/u/games/gta5"));
    assert!(!is_running(&snapshot(), "Grand Theft Auto V", "/home/u/games/gta5"));
    assert!(!is_running(&snapshot(), "grand theft auto v", "/home/u/games/gta4"));
    assert!(!is_running(&snapshot(), "doom", "/home/u/games/gta5"));
    let plain = vec![Process::new(2, "wine grand theft auto v /home/u/games/gta5".to_string())];
    assert!(!is_running(&plain, "grand theft auto v", "/home/u/games/gta5"));
}

#[test]
fn lutris_detects_the_running_game() {
    let library = Library::Games(vec![Some(doom()), Some(gta())]);
    match detect_game(&snapshot(), &library).unwrap().unwrap() {
        DetectedGame::Lutris { id, slug, name, cover, icon } => {
            assert_eq!(id, 4168);
            assert_eq!(slug, "grand-theft-auto-v");
            assert_eq!(name, "Grand Theft Auto V");
            assert_eq!(cover, "https://lutris.net/games/banner/grand-theft-auto-v.jpg");
            assert_eq!(icon, "https://lutris.net/games/icon/grand-theft-auto-v.png");
        }
        other => panic!("unexpected {:?}", other),
    }
}

#[test]
fn the_first_row_that_runs_wins() {
    let mut other = gta();
    other.id = 9;
    let library = Library::Games(vec![Some(other), Some(gta())]);
    assert_eq!(
        detect_game(&snapshot(), &library).unwrap(),
        Some(DetectedGame::Lutris {
            id: 9,
            slug: String::new(),
            name: String::new(),
            cover: String::new(),
            icon: String::new(),
        })
    );
}

#[test]
fn a_directory_is_sought_as_it_is_written() {
    let mut row = gta();
    row.directory = "/home/u/Games/GTA5".to_string();
    let processes = vec![Process::new(
        2,
        "lutris-wrapper: GRAND THEFT AUTO V /home/u/Games/GTA5/GTA5.exe".to_string(),
    )];
    assert!(detect_game(&processes, &Library::Games(vec![Some(row)])).unwrap().is_some());
    assert_eq!(detect_game(&processes, &Library::Games(vec![Some(gta())])).unwrap(), None);
}

#[test]
fn lutris_finds_nothing() {
    assert_eq!(detect_game(&snapshot(), &Library::Absent).unwrap(), None);
    assert_eq!(detect_game(&snapshot(), &Library::Games(vec![])).unwrap(), None);
    assert_eq!(detect_game(&snapshot(), &Library::Games(vec![Some(doom())])).unwrap(), None);
    assert_eq!(detect_game(&Vec::new(), &Library::Games(vec![Some(gta())])).unwrap(), None);
}

#[test]
fn lutris_with_malformed_state_fails() {
    let malformed = Err(DetectError::MalformedLocalState(GamePlatform::Lutris));
    assert_eq!(detect_game(&snapshot(), &Library::Unreadable), malformed);
    assert_eq!(detect_game(&snapshot(), &Library::Games(vec![Some(doom()), None, Some(gta())])), malformed);
    let library = Library::Games(vec![Some(gta()), None]);
    assert!(detect_game(&snapshot(), &library).unwrap().is_some());
}

#[test]
fn lutris_test_fetch_info() {
    let record = Record { steam_id: Some(271590), description: Some("Los Santos.".to_string()) };
    let reply = Reply::Answer { status: 200, body: Some(record) };
    let info = fetch_info(&detected(), &reply).unwrap();
    assert_eq!(info.name, "Grand Theft Auto V");
    assert_eq!(info.via_platform, GamePlatform::Lutris);
    assert_eq!(info.app_id, Some(271590));
    assert_eq!(info.required_age, None);
    assert_eq!(info.url, "https://lutris.net/games/grand-theft-auto-v");
    assert_eq!(info.icon, "https://lutris.net/games/icon/grand-theft-auto-v.png".to_string());
    assert_eq!(info.cover, "https://lutris.net/games/banner/grand-theft-auto-v.jpg".to_string());
    assert_eq!(info.description, "Los Santos.");
    assert!(info.developers.is_empty());
    assert!(info.publishers.is_empty());
}

#[test]
fn a_record_without_a_description() {
    let record = Record { steam_id: None, description: None };
    let reply = Reply::Answer { status: 200, body: Some(record) };
    let info = fetch_info(&detected(), &reply).unwrap();
    assert_eq!(info.app_id, None);
    assert_eq!(info.description, "");
}

#[test]
fn lutris_fetch_errors() {
    let record = Record { steam_id: None, description: None };
    let reply = Reply::Answer { status: 404, body: Some(record.clone()) };
    assert_eq!(fetch_info(&detected(), &reply).unwrap_err(), FetchError::NetworkFailure);
    assert_eq!(fetch_info(&detected(), &Reply::Unreachable).unwrap_err(), FetchError::NetworkFailure);
    let reply = Reply::Answer { status: 200, body: None };
    assert_eq!(fetch_info(&detected(), &reply).unwrap_err(), FetchError::SchemaMismatch);
    let custom = DetectedGame::Custom("x".to_string());
    let reply = Reply::Answer { status: 200, body: Some(record) };
    assert_eq!(fetch_info(&custom, &reply).unwrap_err(), FetchError::UnsupportedForVariant);
    assert_eq!(catalog_url("doom"), "https://lutris.net/api/games/doom");
}
