use flate2::write::GzEncoder;
use flate2::Compression;
use game_detector::platforms::itchio::{
    detect_game, escape_str, fetch_info, find_game_folder, folder_pattern, install_locations,
    receipt_path, unpack_receipt, InstallDir, LocalState, Preferences, Receipt,
};
use game_detector::{DetectError, DetectedGame, FetchError, GamePlatform, Process};
use std::io::Write;

const APPS: &str = "/home/u/itch/apps";
const COVER: &str = "https://img.itch.zone//aW1nLzE4NTA1Mjc3LnBuZw==//315x250%23c//dw6M7j.png";

fn dir(path: &str, exists: bool) -> InstallDir {
    InstallDir { path: path.to_string(), exists }
}

fn snapshot() -> Vec<Process> {
    vec![
        Process::new(1, "/sbin/init".to_string()),
        Process::new(2, "/home/u/itch/apps/Ignited Entry/game/bin/run --fullscreen".to_string()),
    ]
}

fn receipt() -> Receipt {
    Receipt {
        id: 2513640,
        title: "Ignited Entry".to_owned(),
        url: "https://jordiboi.itch.io/ignited-entry".to_owned(),
        cover_url: COVER.to_owned(),
        description: "".to_owned(),
        author: "jordiboi".to_owned(),
    }
}

fn state(receipt: Option<Receipt>) -> LocalState {
    LocalState { defaults: vec![dir(APPS, true)], preferences: Preferences::Absent, receipt }
}

fn gzip(text: &[u8]) -> Vec<u8> {
    let mut encoder = GzEncoder::new(Vec::new(), Compression::default());
    encoder.write_all(text).unwrap();
    encoder.finish().unwrap()
}

#[test]
fn the_folder_of_the_game_is_the_nearest_below_the_location() {
    let locations = vec![APPS.to_string()];
    assert_eq!(
        find_game_folder(&locations, &snapshot()),
        Some("/home/u/itch/apps/Ignited Entry".to_string())
    );
}

#[test]
fn the_folder_needs_a_slash_behind_it() {
    let locations = vec![APPS.to_string()];
    let processes = vec![Process::new(2, "/home/u/itch/apps/Ignited Entry".to_string())];
    assert_eq!(find_game_folder(&locations, &processes), None);
    let processes = vec![Process::new(2, "/home/u/itch/apps".to_string())];
    assert_eq!(find_game_folder(&locations, &processes), None);
    assert_eq!(find_game_folder(&locations, &Vec::new()), None);
    assert_eq!(find_game_folder(&Vec::new(), &snapshot()), None);
}

#[test]
fn the_first_location_with_a_game_wins() {
    let processes = vec![
        Process::new(2, "/srv/games/Two/run".to_string()),
        Process::new(3, "/home/u/itch/apps/One/run".to_string()),
    ];
    let locations = vec![APPS.to_string(), "/srv/games".to_string()];
    assert_eq!(find_game_folder(&locations, &processes), Some("/home/u/itch/apps/One".to_string()));
    let locations = vec!["/srv/games".to_string(), APPS.to_string()];
    assert_eq!(find_game_folder(&locations, &processes), Some("/srv/games/Two".to_string()));
}

#[test]
fn a_location_is_read_as_text() {
    let locations = vec!["/home/u/it.ch (x)/a+b".to_string()];
    let processes = vec![
        Process::new(2, "/home/u/itach (x)/a+b/Wrong/run".to_string()),
        Process::new(3, "/home/u/it.ch (x)/a+b/Right/run".to_string()),
    ];
    assert_eq!(
        find_game_folder(&locations, &processes),
        Some("/home/u/it.ch (x)/a+b/Right".to_string())
    );
}

#[test]
fn special_characters_are_escaped() {
    assert_eq!(escape_str("/home/u/itch/apps"), "/home/u/itch/apps");
    assert_eq!(escape_str(".*+?^${}()|[]\\"), "\\.\\*\\+\\?\\^\\$\\{\\}\\(\\)\\|\\[\\]\\\\");
    assert_eq!(escape_str("a.b"), "a\\.b");
    assert_eq!(escape_str("C:\\Games\\Itch Games"), "C:\\\\Games\\\\Itch Games");
    assert_eq!(escape_str("日本 (語)"), "日本 \\(語\\)");
    assert_eq!(escape_str(""), "");
}

#[test]
fn the_pattern_of_a_location() {
    assert_eq!(folder_pattern("/a.b"), "(/a\\.b/[a-zA-z0-9\\-\\_ &]+)/");
}

#[test]
fn install_locations_are_those_that_exist() {
    let defaults = vec![dir("/d1", true), dir("/d2", false)];
    let listed = Preferences::Listed(vec![dir("/p1", false), dir("/p2", true), dir("/d1", true)]);
    assert_eq!(
        install_locations(&defaults, &listed).unwrap(),
        vec!["/d1".to_string(), "/p2".to_string(), "/d1".to_string()]
    );
    assert_eq!(install_locations(&defaults, &Preferences::Absent).unwrap(), vec!["/d1".to_string()]);
    assert_eq!(
        install_locations(&Vec::new(), &Preferences::Absent).unwrap(),
        Vec::<String>::new()
    );
    assert_eq!(
        install_locations(&defaults, &Preferences::Unreadable),
        Err(DetectError::MalformedLocalState(GamePlatform::ItchIo))
    );
}

#[test]
fn the_receipt_lies_in_the_folder() {
    assert_eq!(
        receipt_path("/home/u/itch/apps/Ignited Entry"),
        "/home/u/itch/apps/Ignited Entry/.itch/receipt.json.gz"
    );
}

#[test]
fn a_receipt_is_unpacked() {
    let json = "{\"game\":{\"id\":2513640,\"title\":\"Ignited Entry\"}}";
    let packed = gzip(json.as_bytes());
    assert_ne!(packed, json.as_bytes());
    assert_eq!(unpack_receipt(&Some(packed)).unwrap(), json);
    assert_eq!(unpack_receipt(&Some(gzip(b""))).unwrap(), "");
}

#[test]
fn a_receipt_that_does_not_unpack_is_malformed() {
    let malformed = Err(DetectError::MalformedLocalState(GamePlatform::ItchIo));
    assert_eq!(unpack_receipt(&None), malformed);
    assert_eq!(unpack_receipt(&Some(b"{\"game\":{}}".to_vec())), malformed);
    assert_eq!(unpack_receipt(&Some(Vec::new())), malformed);
    assert_eq!(unpack_receipt(&Some(gzip(&[0xff, 0xfe, 0x00]))), malformed);
    let mut cut = gzip(b"some text that is long enough to be cut short");
    cut.truncate(cut.len() - 10);
    assert_eq!(unpack_receipt(&Some(cut)), malformed);
}

#[test]
fn itchio_detects_the_game_of_the_receipt() {
    match detect_game(&snapshot(), &state(Some(receipt()))).unwrap().unwrap() {
        DetectedGame::ItchIo { id, url, name, description, cover, icon, developers, publishers } => {
            assert_eq!(id, 2513640);
            assert_eq!(url, "https://jordiboi.itch.io/ignited-entry");
            assert_eq!(name, "Ignited Entry");
            assert_eq!(description, "");
            assert_eq!(cover, COVER);
            assert_eq!(icon, COVER);
            assert_eq!(developers, vec!["jordiboi".to_string()]);
            assert_eq!(publishers, vec!["jordiboi".to_string()]);
        }
        other => panic!("unexpected {:?}", other),
    }
}

#[test]
fn itchio_matches_the_location_whatever_the_case() {
    let mut local = state(Some(receipt()));
    local.defaults = vec![dir("/home/u/itch/apps", true)];
    let processes = vec![Process::new(2, "/HOME/u/itch/apps/Ignited Entry/run".to_string())];
    assert_eq!(detect_game(&processes, &local).unwrap(), None);
}

#[test]
fn itchio_finds_nothing() {
    let processes = vec![Process::new(1, "/sbin/init".to_string())];
    assert_eq!(detect_game(&processes, &state(Some(receipt()))).unwrap(), None);
    assert_eq!(detect_game(&processes, &state(None)).unwrap(), None);
    let mut local = state(Some(receipt()));
    local.defaults = vec![dir(APPS, false)];
    assert_eq!(detect_game(&snapshot(), &local).unwrap(), None);
}

#[test]
fn itchio_with_malformed_state_fails() {
    let malformed = Err(DetectError::MalformedLocalState(GamePlatform::ItchIo));
    assert_eq!(detect_game(&snapshot(), &state(None)), malformed);
    let mut local = state(Some(receipt()));
    local.preferences = Preferences::Unreadable;
    assert_eq!(detect_game(&snapshot(), &local), malformed);
    assert_eq!(detect_game(&Vec::new(), &local), malformed);
}

#[test]
fn itchio_test_fetch_info() {
    let detected = DetectedGame::ItchIo {
        id: 2513640,
        name: "Ignited Entry".to_owned(),
        url: "https://jordiboi.itch.io/ignited-entry".to_owned(),
        cover: "https://img.itch.zone//aW1nLzE4NTA1Mjc3LnBuZw==//315x250%23c//dw6M7j.png".to_owned(),
        icon: "https://img.itch.zone//aW1nLzE4NTA1Mjc3LnBuZw==//315x250%23c//dw6M7j.png".to_owned(),
        description: "".to_owned(),
        developers: vec!["jordiboi".to_owned()],
        publishers: vec!["jordiboi".to_owned()],
    };
    let info = fetch_info(&detected).unwrap();
    assert_eq!(info.name, "Ignited Entry");
    assert_eq!(info.url, "https://jordiboi.itch.io/ignited-entry");
    assert_eq!(info.cover, "https://img.itch.zone//aW1nLzE4NTA1Mjc3LnBuZw==//315x250%23c//dw6M7j.png");
    assert_eq!(info.icon, "https://img.itch.zone//aW1nLzE4NTA1Mjc3LnBuZw==//315x250%23c//dw6M7j.png");
    assert_eq!(info.description, "");
    assert_eq!(info.developers, vec!["jordiboi"]);
    assert_eq!(info.publishers, vec!["jordiboi"]);
    assert_eq!(info.app_id, None);
    assert_eq!(info.required_age, None);
    assert_eq!(info.via_platform, GamePlatform::ItchIo);
}

#[test]
fn itchio_resolves_no_other_game() {
    let other = DetectedGame::Custom("x".to_string());
    assert_eq!(fetch_info(&other).unwrap_err(), FetchError::UnsupportedForVariant);
}
