use game_detector::{DetectedGame, Identity};
use std::collections::HashSet;

fn steam(id: i64, url: &str) -> DetectedGame {
    DetectedGame::Steam { id, url: url.to_string(), icon: String::new() }
}

fn gamejolt(id: i64, name: &str) -> DetectedGame {
    DetectedGame::GameJolt {
        id,
        url: String::new(),
        name: name.to_string(),
        cover: String::new(),
        icon: String::new(),
        developers: vec![name.to_string()],
        publishers: vec![],
    }
}

fn itchio(id: i64, name: &str) -> DetectedGame {
    DetectedGame::ItchIo {
        id,
        url: String::new(),
        name: name.to_string(),
        description: String::new(),
        cover: String::new(),
        icon: String::new(),
        developers: vec![],
        publishers: vec![name.to_string()],
    }
}

fn lutris(id: i64, slug: &str) -> DetectedGame {
    DetectedGame::Lutris {
        id,
        slug: slug.to_string(),
        name: String::new(),
        cover: String::new(),
        icon: String::new(),
    }
}

fn roblox(id: i64, url: &str) -> DetectedGame {
    DetectedGame::Roblox { id, url: url.to_string() }
}

#[test]
fn equal_ids_make_equal_games() {
    assert_eq!(steam(601050, "a"), steam(601050, "b"));
    assert_eq!(gamejolt(303626, "a"), gamejolt(303626, "b"));
    assert_eq!(itchio(2513640, "a"), itchio(2513640, "b"));
    assert_eq!(lutris(4168, "a"), lutris(4168, "b"));
    assert_eq!(roblox(1818, "a"), roblox(1818, "b"));
}

#[test]
fn different_ids_make_different_games() {
    assert_ne!(steam(601050, "a"), steam(601051, "a"));
    assert_ne!(gamejolt(303626, "a"), gamejolt(303627, "a"));
    assert_ne!(itchio(2513640, "a"), itchio(2513641, "a"));
    assert_ne!(lutris(4168, "a"), lutris(4169, "a"));
    assert_ne!(roblox(1818, "a"), roblox(1819, "a"));
}

#[test]
fn the_platform_is_part_of_the_identity() {
    assert_ne!(steam(7, ""), roblox(7, ""));
    assert_ne!(gamejolt(7, ""), itchio(7, ""));
    assert_ne!(lutris(7, ""), steam(7, ""));
    assert_ne!(DetectedGame::Custom("7".to_string()), steam(7, ""));
}

#[test]
fn a_minecraft_title_equals_itself_whatever_it_carries() {
    let a = DetectedGame::Minecraft { cover: "a".to_string(), icon: "b".to_string() };
    let b = DetectedGame::Minecraft { cover: "c".to_string(), icon: "d".to_string() };
    assert_eq!(a, b);
    let a = DetectedGame::MinecraftDungeons { cover: "a".to_string(), icon: "b".to_string() };
    let b = DetectedGame::MinecraftDungeons { cover: "c".to_string(), icon: "d".to_string() };
    assert_eq!(a, b);
    let a = DetectedGame::MinecraftLegends { cover: "a".to_string(), icon: "b".to_string() };
    let b = DetectedGame::MinecraftLegends { cover: "c".to_string(), icon: "d".to_string() };
    assert_eq!(a, b);
}

#[test]
fn the_minecraft_titles_differ_from_each_other() {
    let base = DetectedGame::Minecraft { cover: String::new(), icon: String::new() };
    let dungeons = DetectedGame::MinecraftDungeons { cover: String::new(), icon: String::new() };
    let legends = DetectedGame::MinecraftLegends { cover: String::new(), icon: String::new() };
    assert_ne!(base, dungeons);
    assert_ne!(base, legends);
    assert_ne!(dungeons, legends);
}

#[test]
fn custom_games_compare_by_their_id() {
    assert_eq!(DetectedGame::Custom("id1".to_string()), DetectedGame::Custom("id1".to_string()));
    assert_ne!(DetectedGame::Custom("id1".to_string()), DetectedGame::Custom("id2".to_string()));
}

#[test]
fn the_identity_is_a_key_for_a_cache() {
    assert_eq!(steam(601050, "a").identity(), Identity::Steam(601050));
    assert_eq!(steam(601050, "a").identity(), steam(601050, "b").identity());
    assert_ne!(steam(7, "").identity(), roblox(7, "").identity());
    assert_eq!(
        DetectedGame::Custom("id1".to_string()).identity(),
        Identity::Custom("id1".to_string())
    );
    let base = DetectedGame::Minecraft { cover: "a".to_string(), icon: String::new() };
    assert_eq!(base.identity(), Identity::Minecraft);
    let mut seen = HashSet::new();
    for game in [steam(1, "a"), steam(1, "b"), gamejolt(1, "a"), itchio(1, "a"), lutris(1, "a"),
        lutris(2, "a"), roblox(1, "a"), base]
    {
        seen.insert(game.identity());
    }
    assert_eq!(seen.len(), 7);
}
