use game_detector::platforms::minecraft::{classify, detect_game, fetch_info, Title};
use game_detector::{DetectedGame, FetchError, GamePlatform, Process};

const COVER: &str = "https://www.minecraft.net/content/dam/minecraft/home/home-hero-1200x600.jpg";
const ICON: &str =
    "https://www.minecraft.net/etc.clientlibs/minecraft/clientlibs/main/resources/favicon-96x96.png";

#[test]
fn classify_tells_the_titles_apart() {
    assert_eq!(classify("/usr/bin/java -jar minecraft.jar"), Some(Title::Minecraft));
    assert_eq!(classify("c:\\games\\minecraft dungeons\\dungeons.exe"), Some(Title::Dungeons));
    assert_eq!(classify("c:\\games\\minecraft legends\\legends.exe"), Some(Title::Legends));
    assert_eq!(classify("minecraft dungeons and legends"), Some(Title::Legends));
    assert_eq!(classify("dungeons of legends"), None);
    assert_eq!(classify(""), None);
}

#[test]
fn detects_the_first_minecraft_process() {
    let processes = vec![
        Process::new(1, "/sbin/init".to_string()),
        Process::new(2, "C:\\Games\\Minecraft Dungeons\\Dungeons.exe".to_string()),
        Process::new(3, "java -jar Minecraft.jar".to_string()),
    ];
    match detect_game(&processes).unwrap().unwrap() {
        DetectedGame::MinecraftDungeons { cover, icon } => {
            assert_eq!(cover, COVER);
            assert_eq!(icon, ICON);
        }
        other => panic!("unexpected {:?}", other),
    }
    assert_eq!(detect_game(&processes[..1].to_vec()).unwrap(), None);
    assert_eq!(
        detect_game(&processes[2..].to_vec()).unwrap(),
        Some(DetectedGame::Minecraft { cover: String::new(), icon: String::new() })
    );
}

#[test]
fn the_base_game_is_resolved_from_a_fixed_record() {
    let detected = DetectedGame::Minecraft { cover: COVER.to_string(), icon: ICON.to_string() };
    let info = fetch_info(&detected).unwrap();
    assert_eq!(info.name, "Minecraft");
    assert_eq!(info.description, "");
    assert_eq!(info.app_id, None);
    assert_eq!(info.required_age, Some(10));
    assert_eq!(info.via_platform, GamePlatform::MinecraftLauncher);
    assert_eq!(info.developers, vec!["Mojang Studios".to_string()]);
    assert_eq!(info.publishers, vec!["Mojang Studios".to_string()]);
    assert_eq!(info.url, "https://www.xbox.com/en-US/games/store/-/9NXP44L49SHJ");
    assert_eq!(info.cover, COVER);
    assert_eq!(info.icon, ICON);
}

#[test]
fn the_spin_offs_carry_their_store_ids() {
    let dungeons = DetectedGame::MinecraftDungeons { cover: "c".to_string(), icon: "i".to_string() };
    let info = fetch_info(&dungeons).unwrap();
    assert_eq!(info.name, "Minecraft Dungeons");
    assert_eq!(info.app_id, Some(1672970));
    assert_eq!(info.url, "https://store.steampowered.com/app/1672970");
    assert_eq!(info.description, "Fight your way through an exciting action-adventure game, inspired by classic dungeon crawlers and set in the Minecraft universe!");
    assert_eq!(info.cover, "c");
    assert_eq!(info.icon, "i");
    let legends = DetectedGame::MinecraftLegends { cover: "c".to_string(), icon: "i".to_string() };
    let info = fetch_info(&legends).unwrap();
    assert_eq!(info.name, "Minecraft Legends");
    assert_eq!(info.app_id, Some(1928870));
    assert_eq!(info.required_age, Some(10));
    assert_eq!(info.url, "https://store.steampowered.com/app/1928870");
    assert!(info.description.starts_with("Discover the mysteries of Minecraft Legends"));
    assert!(info.description.contains("it\u{2019}s up to you"));
}

#[test]
fn minecraft_resolves_no_other_game() {
    let other = DetectedGame::Roblox { id: 1, url: String::new() };
    assert_eq!(fetch_info(&other).unwrap_err(), FetchError::UnsupportedForVariant);
}
