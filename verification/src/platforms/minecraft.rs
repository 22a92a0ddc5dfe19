//! Minecraft: which of the three titles runs, told from the command lines alone.

use crate::text;
use crate::{
    outcome_view, DetectError, DetectedGame, DetectedGameView, FetchError, GameInfo, GameInfoView,
    GamePlatform, Process,
};
use vstd::prelude::*;

verus! {

/// The three titles that the probe tells apart.
#[derive(Debug, Clone, Copy, PartialEq, Eq, Structural)]
pub enum Title {
    Minecraft,
    Dungeons,
    Legends,
}

/// The cover that every title carries.
pub open spec fn cover_url() -> Seq<char> {
    "https://www.minecraft.net/content/dam/minecraft/home/home-hero-1200x600.jpg"@
}

/// The icon that every title carries.
pub open spec fn icon_url() -> Seq<char> {
    "https://www.minecraft.net/etc.clientlibs/minecraft/clientlibs/main/resources/favicon-96x96.png"@
}

/// The title that a lowered command line stands for: one that names
/// Minecraft, and Legends before Dungeons where it names a spin-off.
pub open spec fn title_of(lowered: Seq<char>) -> Option<Title> {
    if !text::contains(lowered, "minecraft"@) {
        None
    } else if text::contains(lowered, "legends"@) {
        Some(Title::Legends)
    } else if text::contains(lowered, "dungeons"@) {
        Some(Title::Dungeons)
    } else {
        Some(Title::Minecraft)
    }
}

/// The detected game that stands for a title.
pub open spec fn game_of(title: Title) -> DetectedGameView {
    match title {
        Title::Minecraft => DetectedGameView::Minecraft { cover: cover_url(), icon: icon_url() },
        Title::Dungeons => DetectedGameView::MinecraftDungeons {
            cover: cover_url(),
            icon: icon_url(),
        },
        Title::Legends => DetectedGameView::MinecraftLegends {
            cover: cover_url(),
            icon: icon_url(),
        },
    }
}

/// The process at `at` is the first whose command line names Minecraft.
pub open spec fn is_first_minecraft(processes: Seq<Process>, at: int) -> bool {
    &&& 0 <= at < processes.len()
    &&& title_of(processes[at].lowered@) is Some
    &&& forall|earlier: int|
        0 <= earlier < at ==> title_of((#[trigger] processes[earlier]).lowered@) is None
}

/// What the probe finds: the title of the first process that names Minecraft.
pub open spec fn detection(processes: Seq<Process>) -> Option<DetectedGameView> {
    if exists|at: int| is_first_minecraft(processes, at) {
        Some(
            game_of(
                title_of(
                    processes[choose|at: int| is_first_minecraft(processes, at)].lowered@,
                )->0,
            ),
        )
    } else {
        None
    }
}

/// The title that a lowered command line stands for.
pub fn classify(lowered: &str) -> (title: Option<Title>)
    ensures
        title == title_of(lowered@),
{
    if !text::str_contains(lowered, "minecraft") {
        None
    } else if text::str_contains(lowered, "legends") {
        Some(Title::Legends)
    } else if text::str_contains(lowered, "dungeons") {
        Some(Title::Dungeons)
    } else {
        Some(Title::Minecraft)
    }
}

/// The detected game that stands for a title.
pub fn game(title: Title) -> (found: DetectedGame)
    ensures
        found@ == game_of(title),
{
    let cover =
        "https://www.minecraft.net/content/dam/minecraft/home/home-hero-1200x600.jpg".to_owned();
    let icon =
        "https://www.minecraft.net/etc.clientlibs/minecraft/clientlibs/main/resources/favicon-96x96.png".to_owned();
    match title {
        Title::Minecraft => DetectedGame::Minecraft { cover, icon },
        Title::Dungeons => DetectedGame::MinecraftDungeons { cover, icon },
        Title::Legends => DetectedGame::MinecraftLegends { cover, icon },
    }
}

/// The Minecraft probe.
pub fn detect_game(processes: &Vec<Process>) -> (outcome: Result<Option<DetectedGame>, DetectError>)
    ensures
        outcome_view(outcome) == Ok::<Option<DetectedGameView>, DetectError>(
            detection(processes@),
        ),
{
    let mut i: usize = 0;
    while i < processes.len()
        invariant
            i <= processes.len(),
            forall|earlier: int|
                0 <= earlier < i ==> title_of((#[trigger] processes@[earlier]).lowered@) is None,
        decreases processes.len() - i,
    {
        match classify(processes[i].lowered.as_str()) {
            Some(title) => {
                proof {
                    assert(is_first_minecraft(processes@, i as int));
                    let chosen = choose|at: int| is_first_minecraft(processes@, at);
                    if chosen < i {
                        assert(title_of(processes@[chosen].lowered@) is None);
                    }
                    if i < chosen {
                        assert(title_of(processes@[i as int].lowered@) is Some);
                    }
                }
                return Ok(Some(game(title)));
            },
            None => {},
        }
        i += 1;
    }
    proof {
        if exists|at: int| is_first_minecraft(processes@, at) {
            let at = choose|at: int| is_first_minecraft(processes@, at);
            assert(title_of(processes@[at].lowered@) is Some);
        }
    }
    Ok(None)
}

/// The name under which a title is sold.
pub open spec fn name_of(title: Title) -> Seq<char> {
    match title {
        Title::Minecraft => "Minecraft"@,
        Title::Dungeons => "Minecraft Dungeons"@,
        Title::Legends => "Minecraft Legends"@,
    }
}

/// The publisher's description of a title; the base game has none.
pub open spec fn description_of(title: Title) -> Seq<char> {
    match title {
        Title::Minecraft => ""@,
        Title::Dungeons => "Fight your way through an exciting action-adventure game, inspired by classic dungeon crawlers and set in the Minecraft universe!"@,
        Title::Legends => "Discover the mysteries of Minecraft Legends, a new action strategy game. Explore a gentle land of rich resources and lush biomes on the brink of destruction. The ravaging piglins have arrived, and it\u{2019}s up to you to inspire your allies and lead them in strategic battles to save the Overworld!"@,
    }
}

/// The number of a title in the Steam store; the base game is not sold there.
pub open spec fn app_id_of(title: Title) -> Option<i64> {
    match title {
        Title::Minecraft => None,
        Title::Dungeons => Some(1672970i64),
        Title::Legends => Some(1928870i64),
    }
}

/// The page of a title.
pub open spec fn page_of(title: Title) -> Seq<char> {
    match title {
        Title::Minecraft => "https://www.xbox.com/en-US/games/store/-/9NXP44L49SHJ"@,
        Title::Dungeons => "https://store.steampowered.com/app/1672970"@,
        Title::Legends => "https://store.steampowered.com/app/1928870"@,
    }
}

/// The metadata of a title, with the cover and the icon that detection gave.
pub open spec fn info_of(title: Title, cover: Seq<char>, icon: Seq<char>) -> GameInfoView {
    GameInfoView {
        app_id: app_id_of(title),
        via_platform: GamePlatform::MinecraftLauncher,
        name: name_of(title),
        description: description_of(title),
        cover,
        icon,
        developers: seq!["Mojang Studios"@],
        publishers: seq!["Mojang Studios"@],
        required_age: Some(10i32),
        url: page_of(title),
    }
}

/// What `fetch_info` returns: the fixed record of the title.
pub open spec fn resolution(detected: DetectedGame) -> Result<GameInfoView, FetchError> {
    match detected {
        DetectedGame::Minecraft { cover, icon } => Ok(info_of(Title::Minecraft, cover@, icon@)),
        DetectedGame::MinecraftDungeons { cover, icon } => Ok(
            info_of(Title::Dungeons, cover@, icon@),
        ),
        DetectedGame::MinecraftLegends { cover, icon } => Ok(
            info_of(Title::Legends, cover@, icon@),
        ),
        _ => Err(FetchError::UnsupportedForVariant),
    }
}

fn info(title: Title, cover: &String, icon: &String) -> (info: GameInfo)
    ensures
        info@ == info_of(title, cover@, icon@),
{
    let mut developers: Vec<String> = Vec::new();
    developers.push("Mojang Studios".to_owned());
    let mut publishers: Vec<String> = Vec::new();
    publishers.push("Mojang Studios".to_owned());
    let (app_id, name, description, url): (Option<i64>, String, String, String) = match title {
        Title::Minecraft => (
            None,
            "Minecraft".to_owned(),
            "".to_owned(),
            "https://www.xbox.com/en-US/games/store/-/9NXP44L49SHJ".to_owned(),
        ),
        Title::Dungeons => (
            Some(1672970),
            "Minecraft Dungeons".to_owned(),
            "Fight your way through an exciting action-adventure game, inspired by classic dungeon crawlers and set in the Minecraft universe!".to_owned(),
            "https://store.steampowered.com/app/1672970".to_owned(),
        ),
        Title::Legends => (
            Some(1928870),
            "Minecraft Legends".to_owned(),
            "Discover the mysteries of Minecraft Legends, a new action strategy game. Explore a gentle land of rich resources and lush biomes on the brink of destruction. The ravaging piglins have arrived, and it\u{2019}s up to you to inspire your allies and lead them in strategic battles to save the Overworld!".to_owned(),
            "https://store.steampowered.com/app/1928870".to_owned(),
        ),
    };
    let info = GameInfo {
        app_id,
        via_platform: GamePlatform::MinecraftLauncher,
        name,
        description,
        cover: cover.clone(),
        icon: icon.clone(),
        developers,
        publishers,
        required_age: Some(10),
        url,
    };
    assert(info@.developers =~= seq!["Mojang Studios"@]);
    assert(info@.publishers =~= seq!["Mojang Studios"@]);
    info
}

/// The metadata of a Minecraft title. Nothing is fetched for it.
pub fn fetch_info(detected: &DetectedGame) -> (r: Result<GameInfo, FetchError>)
    ensures
        match r {
            Ok(info) => resolution(*detected) == Ok::<GameInfoView, FetchError>(info@),
            Err(e) => resolution(*detected) == Err::<GameInfoView, FetchError>(e),
        },
{
    match detected {
        DetectedGame::Minecraft { cover, icon } => Ok(info(Title::Minecraft, cover, icon)),
        DetectedGame::MinecraftDungeons { cover, icon } => Ok(info(Title::Dungeons, cover, icon)),
        DetectedGame::MinecraftLegends { cover, icon } => Ok(info(Title::Legends, cover, icon)),
        _ => Err(FetchError::UnsupportedForVariant),
    }
}

} // verus!
