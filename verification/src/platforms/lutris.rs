//! Lutris: the game of the local library that the wrapper process runs, and
//! what Lutris's catalog adds to it.

use crate::text;
use crate::{
    outcome_view, DetectError, DetectedGame, DetectedGameView, FetchError, GameInfo, GameInfoView,
    GamePlatform, Process, Reply,
};
use vstd::prelude::*;

verus! {

/// One game of the local library.
#[derive(Debug, Clone)]
pub struct Row {
    pub id: i64,
    pub slug: String,
    pub name: String,
    /// The directory that the game is installed in.
    pub directory: String,
}

/// What the caller found of the local library.
#[derive(Debug, Clone)]
pub enum Library {
    /// There is no library: Lutris is not installed.
    Absent,
    /// There is a library, but it could not be opened or queried.
    Unreadable,
    /// The games in the order of the table; `None` stands for a row that
    /// could not be read.
    Games(Vec<Option<Row>>),
}

/// The process is the wrapper running a game of this lowered name from this
/// directory: its lowered command line holds the wrapper's name and the
/// game's name, and its command line holds the directory as it is written.
pub open spec fn runs(process: Process, name_lowered: Seq<char>, directory: Seq<char>) -> bool {
    &&& text::contains(process.lowered@, "lutris-wrapper"@)
    &&& text::contains(process.lowered@, name_lowered)
    &&& text::contains(process.cmdline@, directory)
}

/// Some process runs the game.
pub open spec fn any_runs(processes: Seq<Process>, name_lowered: Seq<char>, directory: Seq<char>) -> bool {
    exists|at: int| 0 <= at < processes.len() && runs(#[trigger] processes[at], name_lowered, directory)
}

/// The row ends the walk through the table: it could not be read, or its game runs.
pub open spec fn decides(processes: Seq<Process>, row: Option<Row>) -> bool {
    match row {
        Some(game) => any_runs(processes, text::lowercase(game.name@), game.directory@),
        None => true,
    }
}

/// The row at `at` is the first that ends the walk.
pub open spec fn is_first_deciding(processes: Seq<Process>, rows: Seq<Option<Row>>, at: int) -> bool {
    &&& 0 <= at < rows.len()
    &&& decides(processes, rows[at])
    &&& forall|earlier: int| 0 <= earlier < at ==> !decides(processes, #[trigger] rows[earlier])
}

/// The banner of a game.
pub open spec fn banner_url(slug: Seq<char>) -> Seq<char> {
    "https://lutris.net/games/banner/"@ + slug + ".jpg"@
}

/// The icon of a game.
pub open spec fn icon_url(slug: Seq<char>) -> Seq<char> {
    "https://lutris.net/games/icon/"@ + slug + ".png"@
}

/// The detected game that stands for a row.
pub open spec fn game_of(row: Row) -> DetectedGameView {
    DetectedGameView::Lutris {
        id: row.id,
        slug: row.slug@,
        name: row.name@,
        cover: banner_url(row.slug@),
        icon: icon_url(row.slug@),
    }
}

/// What the walk through the table finds: the first row whose game runs; an
/// error where a row before it could not be read.
pub open spec fn walk(processes: Seq<Process>, rows: Seq<Option<Row>>) -> Result<
    Option<DetectedGameView>,
    DetectError,
> {
    if exists|at: int| is_first_deciding(processes, rows, at) {
        match rows[choose|at: int| is_first_deciding(processes, rows, at)] {
            Some(row) => Ok(Some(game_of(row))),
            None => Err(DetectError::MalformedLocalState(GamePlatform::Lutris)),
        }
    } else {
        Ok(None)
    }
}

/// What the probe finds.
pub open spec fn detection(processes: Seq<Process>, library: Library) -> Result<
    Option<DetectedGameView>,
    DetectError,
> {
    match library {
        Library::Absent => Ok(None),
        Library::Unreadable => Err(DetectError::MalformedLocalState(GamePlatform::Lutris)),
        Library::Games(rows) => walk(processes, rows@),
    }
}

/// Whether some process is the wrapper running the game of this lowered
/// name from this directory.
pub fn is_running(processes: &Vec<Process>, name_lowered: &str, directory: &str) -> (running: bool)
    ensures
        running == any_runs(processes@, name_lowered@, directory@),
{
    let mut i: usize = 0;
    while i < processes.len()
        invariant
            i <= processes.len(),
            forall|at: int|
                0 <= at < i ==> !runs(#[trigger] processes@[at], name_lowered@, directory@),
        decreases processes.len() - i,
    {
        let lowered = processes[i].lowered.as_str();
        if text::str_contains(lowered, "lutris-wrapper") && text::str_contains(
            lowered,
            name_lowered,
        ) && text::str_contains(processes[i].cmdline.as_str(), directory) {
            return true;
        }
        i += 1;
    }
    false
}

/// The detected game that stands for a row.
pub fn game(row: &Row) -> (found: DetectedGame)
    ensures
        found@ == game_of(*row),
{
    let mut cover = "https://lutris.net/games/banner/".to_owned();
    cover.append(row.slug.as_str());
    cover.append(".jpg");
    let mut icon = "https://lutris.net/games/icon/".to_owned();
    icon.append(row.slug.as_str());
    icon.append(".png");
    DetectedGame::Lutris { id: row.id, slug: row.slug.clone(), name: row.name.clone(), cover, icon }
}

fn first_deciding(processes: &Vec<Process>, rows: &Vec<Option<Row>>) -> (found: Option<usize>)
    ensures
        match found {
            Some(at) => is_first_deciding(processes@, rows@, at as int) && at == choose|at: int|
                is_first_deciding(processes@, rows@, at),
            None => !exists|at: int| is_first_deciding(processes@, rows@, at),
        },
{
    let mut i: usize = 0;
    while i < rows.len()
        invariant
            i <= rows.len(),
            forall|earlier: int| 0 <= earlier < i ==> !decides(processes@, #[trigger] rows@[earlier]),
        decreases rows.len() - i,
    {
        let deciding = match &rows[i] {
            Some(row) => {
                let name_lowered = text::to_lowercase(row.name.as_str());
                is_running(processes, name_lowered.as_str(), row.directory.as_str())
            },
            None => true,
        };
        if deciding {
            proof {
                assert(is_first_deciding(processes@, rows@, i as int));
                let chosen = choose|at: int| is_first_deciding(processes@, rows@, at);
                if chosen < i {
                    assert(!decides(processes@, rows@[chosen]));
                }
                if i < chosen {
                    assert(decides(processes@, rows@[i as int]));
                }
            }
            return Some(i);
        }
        i += 1;
    }
    proof {
        if exists|at: int| is_first_deciding(processes@, rows@, at) {
            let at = choose|at: int| is_first_deciding(processes@, rows@, at);
            assert(decides(processes@, rows@[at]));
        }
    }
    None
}

/// The Lutris probe: the first game of the library that the wrapper runs.
pub fn detect_game(processes: &Vec<Process>, library: &Library) -> (outcome: Result<
    Option<DetectedGame>,
    DetectError,
>)
    ensures
        outcome_view(outcome) == detection(processes@, *library),
{
    match library {
        Library::Absent => Ok(None),
        Library::Unreadable => Err(DetectError::MalformedLocalState(GamePlatform::Lutris)),
        Library::Games(rows) => match first_deciding(processes, rows) {
            Some(at) => match &rows[at] {
                Some(row) => Ok(Some(game(row))),
                None => Err(DetectError::MalformedLocalState(GamePlatform::Lutris)),
            },
            None => Ok(None),
        },
    }
}

/// What Lutris's catalog tells of one game.
#[derive(Debug, Clone)]
pub struct Record {
    /// The number of the game in the Steam store, where it is sold there.
    pub steam_id: Option<i64>,
    pub description: Option<String>,
}

/// The address of the catalog's record of a game.
pub open spec fn catalog_url_of(slug: Seq<char>) -> Seq<char> {
    "https://lutris.net/api/games/"@ + slug
}

/// The page of a game.
pub open spec fn page_of(slug: Seq<char>) -> Seq<char> {
    "https://lutris.net/games/"@ + slug
}

/// The address of the catalog's record of a game.
pub fn catalog_url(slug: &str) -> (url: String)
    ensures
        url@ == catalog_url_of(slug@),
{
    let mut url = "https://lutris.net/api/games/".to_owned();
    url.append(slug);
    url
}

/// What `fetch_info` returns: what detection gave, with the description and
/// the Steam number of the catalog's record.
pub open spec fn resolution(detected: DetectedGame, reply: Reply<Record>) -> Result<
    GameInfoView,
    FetchError,
> {
    match detected {
        DetectedGame::Lutris { slug, name, cover, icon, .. } => match reply.outcome() {
            Ok(record) => Ok(
                GameInfoView {
                    app_id: record.steam_id,
                    via_platform: GamePlatform::Lutris,
                    name: name@,
                    description: match record.description {
                        Some(description) => description@,
                        None => Seq::empty(),
                    },
                    cover: cover@,
                    icon: icon@,
                    developers: Seq::empty(),
                    publishers: Seq::empty(),
                    required_age: None,
                    url: page_of(slug@),
                },
            ),
            Err(e) => Err(e),
        },
        _ => Err(FetchError::UnsupportedForVariant),
    }
}

/// The metadata of a Lutris game, from the catalog's answer.
pub fn fetch_info(detected: &DetectedGame, reply: &Reply<Record>) -> (r: Result<
    GameInfo,
    FetchError,
>)
    ensures
        match r {
            Ok(info) => resolution(*detected, *reply) == Ok::<GameInfoView, FetchError>(info@),
            Err(e) => resolution(*detected, *reply) == Err::<GameInfoView, FetchError>(e),
        },
{
    match detected {
        DetectedGame::Lutris { slug, name, cover, icon, .. } => {
            let record = match reply.body() {
                Ok(record) => record,
                Err(e) => {
                    return Err(e);
                },
            };
            let description = match &record.description {
                Some(description) => description.clone(),
                None => String::new(),
            };
            let mut url = "https://lutris.net/games/".to_owned();
            url.append(slug.as_str());
            let info = GameInfo {
                app_id: record.steam_id,
                via_platform: GamePlatform::Lutris,
                name: name.clone(),
                description,
                cover: cover.clone(),
                icon: icon.clone(),
                developers: Vec::new(),
                publishers: Vec::new(),
                required_age: None,
                url,
            };
            assert(info@.publishers =~= Seq::<Seq<char>>::empty());
            Ok(info)
        },
        _ => Err(FetchError::UnsupportedForVariant),
    }
}

} // verus!
