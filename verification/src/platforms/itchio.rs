//! itch.io: the game whose folder a running process was started from, told by
//! the receipt that the itch app keeps in that folder.

use crate::pattern;
use crate::text;
use crate::{
    outcome_view, DetectError, DetectedGame, DetectedGameView, FetchError, GameInfo, GameInfoView,
    GamePlatform, Process,
};
use std::io::Read;
use vstd::prelude::*;

verus! {

/// A directory that games may be installed in, and whether it is there.
#[derive(Debug, Clone)]
pub struct InstallDir {
    pub path: String,
    pub exists: bool,
}

/// What the caller found of the itch app's preferences.
#[derive(Debug, Clone)]
pub enum Preferences {
    /// There is no preferences file.
    Absent,
    /// There is one, but it could not be read or is not in the app's format.
    Unreadable,
    /// The install locations that the preferences list.
    Listed(Vec<InstallDir>),
}

/// What the receipt of an installed game tells.
#[derive(Debug, Clone)]
pub struct Receipt {
    pub id: i64,
    pub title: String,
    pub url: String,
    pub cover_url: String,
    /// The short text that describes the game.
    pub description: String,
    /// The name that the game's author shows.
    pub author: String,
}

/// What the caller found of itch.io on this machine.
#[derive(Debug, Clone)]
pub struct LocalState {
    /// The directories that the itch app installs to when nothing else is set.
    pub defaults: Vec<InstallDir>,
    pub preferences: Preferences,
    /// The receipt in the folder that `find_game_folder` names; `None` where
    /// there is no such folder, and where its receipt could not be read,
    /// unpacked or understood.
    pub receipt: Option<Receipt>,
}

/// The paths of the directories that are there, in their order.
pub open spec fn existing(dirs: Seq<InstallDir>) -> Seq<Seq<char>>
    decreases dirs.len(),
{
    if dirs.len() == 0 {
        Seq::empty()
    } else if dirs.last().exists {
        existing(dirs.drop_last()).push(dirs.last().path@)
    } else {
        existing(dirs.drop_last())
    }
}

/// The directories to look for games in: the defaults that are there, then
/// the listed ones that are there. Preferences that cannot be read are an error.
pub open spec fn install_locations_of(defaults: Seq<InstallDir>, preferences: Preferences) -> Result<
    Seq<Seq<char>>,
    DetectError,
> {
    match preferences {
        Preferences::Absent => Ok(existing(defaults)),
        Preferences::Unreadable => Err(DetectError::MalformedLocalState(GamePlatform::ItchIo)),
        Preferences::Listed(listed) => Ok(existing(defaults) + existing(listed@)),
    }
}

fn push_existing(out: &mut Vec<String>, dirs: &Vec<InstallDir>)
    ensures
        text::views(final(out)@) == text::views(old(out)@) + existing(dirs@),
{
    let mut i: usize = 0;
    while i < dirs.len()
        invariant
            i <= dirs.len(),
            text::views(out@) == text::views(old(out)@) + existing(dirs@.take(i as int)),
        decreases dirs.len() - i,
    {
        assert(dirs@.take(i + 1).drop_last() =~= dirs@.take(i as int));
        if dirs[i].exists {
            let path = dirs[i].path.clone();
            let ghost before = out@;
            out.push(path);
            assert(text::views(out@) =~= text::views(before).push(path@));
        }
        i += 1;
    }
    assert(dirs@.take(i as int) =~= dirs@);
}

/// The directories to look for games in.
pub fn install_locations(defaults: &Vec<InstallDir>, preferences: &Preferences) -> (r: Result<
    Vec<String>,
    DetectError,
>)
    ensures
        match r {
            Ok(locations) => install_locations_of(defaults@, *preferences) == Ok::<
                Seq<Seq<char>>,
                DetectError,
            >(text::views(locations@)),
            Err(e) => install_locations_of(defaults@, *preferences) == Err::<
                Seq<Seq<char>>,
                DetectError,
            >(e),
        },
{
    let mut locations: Vec<String> = Vec::new();
    match preferences {
        Preferences::Absent => {
            push_existing(&mut locations, defaults);
            Ok(locations)
        },
        Preferences::Unreadable => Err(DetectError::MalformedLocalState(GamePlatform::ItchIo)),
        Preferences::Listed(listed) => {
            push_existing(&mut locations, defaults);
            push_existing(&mut locations, listed);
            Ok(locations)
        },
    }
}

/// The characters that a regular expression reads as more than themselves.
pub open spec fn is_special(c: char) -> bool {
    c == '.' || c == '*' || c == '+' || c == '?' || c == '^' || c == '$' || c == '{' || c == '}'
        || c == '(' || c == ')' || c == '|' || c == '[' || c == ']' || c == '\\'
}

/// `s` with a backslash before each special character, so that a regular
/// expression reads it as the text itself.
pub open spec fn escaped(s: Seq<char>) -> Seq<char>
    decreases s.len(),
{
    if s.len() == 0 {
        Seq::empty()
    } else if is_special(s.last()) {
        escaped(s.drop_last()).push('\\').push(s.last())
    } else {
        escaped(s.drop_last()).push(s.last())
    }
}

fn special(c: char) -> (r: bool)
    ensures
        r == is_special(c),
{
    c == '.' || c == '*' || c == '+' || c == '?' || c == '^' || c == '$' || c == '{' || c == '}'
        || c == '(' || c == ')' || c == '|' || c == '[' || c == ']' || c == '\\'
}

/// Escapes a text for use in a regular expression.
pub fn escape_str(s: &str) -> (out: String)
    ensures
        out@ == escaped(s@),
{
    let n: usize = s.unicode_len();
    let mut out = String::new();
    let mut i: usize = 0;
    proof {
        reveal_strlit("\\");
    }
    while i < n
        invariant
            i <= n,
            n == s@.len(),
            "\\"@ == seq!['\\'],
            out@ == escaped(s@.take(i as int)),
        decreases n - i,
    {
        let c: char = s.get_char(i);
        assert(s@.take(i + 1).drop_last() =~= s@.take(i as int));
        if special(c) {
            out.append("\\");
        }
        let one = s.substring_char(i, i + 1);
        out.append(one);
        i += 1;
    }
    assert(s@.take(i as int) =~= s@);
    out
}

/// The regular expression that finds the folder of a game below `location`:
/// its first group is the location, a slash and one folder name, and a slash
/// has to follow.
pub open spec fn folder_pattern_of(location: Seq<char>) -> Seq<char> {
    "("@ + escaped(location) + "/[a-zA-z0-9\\-\\_ &]+)/"@
}

/// The regular expression that finds the folder of a game below `location`.
pub fn folder_pattern(location: &str) -> (pattern: String)
    ensures
        pattern@ == folder_pattern_of(location@),
{
    let mut pattern = "(".to_owned();
    pattern.append(escape_str(location).as_str());
    pattern.append("/[a-zA-z0-9\\-\\_ &]+)/");
    pattern
}

/// The folder of a game below `location` that the process was started from:
/// its lowered command line holds the lowered location, and its command line
/// matches the location's pattern.
pub open spec fn folder_of(process: Process, location: Seq<char>) -> Option<Seq<char>> {
    if text::contains(process.lowered@, text::lowercase(location)) {
        pattern::first_group_of(folder_pattern_of(location), process.cmdline@)
    } else {
        None
    }
}

/// The process at `at` is the first that was started from a folder below `location`.
pub open spec fn is_first_inside(processes: Seq<Process>, location: Seq<char>, at: int) -> bool {
    &&& 0 <= at < processes.len()
    &&& folder_of(processes[at], location) is Some
    &&& forall|earlier: int|
        0 <= earlier < at ==> folder_of(#[trigger] processes[earlier], location) is None
}

/// The folder below `location` of the first process that was started from one.
pub open spec fn folder_below(processes: Seq<Process>, location: Seq<char>) -> Option<Seq<char>> {
    if exists|at: int| is_first_inside(processes, location, at) {
        folder_of(processes[choose|at: int| is_first_inside(processes, location, at)], location)
    } else {
        None
    }
}

/// The location at `at` is the first with a process started from a folder below it.
pub open spec fn is_first_location(processes: Seq<Process>, locations: Seq<Seq<char>>, at: int) -> bool {
    &&& 0 <= at < locations.len()
    &&& folder_below(processes, locations[at]) is Some
    &&& forall|earlier: int|
        0 <= earlier < at ==> folder_below(processes, #[trigger] locations[earlier]) is None
}

/// The folder of the game that runs: that of the first location with a
/// process started from below it, and there of the first such process.
pub open spec fn game_folder_of(processes: Seq<Process>, locations: Seq<Seq<char>>) -> Option<
    Seq<char>,
> {
    if exists|at: int| is_first_location(processes, locations, at) {
        folder_below(
            processes,
            locations[choose|at: int| is_first_location(processes, locations, at)],
        )
    } else {
        None
    }
}

fn find_folder_below(processes: &Vec<Process>, location: &str) -> (folder: Option<String>)
    ensures
        match folder {
            Some(found) => folder_below(processes@, location@) == Some(found@),
            None => folder_below(processes@, location@) is None,
        },
{
    let location_lowered = text::to_lowercase(location);
    let pattern = folder_pattern(location);
    let mut i: usize = 0;
    while i < processes.len()
        invariant
            i <= processes.len(),
            location_lowered@ == text::lowercase(location@),
            pattern@ == folder_pattern_of(location@),
            forall|earlier: int|
                0 <= earlier < i ==> folder_of(#[trigger] processes@[earlier], location@) is None,
        decreases processes.len() - i,
    {
        let process = &processes[i];
        if text::str_contains(process.lowered.as_str(), location_lowered.as_str()) {
            match pattern::first_group(pattern.as_str(), process.cmdline.as_str()) {
                Some(found) => {
                    proof {
                        assert(is_first_inside(processes@, location@, i as int));
                        let chosen = choose|at: int| is_first_inside(processes@, location@, at);
                        if chosen < i {
                            assert(folder_of(processes@[chosen], location@) is None);
                        }
                        if i < chosen {
                            assert(folder_of(processes@[i as int], location@) is Some);
                        }
                    }
                    return Some(found);
                },
                None => {},
            }
        }
        i += 1;
    }
    proof {
        if exists|at: int| is_first_inside(processes@, location@, at) {
            let at = choose|at: int| is_first_inside(processes@, location@, at);
            assert(folder_of(processes@[at], location@) is Some);
        }
    }
    None
}

/// The folder of the game that runs, if a process was started from a folder
/// below one of the locations.
pub fn find_game_folder(locations: &Vec<String>, processes: &Vec<Process>) -> (folder: Option<
    String,
>)
    ensures
        match folder {
            Some(found) => game_folder_of(processes@, text::views(locations@)) == Some(found@),
            None => game_folder_of(processes@, text::views(locations@)) is None,
        },
{
    let ghost places = text::views(locations@);
    let mut i: usize = 0;
    while i < locations.len()
        invariant
            i <= locations.len(),
            places == text::views(locations@),
            forall|earlier: int|
                0 <= earlier < i ==> folder_below(processes@, #[trigger] places[earlier]) is None,
        decreases locations.len() - i,
    {
        match find_folder_below(processes, locations[i].as_str()) {
            Some(found) => {
                proof {
                    assert(is_first_location(processes@, places, i as int));
                    let chosen = choose|at: int| is_first_location(processes@, places, at);
                    if chosen < i {
                        assert(folder_below(processes@, places[chosen]) is None);
                    }
                    if i < chosen {
                        assert(folder_below(processes@, places[i as int]) is Some);
                    }
                }
                return Some(found);
            },
            None => {},
        }
        i += 1;
    }
    proof {
        if exists|at: int| is_first_location(processes@, places, at) {
            let at = choose|at: int| is_first_location(processes@, places, at);
            assert(folder_below(processes@, places[at]) is Some);
        }
    }
    None
}

/// Where the itch app keeps the receipt of the game in `folder`.
pub open spec fn receipt_path_of(folder: Seq<char>) -> Seq<char> {
    folder + "/.itch/receipt.json.gz"@
}

/// Where the itch app keeps the receipt of the game in `folder`.
pub fn receipt_path(folder: &str) -> (path: String)
    ensures
        path@ == receipt_path_of(folder@),
{
    let mut path = folder.to_owned();
    path.append("/.itch/receipt.json.gz");
    path
}

/// The text that the first member of a gzip file unpacks to: `None` where the
/// bytes are no gzip file, and where what they unpack to is no UTF-8.
pub uninterp spec fn gunzipped(bytes: Seq<u8>) -> Option<Seq<char>>;

/// `flate2::read::GzDecoder::new` over the bytes, read to its end into a
/// string. The contract claims that the outcome depends on the bytes alone,
/// and nothing of what comes out.
#[verifier::external_body]
fn gunzip(bytes: &Vec<u8>) -> (unpacked: Option<String>)
    ensures
        match unpacked {
            Some(text) => gunzipped(bytes@) == Some(text@),
            None => gunzipped(bytes@) is None,
        },
{
    let mut text = String::new();
    match flate2::read::GzDecoder::new(bytes.as_slice()).read_to_string(&mut text) {
        Ok(_) => Some(text),
        Err(_) => None,
    }
}

/// The text of a receipt file: an error where the file could not be read
/// (`None`), and where its bytes do not unpack.
pub open spec fn unpacked_receipt_of(file: Option<Vec<u8>>) -> Result<Seq<char>, DetectError> {
    match file {
        Some(bytes) => match gunzipped(bytes@) {
            Some(text) => Ok(text),
            None => Err(DetectError::MalformedLocalState(GamePlatform::ItchIo)),
        },
        None => Err(DetectError::MalformedLocalState(GamePlatform::ItchIo)),
    }
}

/// Unpacks the receipt that was read from a game's folder. What comes out is
/// JSON, which the caller reads into a `Receipt`.
pub fn unpack_receipt(file: &Option<Vec<u8>>) -> (unpacked: Result<String, DetectError>)
    ensures
        match unpacked {
            Ok(text) => unpacked_receipt_of(*file) == Ok::<Seq<char>, DetectError>(text@),
            Err(e) => unpacked_receipt_of(*file) == Err::<Seq<char>, DetectError>(e),
        },
{
    match file {
        Some(bytes) => match gunzip(bytes) {
            Some(text) => Ok(text),
            None => Err(DetectError::MalformedLocalState(GamePlatform::ItchIo)),
        },
        None => Err(DetectError::MalformedLocalState(GamePlatform::ItchIo)),
    }
}

/// The detected game that a receipt stands for.
pub open spec fn game_of(receipt: Receipt) -> DetectedGameView {
    DetectedGameView::ItchIo {
        id: receipt.id,
        url: receipt.url@,
        name: receipt.title@,
        description: receipt.description@,
        cover: receipt.cover_url@,
        icon: receipt.cover_url@,
        developers: seq![receipt.author@],
        publishers: seq![receipt.author@],
    }
}

/// What the probe finds: nothing where no process was started from a game's
/// folder; else the game of the receipt, and an error without a receipt or
/// with preferences that cannot be read.
pub open spec fn detection(processes: Seq<Process>, state: LocalState) -> Result<
    Option<DetectedGameView>,
    DetectError,
> {
    match install_locations_of(state.defaults@, state.preferences) {
        Ok(locations) => if game_folder_of(processes, locations) is Some {
            match state.receipt {
                Some(receipt) => Ok(Some(game_of(receipt))),
                None => Err(DetectError::MalformedLocalState(GamePlatform::ItchIo)),
            }
        } else {
            Ok(None)
        },
        Err(e) => Err(e),
    }
}

/// The detected game that a receipt stands for.
pub fn game(receipt: &Receipt) -> (found: DetectedGame)
    ensures
        found@ == game_of(*receipt),
{
    let mut developers: Vec<String> = Vec::new();
    developers.push(receipt.author.clone());
    let mut publishers: Vec<String> = Vec::new();
    publishers.push(receipt.author.clone());
    let found = DetectedGame::ItchIo {
        id: receipt.id,
        url: receipt.url.clone(),
        name: receipt.title.clone(),
        description: receipt.description.clone(),
        cover: receipt.cover_url.clone(),
        icon: receipt.cover_url.clone(),
        developers,
        publishers,
    };
    assert(found@->ItchIo_publishers =~= seq![receipt.author@]);
    found
}

/// The itch.io probe.
pub fn detect_game(processes: &Vec<Process>, state: &LocalState) -> (outcome: Result<
    Option<DetectedGame>,
    DetectError,
>)
    ensures
        outcome_view(outcome) == detection(processes@, *state),
{
    let locations = match install_locations(&state.defaults, &state.preferences) {
        Ok(locations) => locations,
        Err(e) => {
            return Err(e);
        },
    };
    match find_game_folder(&locations, processes) {
        Some(_) => match &state.receipt {
            Some(receipt) => Ok(Some(game(receipt))),
            None => Err(DetectError::MalformedLocalState(GamePlatform::ItchIo)),
        },
        None => Ok(None),
    }
}

/// What `fetch_info` returns: what detection took from the receipt.
pub open spec fn resolution(detected: DetectedGame) -> Result<GameInfoView, FetchError> {
    match detected {
        DetectedGame::ItchIo { url, name, description, cover, icon, developers, publishers, .. } => Ok(
            GameInfoView {
                app_id: None,
                via_platform: GamePlatform::ItchIo,
                name: name@,
                description: description@,
                cover: cover@,
                icon: icon@,
                developers: text::views(developers@),
                publishers: text::views(publishers@),
                required_age: None,
                url: url@,
            },
        ),
        _ => Err(FetchError::UnsupportedForVariant),
    }
}

/// The metadata of an itch.io game. Nothing is fetched for it.
pub fn fetch_info(detected: &DetectedGame) -> (r: Result<GameInfo, FetchError>)
    ensures
        match r {
            Ok(info) => resolution(*detected) == Ok::<GameInfoView, FetchError>(info@),
            Err(e) => resolution(*detected) == Err::<GameInfoView, FetchError>(e),
        },
{
    match detected {
        DetectedGame::ItchIo { url, name, description, cover, icon, developers, publishers, .. } => Ok(
            GameInfo {
                app_id: None,
                via_platform: GamePlatform::ItchIo,
                name: name.clone(),
                description: description.clone(),
                cover: cover.clone(),
                icon: icon.clone(),
                developers: text::clone_strings(developers),
                publishers: text::clone_strings(publishers),
                required_age: None,
                url: url.clone(),
            },
        ),
        _ => Err(FetchError::UnsupportedForVariant),
    }
}

} // verus!
