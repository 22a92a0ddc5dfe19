//! Roblox: the place that the player is in, from the player's log or from the
//! command line that started it; and the game's metadata from Roblox's catalogs.

use crate::pattern;
use crate::text;
use crate::{
    outcome_view, DetectError, DetectedGame, DetectedGameView, FetchError, GameInfo, GameInfoView,
    GamePlatform, Process, Reply,
};
use vstd::prelude::*;

verus! {

/// What the player's log tells of the session, read from its end.
#[derive(Debug, Clone, Copy, PartialEq, Eq, Structural)]
pub enum LogScan {
    /// The latest record of the session is that this place was joined.
    Joined(i64),
    /// The latest record of the session is that the player left.
    Disconnected,
    /// The log tells nothing of a session.
    Quiet,
}

/// Where the last line of `text` starts: behind its last line feed, or at 0.
pub open spec fn last_line_start(text: Seq<char>) -> int
    decreases text.len(),
{
    if text.len() == 0 || text.last() == '\n' {
        text.len() as int
    } else {
        last_line_start(text.drop_last())
    }
}

/// The lines of `text`: what stands between its line feeds, so one line more
/// than it has line feeds.
pub open spec fn lines(text: Seq<char>) -> Seq<Seq<char>>
    decreases text.len(),
{
    let start = last_line_start(text);
    if 0 < start <= text.len() {
        lines(text.take(start - 1)).push(text.subrange(start, text.len() as int))
    } else {
        seq![text]
    }
}

/// The place that a line records as joined: the line reports a join, holds
/// `placeid:` once, and what follows it is, but for white space around it,
/// an `i64` in decimal.
pub open spec fn joined_place(line: Seq<char>) -> Option<i64> {
    if text::contains(line, "Report game_join_loadtime: placeid:"@) {
        match text::first_occurrence(line, "placeid:"@) {
            Some(at) => {
                let rest = line.subrange(at + "placeid:"@.len(), line.len() as int);
                if text::contains(rest, "placeid:"@) {
                    None
                } else {
                    text::parse_i64(text::trim(rest))
                }
            },
            None => None,
        }
    } else {
        None
    }
}

/// The line records that the player left the game.
pub open spec fn is_disconnect(line: Seq<char>) -> bool {
    text::contains(line, "[FLog::Network] Time to disconnect replication data:"@)
}

/// What the lines tell, read from the last to the first: the first line that
/// records a join or a disconnect decides, the join before the disconnect
/// where one line records both.
pub open spec fn scan_lines(lines: Seq<Seq<char>>) -> LogScan
    decreases lines.len(),
{
    if lines.len() == 0 {
        LogScan::Quiet
    } else {
        match joined_place(lines.last()) {
            Some(place) => LogScan::Joined(place),
            None => if is_disconnect(lines.last()) {
                LogScan::Disconnected
            } else {
                scan_lines(lines.drop_last())
            },
        }
    }
}

/// The latest record of a session decides: where the last line records a
/// join, that place is the answer, whatever stands before it; where it
/// records a disconnect and no join, the session is over; and a last line
/// that records neither is as good as not there.
pub proof fn lemma_latest_record_wins(lines: Seq<Seq<char>>)
    requires
        lines.len() > 0,
    ensures
        joined_place(lines.last()) matches Some(place) ==> scan_lines(lines) == LogScan::Joined(
            place,
        ),
        joined_place(lines.last()) is None && is_disconnect(lines.last()) ==> scan_lines(lines)
            == LogScan::Disconnected,
        joined_place(lines.last()) is None && !is_disconnect(lines.last()) ==> scan_lines(lines)
            == scan_lines(lines.drop_last()),
{
}

fn line_start(log: &[char], end: usize) -> (start: usize)
    requires
        end <= log.len(),
    ensures
        start == last_line_start(log@.take(end as int)),
        start <= end,
{
    let mut start: usize = end;
    while start > 0 && log[start - 1] != '\n'
        invariant
            start <= end <= log.len(),
            last_line_start(log@.take(end as int)) == last_line_start(log@.take(start as int)),
        decreases start,
    {
        assert(log@.take(start as int).drop_last() =~= log@.take(start - 1));
        start -= 1;
    }
    start
}

fn joined_place_of(line: &[char], join_marker: &[char], key: &[char]) -> (place: Option<i64>)
    requires
        join_marker@ == "Report game_join_loadtime: placeid:"@,
        key@ == "placeid:"@,
    ensures
        place == joined_place(line@),
{
    if text::find(line, join_marker).is_none() {
        return None;
    }
    match text::find(line, key) {
        Some(at) => {
            let line_len: usize = line.len();
            let rest = vstd::slice::slice_subrange(line, at + key.len(), line_len);
            if text::find(rest, key).is_some() {
                None
            } else {
                text::parse_i64_chars(text::trim_chars(rest))
            }
        },
        None => None,
    }
}

/// Reads the player's log from its end.
pub fn scan_log(log: &str) -> (scan: LogScan)
    ensures
        scan == scan_lines(lines(log@)),
{
    let chars = text::to_chars(log);
    let join_marker = text::to_chars("Report game_join_loadtime: placeid:");
    let key = text::to_chars("placeid:");
    let disconnect = text::to_chars("[FLog::Network] Time to disconnect replication data:");
    let mut end: usize = chars.len();
    assert(chars@.take(end as int) =~= log@);
    loop
        invariant
            end <= chars.len(),
            chars@ == log@,
            join_marker@ == "Report game_join_loadtime: placeid:"@,
            key@ == "placeid:"@,
            disconnect@ == "[FLog::Network] Time to disconnect replication data:"@,
            scan_lines(lines(log@)) == scan_lines(lines(chars@.take(end as int))),
        decreases end,
    {
        let ghost unread = chars@.take(end as int);
        let start = line_start(chars.as_slice(), end);
        let line = vstd::slice::slice_subrange(chars.as_slice(), start, end);
        proof {
            if start > 0 {
                assert(unread.take(start - 1) =~= chars@.take(start - 1));
                assert(lines(unread).last() == line@);
                assert(lines(unread).drop_last() =~= lines(chars@.take(start - 1)));
            } else {
                assert(line@ =~= unread);
            }
        }
        match joined_place_of(line, join_marker.as_slice(), key.as_slice()) {
            Some(place) => {
                return LogScan::Joined(place);
            },
            None => {},
        }
        if text::find(line, disconnect.as_slice()).is_some() {
            return LogScan::Disconnected;
        }
        if start == 0 {
            assert(scan_lines(lines(unread).drop_last()) == LogScan::Quiet);
            return LogScan::Quiet;
        }
        end = start - 1;
    }
}

/// The process is the Roblox player.
pub open spec fn is_player(process: Process) -> bool {
    text::contains(process.lowered@, "robloxplayerbeta"@)
}

/// Some process is the Roblox player.
pub open spec fn player_runs(processes: Seq<Process>) -> bool {
    exists|at: int| 0 <= at < processes.len() && is_player(#[trigger] processes[at])
}

/// The place that a command line names: the digits behind the first
/// `placeId=` that has digits behind it, where they write an `i64`.
pub open spec fn place_argument_of(cmdline: Seq<char>) -> Option<i64> {
    match pattern::first_group_of("placeId=(\\d+)"@, cmdline) {
        Some(digits) => text::parse_i64(digits),
        None => None,
    }
}

/// The process is the player, started with a place to join.
pub open spec fn launches(process: Process) -> bool {
    is_player(process) && place_argument_of(process.cmdline@) is Some
}

/// The process at `at` is the first that is the player started with a place to join.
pub open spec fn is_first_launch(processes: Seq<Process>, at: int) -> bool {
    &&& 0 <= at < processes.len()
    &&& launches(processes[at])
    &&& forall|earlier: int| 0 <= earlier < at ==> !launches(#[trigger] processes[earlier])
}

/// The place that the first player process with a place in its command line names.
pub open spec fn launched_place(processes: Seq<Process>) -> Option<i64> {
    if exists|at: int| is_first_launch(processes, at) {
        place_argument_of(processes[choose|at: int| is_first_launch(processes, at)].cmdline@)
    } else {
        None
    }
}

/// What the log tells, where there is one.
pub open spec fn session(log: Option<String>) -> LogScan {
    match log {
        Some(text) => scan_lines(lines(text@)),
        None => LogScan::Quiet,
    }
}

/// The place that is being played. Without a player process there is none.
/// With one, the log decides where it tells of a session: the place joined
/// last, or none after a disconnect. Where the log is quiet or missing, the
/// command line of the player decides.
pub open spec fn detected_place(processes: Seq<Process>, log: Option<String>) -> Option<i64> {
    if !player_runs(processes) {
        None
    } else {
        match session(log) {
            LogScan::Joined(place) => Some(place),
            LogScan::Disconnected => None,
            LogScan::Quiet => launched_place(processes),
        }
    }
}

/// The page of a place.
pub open spec fn place_url(place: int) -> Seq<char> {
    "https://roblox.com/games/"@ + text::decimal(place)
}

/// The detected game that stands for a place.
pub open spec fn game_of(place: i64) -> DetectedGameView {
    DetectedGameView::Roblox { id: place, url: place_url(place as int) }
}

/// What the probe finds.
pub open spec fn detection(processes: Seq<Process>, log: Option<String>) -> Option<
    DetectedGameView,
> {
    match detected_place(processes, log) {
        Some(place) => Some(game_of(place)),
        None => None,
    }
}

/// The place that a command line names in its argument `placeId=`.
pub fn place_argument(cmdline: &str) -> (place: Option<i64>)
    ensures
        place == place_argument_of(cmdline@),
{
    match pattern::first_group("placeId=(\\d+)", cmdline) {
        Some(digits) => text::parse_i64_str(digits.as_str()),
        None => None,
    }
}

/// The detected game that stands for a place.
pub fn game(place: i64) -> (found: DetectedGame)
    ensures
        found@ == game_of(place),
{
    let mut url = "https://roblox.com/games/".to_owned();
    url.append(text::decimal_i64(place).as_str());
    DetectedGame::Roblox { id: place, url }
}

fn first_player(processes: &Vec<Process>, marker: &[char]) -> (found: Option<usize>)
    requires
        marker@ == "robloxplayerbeta"@,
    ensures
        found is Some == player_runs(processes@),
        found matches Some(at) ==> at < processes.len() && forall|earlier: int|
            0 <= earlier < at ==> !is_player(#[trigger] processes@[earlier]),
{
    let mut i: usize = 0;
    while i < processes.len()
        invariant
            i <= processes.len(),
            marker@ == "robloxplayerbeta"@,
            forall|at: int| 0 <= at < i ==> !is_player(#[trigger] processes@[at]),
        decreases processes.len() - i,
    {
        let lowered = text::to_chars(processes[i].lowered.as_str());
        if text::find(lowered.as_slice(), marker).is_some() {
            return Some(i);
        }
        i += 1;
    }
    None
}

/// The Roblox probe: the place that is being played, from the snapshot and
/// the latest log of the player, where the caller found one.
pub fn detect_game(processes: &Vec<Process>, log: &Option<String>) -> (outcome: Result<
    Option<DetectedGame>,
    DetectError,
>)
    ensures
        outcome_view(outcome) == Ok::<Option<DetectedGameView>, DetectError>(
            detection(processes@, *log),
        ),
{
    let marker = text::to_chars("robloxplayerbeta");
    let first: usize = match first_player(processes, marker.as_slice()) {
        Some(at) => at,
        None => {
            return Ok(None);
        },
    };
    match log {
        Some(text) => match scan_log(text.as_str()) {
            LogScan::Joined(place) => {
                return Ok(Some(game(place)));
            },
            LogScan::Disconnected => {
                return Ok(None);
            },
            LogScan::Quiet => {},
        },
        None => {},
    }
    let mut i: usize = first;
    while i < processes.len()
        invariant
            first <= i <= processes.len(),
            marker@ == "robloxplayerbeta"@,
            player_runs(processes@),
            session(*log) == LogScan::Quiet,
            forall|earlier: int| 0 <= earlier < i ==> !launches(#[trigger] processes@[earlier]),
        decreases processes.len() - i,
    {
        let process = &processes[i];
        let lowered = text::to_chars(process.lowered.as_str());
        if text::find(lowered.as_slice(), marker.as_slice()).is_some() {
            match place_argument(process.cmdline.as_str()) {
                Some(place) => {
                    proof {
                        assert(is_first_launch(processes@, i as int));
                        let chosen = choose|at: int| is_first_launch(processes@, at);
                        if chosen < i {
                            assert(!launches(processes@[chosen]));
                        }
                        if i < chosen {
                            assert(launches(processes@[i as int]));
                        }
                    }
                    return Ok(Some(game(place)));
                },
                None => {},
            }
        }
        i += 1;
    }
    proof {
        if exists|at: int| is_first_launch(processes@, at) {
            let at = choose|at: int| is_first_launch(processes@, at);
            assert(launches(processes@[at]));
        }
    }
    Ok(None)
}

/// What the games catalog tells of one game.
#[derive(Debug, Clone)]
pub struct Game {
    pub name: String,
    pub description: String,
    /// The name of the game's creator.
    pub creator: String,
    pub root_place_id: i64,
}

/// The answers of Roblox's catalogs, one for each stage of the resolution.
/// The first stage turns the place into its universe; the requests of the
/// other three are made with that universe.
#[derive(Debug, Clone)]
pub struct Replies {
    /// The universe of the place.
    pub universe: Reply<i64>,
    /// The addresses of the universe's icons.
    pub icons: Reply<Vec<String>>,
    /// The addresses of the universe's thumbnails.
    pub thumbnails: Reply<Vec<String>>,
    /// The games of the universe.
    pub games: Reply<Vec<Game>>,
}

/// The address that tells the universe of a place.
pub open spec fn universe_url_of(place: int) -> Seq<char> {
    "https://apis.roblox.com/universes/v1/places/"@ + text::decimal(place) + "/universe"@
}

/// The address that tells the icons of a universe.
pub open spec fn icons_url_of(universe: int) -> Seq<char> {
    "https://thumbnails.roblox.com/v1/games/icons?universeIds="@ + text::decimal(universe)
        + "&size=50x50&format=png"@
}

/// The address that tells the thumbnails of a universe.
pub open spec fn thumbnails_url_of(universe: int) -> Seq<char> {
    "https://thumbnails.roblox.com/v1/games/multiget/thumbnails?universeIds="@ + text::decimal(
        universe,
    ) + "&size=768x432&format=png&countPerUniverse=1"@
}

/// The address that tells the games of a universe.
pub open spec fn games_url_of(universe: int) -> Seq<char> {
    "https://games.roblox.com/v1/games?universeIds="@ + text::decimal(universe)
}

/// The address that tells the universe of a place.
pub fn universe_url(place: i64) -> (url: String)
    ensures
        url@ == universe_url_of(place as int),
{
    let mut url = "https://apis.roblox.com/universes/v1/places/".to_owned();
    url.append(text::decimal_i64(place).as_str());
    url.append("/universe");
    url
}

/// The address that tells the icons of a universe.
pub fn icons_url(universe: i64) -> (url: String)
    ensures
        url@ == icons_url_of(universe as int),
{
    let mut url = "https://thumbnails.roblox.com/v1/games/icons?universeIds=".to_owned();
    url.append(text::decimal_i64(universe).as_str());
    url.append("&size=50x50&format=png");
    url
}

/// The address that tells the thumbnails of a universe.
pub fn thumbnails_url(universe: i64) -> (url: String)
    ensures
        url@ == thumbnails_url_of(universe as int),
{
    let mut url =
        "https://thumbnails.roblox.com/v1/games/multiget/thumbnails?universeIds=".to_owned();
    url.append(text::decimal_i64(universe).as_str());
    url.append("&size=768x432&format=png&countPerUniverse=1");
    url
}

/// The address that tells the games of a universe.
pub fn games_url(universe: i64) -> (url: String)
    ensures
        url@ == games_url_of(universe as int),
{
    let mut url = "https://games.roblox.com/v1/games?universeIds=".to_owned();
    url.append(text::decimal_i64(universe).as_str());
    url
}

/// What a stage that answers with a list is worth: the first item of the
/// list; an empty list has not the expected shape.
pub open spec fn first_of<T>(reply: Reply<Vec<T>>) -> Result<T, FetchError> {
    match reply.outcome() {
        Ok(items) => if items@.len() > 0 {
            Ok(items@[0])
        } else {
            Err(FetchError::SchemaMismatch)
        },
        Err(e) => Err(e),
    }
}

/// The first stage: the universe of the place.
pub fn universe_of(reply: &Reply<i64>) -> (universe: Result<i64, FetchError>)
    ensures
        universe == reply.outcome(),
{
    match reply.body() {
        Ok(universe) => Ok(*universe),
        Err(e) => Err(e),
    }
}

/// A later stage: the first item of the list that the catalog answered with.
pub fn first_item<T>(reply: &Reply<Vec<T>>) -> (item: Result<&T, FetchError>)
    ensures
        match item {
            Ok(first) => first_of(*reply) == Ok::<T, FetchError>(*first),
            Err(e) => first_of(*reply) == Err::<T, FetchError>(e),
        },
{
    match reply.body() {
        Ok(items) => if items.len() > 0 {
            Ok(&items[0])
        } else {
            Err(FetchError::SchemaMismatch)
        },
        Err(e) => Err(e),
    }
}

/// The metadata that the last three stages give.
pub open spec fn info_of(icon: String, thumbnail: String, game: Game) -> GameInfoView {
    GameInfoView {
        app_id: None,
        via_platform: GamePlatform::Roblox,
        name: game.name@,
        description: game.description@,
        cover: thumbnail@,
        icon: icon@,
        developers: seq![game.creator@],
        publishers: seq![game.creator@],
        required_age: None,
        url: place_url(game.root_place_id as int),
    }
}

/// What `fetch_info` returns: the stages in their order, the first that
/// fails deciding the error.
pub open spec fn resolution(detected: DetectedGame, replies: Replies) -> Result<
    GameInfoView,
    FetchError,
> {
    if !(detected is Roblox) {
        Err(FetchError::UnsupportedForVariant)
    } else {
        match replies.universe.outcome() {
            Err(e) => Err(e),
            Ok(_) => match first_of(replies.icons) {
                Err(e) => Err(e),
                Ok(icon) => match first_of(replies.thumbnails) {
                    Err(e) => Err(e),
                    Ok(thumbnail) => match first_of(replies.games) {
                        Err(e) => Err(e),
                        Ok(game) => Ok(info_of(icon, thumbnail, game)),
                    },
                },
            },
        }
    }
}

/// The metadata of a Roblox game, from the answers of the four stages.
pub fn fetch_info(detected: &DetectedGame, replies: &Replies) -> (r: Result<GameInfo, FetchError>)
    ensures
        match r {
            Ok(info) => resolution(*detected, *replies) == Ok::<GameInfoView, FetchError>(info@),
            Err(e) => resolution(*detected, *replies) == Err::<GameInfoView, FetchError>(e),
        },
{
    match detected {
        DetectedGame::Roblox { .. } => {},
        _ => {
            return Err(FetchError::UnsupportedForVariant);
        },
    }
    match universe_of(&replies.universe) {
        Ok(_) => {},
        Err(e) => {
            return Err(e);
        },
    }
    let icon = match first_item(&replies.icons) {
        Ok(icon) => icon,
        Err(e) => {
            return Err(e);
        },
    };
    let thumbnail = match first_item(&replies.thumbnails) {
        Ok(thumbnail) => thumbnail,
        Err(e) => {
            return Err(e);
        },
    };
    let game = match first_item(&replies.games) {
        Ok(game) => game,
        Err(e) => {
            return Err(e);
        },
    };
    let mut url = "https://roblox.com/games/".to_owned();
    url.append(text::decimal_i64(game.root_place_id).as_str());
    let mut developers: Vec<String> = Vec::new();
    developers.push(game.creator.clone());
    let mut publishers: Vec<String> = Vec::new();
    publishers.push(game.creator.clone());
    let info = GameInfo {
        app_id: None,
        via_platform: GamePlatform::Roblox,
        name: game.name.clone(),
        description: game.description.clone(),
        cover: thumbnail.clone(),
        icon: icon.clone(),
        developers,
        publishers,
        required_age: None,
        url,
    };
    assert(info@.publishers =~= seq![game.creator@]);
    Ok(info)
}

} // verus!
