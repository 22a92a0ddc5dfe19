//! Game Jolt: the package that the client records as running, and the game's
//! page with its description.

use crate::text;
use crate::{
    outcome_view, DetectError, DetectedGame, DetectedGameView, FetchError, GameInfo, GameInfoView,
    GamePlatform, Process, Reply,
};
use vstd::prelude::*;

verus! {

/// A mark on a run of text.
#[derive(Debug)]
pub enum MarkdownMark {
    Link { href: String },
    Bold,
    Italic,
    /// A tag, which leaves no trace in the rendered text.
    Tag,
}

/// A node of a description.
#[derive(Debug)]
pub enum MarkdownTag {
    Paragraph { content: Vec<MarkdownTag> },
    Text { marks: Option<Vec<MarkdownMark>>, text: String },
    HardBreak,
    BulletList { content: Vec<MarkdownTag> },
    ListItem { content: Vec<MarkdownTag> },
}

/// What stands before the content of a list item: the bullet, which the site
/// writes as the three characters U+00E2, U+20AC and U+00A2, and a space.
pub open spec fn bullet() -> Seq<char> {
    "\u{e2}\u{20ac}\u{a2} "@
}

/// What stands before each item of a list: four spaces.
pub open spec fn indentation() -> Seq<char> {
    "    "@
}

/// A text with one mark laid around it.
pub open spec fn marked(text: Seq<char>, mark: MarkdownMark) -> Seq<char> {
    match mark {
        MarkdownMark::Link { href } => "["@ + text + "]("@ + href@ + ")"@,
        MarkdownMark::Bold => "**"@ + text + "**"@,
        MarkdownMark::Italic => "*"@ + text + "*"@,
        MarkdownMark::Tag => text,
    }
}

/// A text with marks laid around it, the first innermost.
pub open spec fn marked_all(text: Seq<char>, marks: Seq<MarkdownMark>) -> Seq<char>
    decreases marks.len(),
{
    if marks.len() == 0 {
        text
    } else {
        marked(marked_all(text, marks.drop_last()), marks.last())
    }
}

impl MarkdownTag {
    /// The node as flat markup. A paragraph is its children in a row and a
    /// line feed. A text carries its marks, laid around it in their order. A
    /// hard break is a line feed. A list is its items, each indented, with a
    /// line feed between each two and none at the end. A list item is the
    /// bullet and its children with a line feed between each two.
    pub open spec fn rendered(self) -> Seq<char>
        decreases self,
    {
        match self {
            MarkdownTag::Paragraph { content } => text::concat(rendered_each(content)) + "\n"@,
            MarkdownTag::Text { marks, text } => match marks {
                Some(marks) => marked_all(text@, marks@),
                None => text@,
            },
            MarkdownTag::HardBreak => "\n"@,
            MarkdownTag::BulletList { content } => text::join(
                indented(rendered_each(content)),
                "\n"@,
            ),
            MarkdownTag::ListItem { content } => bullet() + text::join(
                rendered_each(content),
                "\n"@,
            ),
        }
    }
}

/// Each node of a list as flat markup.
pub open spec fn rendered_each(tags: Vec<MarkdownTag>) -> Seq<Seq<char>>
    decreases tags,
{
    Seq::new(
        tags.len() as nat,
        |i: int|
            if 0 <= i < tags.len() {
                tags[i].rendered()
            } else {
                Seq::empty()
            },
    )
}

/// A description: a list of nodes, one below the other.
#[derive(Debug)]
pub struct Description {
    pub content: Vec<MarkdownTag>,
}

impl Description {
    /// The description as flat markup: its nodes, a line feed between each two.
    pub open spec fn rendered(self) -> Seq<char> {
        text::join(rendered_each(self.content), "\n"@)
    }

    /// Renders the description as flat markup.
    pub fn to_string(&self) -> (out: String)
        ensures
            out@ == self.rendered(),
    {
        let parts = render_each(&self.content);
        text::join_strings(&parts, "\n")
    }
}

/// Each text with the indentation of a list in front of it.
pub open spec fn indented(items: Seq<Seq<char>>) -> Seq<Seq<char>> {
    items.map_values(|item: Seq<char>| indentation() + item)
}

fn indent(items: &Vec<String>) -> (out: Vec<String>)
    ensures
        text::views(out@) == indented(text::views(items@)),
{
    let mut out: Vec<String> = Vec::new();
    let mut i: usize = 0;
    while i < items.len()
        invariant
            i <= items.len(),
            text::views(out@) == indented(text::views(items@)).take(i as int),
        decreases items.len() - i,
    {
        let mut item = "    ".to_owned();
        item.append(items[i].as_str());
        out.push(item);
        assert(indented(text::views(items@)).take(i + 1) =~= indented(text::views(items@)).take(
            i as int,
        ).push("    "@ + items@[i as int]@));
        i += 1;
    }
    out
}

fn lay_mark(text: String, around: &MarkdownMark) -> (out: String)
    ensures
        out@ == marked(text@, *around),
{
    match around {
        MarkdownMark::Link { href } => {
            let mut out = "[".to_owned();
            out.append(text.as_str());
            out.append("](");
            out.append(href.as_str());
            out.append(")");
            out
        },
        MarkdownMark::Bold => {
            let mut out = "**".to_owned();
            out.append(text.as_str());
            out.append("**");
            out
        },
        MarkdownMark::Italic => {
            let mut out = "*".to_owned();
            out.append(text.as_str());
            out.append("*");
            out
        },
        MarkdownMark::Tag => text,
    }
}

fn mark_all(text: &String, marks: &Vec<MarkdownMark>) -> (out: String)
    ensures
        out@ == marked_all(text@, marks@),
{
    let mut out = text.clone();
    let mut i: usize = 0;
    while i < marks.len()
        invariant
            i <= marks.len(),
            out@ == marked_all(text@, marks@.take(i as int)),
        decreases marks.len() - i,
    {
        assert(marks@.take(i + 1).drop_last() =~= marks@.take(i as int));
        out = lay_mark(out, &marks[i]);
        i += 1;
    }
    assert(marks@.take(i as int) =~= marks@);
    out
}

fn render_each(tags: &Vec<MarkdownTag>) -> (out: Vec<String>)
    ensures
        text::views(out@) == rendered_each(*tags),
    decreases tags,
{
    let mut out: Vec<String> = Vec::new();
    let mut i: usize = 0;
    while i < tags.len()
        invariant
            i <= tags.len(),
            text::views(out@) == rendered_each(*tags).take(i as int),
        decreases tags.len() - i,
    {
        let item = tags[i].to_string();
        out.push(item);
        assert(rendered_each(*tags).take(i + 1) =~= rendered_each(*tags).take(i as int).push(
            tags[i as int].rendered(),
        ));
        i += 1;
    }
    out
}

impl MarkdownTag {
    /// Renders the node as flat markup.
    pub fn to_string(&self) -> (out: String)
        ensures
            out@ == self.rendered(),
        decreases self,
    {
        match self {
            MarkdownTag::Paragraph { content } => {
                let parts = render_each(content);
                let mut out = text::concat_strings(&parts);
                out.append("\n");
                out
            },
            MarkdownTag::Text { marks, text } => match marks {
                Some(marks) => mark_all(text, marks),
                None => text.clone(),
            },
            MarkdownTag::HardBreak => "\n".to_owned(),
            MarkdownTag::BulletList { content } => {
                let parts = render_each(content);
                let items = indent(&parts);
                text::join_strings(&items, "\n")
            },
            MarkdownTag::ListItem { content } => {
                let parts = render_each(content);
                let mut out = "\u{e2}\u{20ac}\u{a2} ".to_owned();
                out.append(text::join_strings(&parts, "\n").as_str());
                out
            },
        }
    }
}

/// A package of the client's catalog of installed packages.
#[derive(Debug, Clone)]
pub struct Package {
    pub game_id: i64,
    /// While the package runs: two characters, then the process id in decimal.
    pub running_pid: Option<String>,
}

/// A game of the client's catalog of games.
#[derive(Debug, Clone)]
pub struct Game {
    pub title: String,
    /// The name that the developer shows.
    pub developer: String,
    pub slug: Option<String>,
    /// The address of the header image.
    pub header: String,
    /// The address of the thumbnail.
    pub thumbnail: String,
}

/// What the caller found of the client's data directory.
#[derive(Debug, Clone)]
pub enum ClientData {
    /// There is no data directory: the client is not installed.
    Absent,
    /// There is one, but a catalog in it could not be read or is not in the
    /// client's format.
    Unreadable,
    /// The two catalogs: the packages, and the games with their ids.
    Catalogs { packages: Vec<Package>, games: Vec<(i64, Game)> },
}

/// The process id that a `running_pid` writes behind its two leading characters.
pub open spec fn running_pid_of(text: Seq<char>) -> Option<i32> {
    if text.len() < 2 {
        None
    } else {
        text::parse_i32(text.subrange(2, text.len() as int))
    }
}

/// A process of the snapshot has this id.
pub open spec fn pid_runs(processes: Seq<Process>, pid: i32) -> bool {
    exists|at: int| 0 <= at < processes.len() && (#[trigger] processes[at]).pid == pid
}

/// The game at `at` is the first of the catalog with the id `id`.
pub open spec fn is_first_game(games: Seq<(i64, Game)>, id: i64, at: int) -> bool {
    &&& 0 <= at < games.len()
    &&& games[at].0 == id
    &&& forall|earlier: int| 0 <= earlier < at ==> (#[trigger] games[earlier]).0 != id
}

/// The catalog knows a game of the id `id`.
pub open spec fn knows_game(games: Seq<(i64, Game)>, id: i64) -> bool {
    exists|at: int| is_first_game(games, id, at)
}

/// The package ends the walk through the catalog: it records a process that
/// is no number, or one of the snapshot while the catalog knows its game.
pub open spec fn decides(processes: Seq<Process>, games: Seq<(i64, Game)>, package: Package) -> bool {
    match package.running_pid {
        Some(text) => match running_pid_of(text@) {
            Some(pid) => pid_runs(processes, pid) && knows_game(games, package.game_id),
            None => true,
        },
        None => false,
    }
}

/// The package at `at` is the first that ends the walk.
pub open spec fn is_first_deciding(
    processes: Seq<Process>,
    games: Seq<(i64, Game)>,
    packages: Seq<Package>,
    at: int,
) -> bool {
    &&& 0 <= at < packages.len()
    &&& decides(processes, games, packages[at])
    &&& forall|earlier: int|
        0 <= earlier < at ==> !decides(processes, games, #[trigger] packages[earlier])
}

/// The page of a game.
pub open spec fn page_of(slug: Option<String>, id: int) -> Seq<char> {
    "https://gamejolt.com/games/"@ + (match slug {
        Some(slug) => slug@,
        None => "redirect"@,
    }) + "/"@ + text::decimal(id)
}

/// The detected game that stands for a game of the catalog.
pub open spec fn game_of(id: i64, game: Game) -> DetectedGameView {
    DetectedGameView::GameJolt {
        id,
        url: page_of(game.slug, id as int),
        name: game.title@,
        cover: game.thumbnail@,
        icon: game.header@,
        developers: seq![game.developer@],
        publishers: seq![game.developer@],
    }
}

/// What the walk through the packages finds: the game of the first package
/// that runs in the snapshot and whose game the catalog knows; an error where
/// a package before it records a process that is no number.
pub open spec fn walk(processes: Seq<Process>, packages: Seq<Package>, games: Seq<(i64, Game)>) -> Result<
    Option<DetectedGameView>,
    DetectError,
> {
    if exists|at: int| is_first_deciding(processes, games, packages, at) {
        let package = packages[choose|at: int| is_first_deciding(processes, games, packages, at)];
        if running_pid_of(package.running_pid->0@) is Some {
            Ok(
                Some(
                    game_of(
                        package.game_id,
                        games[choose|at: int| is_first_game(games, package.game_id, at)].1,
                    ),
                ),
            )
        } else {
            Err(DetectError::MalformedLocalState(GamePlatform::GameJolt))
        }
    } else {
        Ok(None)
    }
}

/// What the probe finds.
pub open spec fn detection(processes: Seq<Process>, data: ClientData) -> Result<
    Option<DetectedGameView>,
    DetectError,
> {
    match data {
        ClientData::Absent => Ok(None),
        ClientData::Unreadable => Err(DetectError::MalformedLocalState(GamePlatform::GameJolt)),
        ClientData::Catalogs { packages, games } => walk(processes, packages@, games@),
    }
}

/// The process id that a `running_pid` writes.
pub fn running_pid(text: &str) -> (pid: Option<i32>)
    ensures
        pid == running_pid_of(text@),
{
    let chars = text::to_chars(text);
    if chars.len() < 2 {
        None
    } else {
        let digits = vstd::slice::slice_subrange(chars.as_slice(), 2, chars.len());
        text::parse_i32_chars(digits)
    }
}

/// Whether a process of the snapshot has this id.
pub fn has_pid(processes: &Vec<Process>, pid: i32) -> (running: bool)
    ensures
        running == pid_runs(processes@, pid),
{
    let mut i: usize = 0;
    while i < processes.len()
        invariant
            i <= processes.len(),
            forall|at: int| 0 <= at < i ==> (#[trigger] processes@[at]).pid != pid,
        decreases processes.len() - i,
    {
        if processes[i].pid == pid {
            return true;
        }
        i += 1;
    }
    false
}

fn find_game(games: &Vec<(i64, Game)>, id: i64) -> (found: Option<usize>)
    ensures
        match found {
            Some(at) => is_first_game(games@, id, at as int) && at == choose|at: int|
                is_first_game(games@, id, at),
            None => !knows_game(games@, id),
        },
{
    let mut i: usize = 0;
    while i < games.len()
        invariant
            i <= games.len(),
            forall|earlier: int| 0 <= earlier < i ==> (#[trigger] games@[earlier]).0 != id,
        decreases games.len() - i,
    {
        if games[i].0 == id {
            proof {
                assert(is_first_game(games@, id, i as int));
                let chosen = choose|at: int| is_first_game(games@, id, at);
                if chosen < i {
                    assert(games@[chosen].0 != id);
                }
                if i < chosen {
                    assert(games@[i as int].0 == id);
                }
            }
            return Some(i);
        }
        i += 1;
    }
    proof {
        if knows_game(games@, id) {
            let at = choose|at: int| is_first_game(games@, id, at);
            assert(games@[at].0 == id);
        }
    }
    None
}

fn page(slug: &Option<String>, id: i64) -> (url: String)
    ensures
        url@ == page_of(*slug, id as int),
{
    let mut url = "https://gamejolt.com/games/".to_owned();
    match slug {
        Some(slug) => url.append(slug.as_str()),
        None => url.append("redirect"),
    }
    url.append("/");
    url.append(text::decimal_i64(id).as_str());
    url
}

/// The detected game that stands for a game of the catalog.
pub fn game(id: i64, record: &Game) -> (found: DetectedGame)
    ensures
        found@ == game_of(id, *record),
{
    let mut developers: Vec<String> = Vec::new();
    developers.push(record.developer.clone());
    let mut publishers: Vec<String> = Vec::new();
    publishers.push(record.developer.clone());
    let found = DetectedGame::GameJolt {
        id,
        url: page(&record.slug, id),
        name: record.title.clone(),
        cover: record.thumbnail.clone(),
        icon: record.header.clone(),
        developers,
        publishers,
    };
    assert(found@->GameJolt_publishers =~= seq![record.developer@]);
    found
}

/// What one package means for the walk.
enum Verdict {
    /// The walk goes on.
    Pass,
    /// The package records a process that is no number.
    Malformed,
    /// The package runs; its game stands at this place of the catalog.
    Runs(usize),
}

fn judge(processes: &Vec<Process>, games: &Vec<(i64, Game)>, package: &Package) -> (verdict:
    Verdict)
    ensures
        match verdict {
            Verdict::Pass => !decides(processes@, games@, *package),
            Verdict::Malformed => decides(processes@, games@, *package) && running_pid_of(
                package.running_pid->0@,
            ) is None,
            Verdict::Runs(at) => decides(processes@, games@, *package) && running_pid_of(
                package.running_pid->0@,
            ) is Some && at < games.len() && at == choose|at: int|
                is_first_game(games@, package.game_id, at),
        },
{
    match &package.running_pid {
        Some(text) => match running_pid(text.as_str()) {
            Some(pid) => {
                if has_pid(processes, pid) {
                    match find_game(games, package.game_id) {
                        Some(at) => Verdict::Runs(at),
                        None => Verdict::Pass,
                    }
                } else {
                    Verdict::Pass
                }
            },
            None => Verdict::Malformed,
        },
        None => Verdict::Pass,
    }
}

/// The Game Jolt probe: the game of the first package that runs.
pub fn detect_game(processes: &Vec<Process>, data: &ClientData) -> (outcome: Result<
    Option<DetectedGame>,
    DetectError,
>)
    ensures
        outcome_view(outcome) == detection(processes@, *data),
{
    let (packages, games) = match data {
        ClientData::Absent => {
            return Ok(None);
        },
        ClientData::Unreadable => {
            return Err(DetectError::MalformedLocalState(GamePlatform::GameJolt));
        },
        ClientData::Catalogs { packages, games } => (packages, games),
    };
    let mut i: usize = 0;
    while i < packages.len()
        invariant
            i <= packages.len(),
            *data == (ClientData::Catalogs { packages: *packages, games: *games }),
            forall|earlier: int|
                0 <= earlier < i ==> !decides(processes@, games@, #[trigger] packages@[earlier]),
        decreases packages.len() - i,
    {
        let verdict = judge(processes, games, &packages[i]);
        match verdict {
            Verdict::Pass => {},
            _ => {
                proof {
                    assert(is_first_deciding(processes@, games@, packages@, i as int));
                    let chosen = choose|at: int|
                        is_first_deciding(processes@, games@, packages@, at);
                    if chosen < i {
                        assert(!decides(processes@, games@, packages@[chosen]));
                    }
                    if i < chosen {
                        assert(decides(processes@, games@, packages@[i as int]));
                    }
                }
                return match verdict {
                    Verdict::Runs(at) => Ok(Some(game(packages[i].game_id, &games[at].1))),
                    _ => Err(DetectError::MalformedLocalState(GamePlatform::GameJolt)),
                };
            },
        }
        i += 1;
    }
    proof {
        if exists|at: int| is_first_deciding(processes@, games@, packages@, at) {
            let at = choose|at: int| is_first_deciding(processes@, games@, packages@, at);
            assert(decides(processes@, games@, packages@[at]));
        }
    }
    Ok(None)
}

/// What the site tells of one game.
#[derive(Debug)]
pub struct Page {
    pub has_adult_content: bool,
    /// The name that the developer shows, where it shows one.
    pub developer_display_name: Option<String>,
    /// The name of the developer's account.
    pub developer_name: String,
    pub title: String,
    /// The address of the header image.
    pub header: String,
    /// The address of the thumbnail.
    pub thumbnail: String,
    /// The description; `None` where the site sent one that is no description.
    pub description: Option<Description>,
    pub slug: Option<String>,
}

/// The address of the site's record of a game.
pub open spec fn catalog_url_of(id: int) -> Seq<char> {
    "https://gamejolt.com/site-api/web/discover/games/"@ + text::decimal(id)
}

/// The address of the site's record of a game.
pub fn catalog_url(id: i64) -> (url: String)
    ensures
        url@ == catalog_url_of(id as int),
{
    let mut url = "https://gamejolt.com/site-api/web/discover/games/".to_owned();
    url.append(text::decimal_i64(id).as_str());
    url
}

/// The minimum age of a game: 18 with content for adults, 13 without.
pub open spec fn required_age_of(has_adult_content: bool) -> i32 {
    if has_adult_content {
        18
    } else {
        13
    }
}

/// The minimum age of a game.
pub fn required_age(has_adult_content: bool) -> (age: i32)
    ensures
        age == required_age_of(has_adult_content),
{
    if has_adult_content {
        18
    } else {
        13
    }
}

/// The developer's name as the page gives it: the shown name before the account's.
pub open spec fn developer_of(page: Page) -> Seq<char> {
    match page.developer_display_name {
        Some(name) => name@,
        None => page.developer_name@,
    }
}

/// What `fetch_info` returns: the page's record with its description
/// rendered; a page without a readable description has not the expected shape.
pub open spec fn resolution(detected: DetectedGame, reply: Reply<Page>) -> Result<
    GameInfoView,
    FetchError,
> {
    match detected {
        DetectedGame::GameJolt { id, .. } => match reply.outcome() {
            Ok(page) => match page.description {
                Some(description) => Ok(
                    GameInfoView {
                        app_id: None,
                        via_platform: GamePlatform::GameJolt,
                        name: page.title@,
                        description: description.rendered(),
                        cover: page.thumbnail@,
                        icon: page.header@,
                        developers: seq![developer_of(page)],
                        publishers: seq![developer_of(page)],
                        required_age: Some(required_age_of(page.has_adult_content)),
                        url: page_of(page.slug, id as int),
                    },
                ),
                None => Err(FetchError::SchemaMismatch),
            },
            Err(e) => Err(e),
        },
        _ => Err(FetchError::UnsupportedForVariant),
    }
}

/// The metadata of a Game Jolt game, from the site's answer.
pub fn fetch_info(detected: &DetectedGame, reply: &Reply<Page>) -> (r: Result<
    GameInfo,
    FetchError,
>)
    ensures
        match r {
            Ok(info) => resolution(*detected, *reply) == Ok::<GameInfoView, FetchError>(info@),
            Err(e) => resolution(*detected, *reply) == Err::<GameInfoView, FetchError>(e),
        },
{
    match detected {
        DetectedGame::GameJolt { id, .. } => {
            let page_record = match reply.body() {
                Ok(page_record) => page_record,
                Err(e) => {
                    return Err(e);
                },
            };
            let description = match &page_record.description {
                Some(description) => description.to_string(),
                None => {
                    return Err(FetchError::SchemaMismatch);
                },
            };
            let developer = match &page_record.developer_display_name {
                Some(name) => name.clone(),
                None => page_record.developer_name.clone(),
            };
            let mut developers: Vec<String> = Vec::new();
            developers.push(developer.clone());
            let mut publishers: Vec<String> = Vec::new();
            publishers.push(developer);
            let info = GameInfo {
                app_id: None,
                via_platform: GamePlatform::GameJolt,
                name: page_record.title.clone(),
                description,
                cover: page_record.thumbnail.clone(),
                icon: page_record.header.clone(),
                developers,
                publishers,
                required_age: Some(required_age(page_record.has_adult_content)),
                url: page(&page_record.slug, *id),
            };
            assert(info@.publishers =~= seq![developer_of(*page_record)]);
            Ok(info)
        },
        _ => Err(FetchError::UnsupportedForVariant),
    }
}

} // verus!
