//! Detection of the game that is being played, from a snapshot of the running
//! processes and the local state of the installed game platforms, and the
//! rules that turn a detected game into its metadata.
//!
//! Nothing here reads a file, a registry, a database or the network. The
//! caller reads; the functions of this crate decide. One detection pass is a
//! short dialogue: `detect_game` looks for a custom game and otherwise names
//! the first probe to run, the caller reads that platform's local state and
//! runs the probe of `platforms`, and `next_step` says whether the pass is
//! over or which probe comes next.

pub mod pattern;
pub mod platforms;
pub mod text;

use crate::platforms::{gamejolt, itchio, lutris, minecraft, roblox, steam};
use vstd::prelude::*;
use vstd::std_specs::cmp::PartialEqSpec;
use vstd::std_specs::cmp::PartialEqSpecImpl;

verus! {

/// Where the metadata of a game came from.
#[derive(Debug, Clone, Copy, PartialEq, Eq, Hash, Structural)]
pub enum GamePlatform {
    MinecraftLauncher,
    Steam,
    GameJolt,
    ItchIo,
    Lutris,
    Roblox,
    Custom,
}

/// The metadata of a game. A text that is not known is empty; a number that
/// is not known is `None`.
#[derive(Debug, Clone, PartialEq, Eq, Hash)]
pub struct GameInfo {
    /// The id of the game in the Steam store, where the platform gives one.
    pub app_id: Option<i64>,
    pub via_platform: GamePlatform,
    pub name: String,
    pub description: String,
    pub cover: String,
    pub icon: String,
    pub developers: Vec<String>,
    pub publishers: Vec<String>,
    pub required_age: Option<i32>,
    pub url: String,
}

/// What a `GameInfo` says.
pub struct GameInfoView {
    pub app_id: Option<i64>,
    pub via_platform: GamePlatform,
    pub name: Seq<char>,
    pub description: Seq<char>,
    pub cover: Seq<char>,
    pub icon: Seq<char>,
    pub developers: Seq<Seq<char>>,
    pub publishers: Seq<Seq<char>>,
    pub required_age: Option<i32>,
    pub url: Seq<char>,
}

impl View for GameInfo {
    type V = GameInfoView;

    open spec fn view(&self) -> GameInfoView {
        GameInfoView {
            app_id: self.app_id,
            via_platform: self.via_platform,
            name: self.name@,
            description: self.description@,
            cover: self.cover@,
            icon: self.icon@,
            developers: text::views(self.developers@),
            publishers: text::views(self.publishers@),
            required_age: self.required_age,
            url: self.url@,
        }
    }
}

/// The game that one detection pass found: the platform, what identifies the
/// game there, and what the platform's local state already told of it.
#[derive(Debug, Clone, Eq)]
pub enum DetectedGame {
    Steam { id: i64, url: String, icon: String },
    GameJolt {
        id: i64,
        url: String,
        name: String,
        cover: String,
        icon: String,
        developers: Vec<String>,
        publishers: Vec<String>,
    },
    ItchIo {
        id: i64,
        url: String,
        name: String,
        description: String,
        cover: String,
        icon: String,
        developers: Vec<String>,
        publishers: Vec<String>,
    },
    Lutris { id: i64, slug: String, name: String, cover: String, icon: String },
    Roblox { id: i64, url: String },
    Minecraft { cover: String, icon: String },
    MinecraftDungeons { cover: String, icon: String },
    MinecraftLegends { cover: String, icon: String },
    Custom(String),
}

/// What a `DetectedGame` says.
pub enum DetectedGameView {
    Steam { id: i64, url: Seq<char>, icon: Seq<char> },
    GameJolt {
        id: i64,
        url: Seq<char>,
        name: Seq<char>,
        cover: Seq<char>,
        icon: Seq<char>,
        developers: Seq<Seq<char>>,
        publishers: Seq<Seq<char>>,
    },
    ItchIo {
        id: i64,
        url: Seq<char>,
        name: Seq<char>,
        description: Seq<char>,
        cover: Seq<char>,
        icon: Seq<char>,
        developers: Seq<Seq<char>>,
        publishers: Seq<Seq<char>>,
    },
    Lutris { id: i64, slug: Seq<char>, name: Seq<char>, cover: Seq<char>, icon: Seq<char> },
    Roblox { id: i64, url: Seq<char> },
    Minecraft { cover: Seq<char>, icon: Seq<char> },
    MinecraftDungeons { cover: Seq<char>, icon: Seq<char> },
    MinecraftLegends { cover: Seq<char>, icon: Seq<char> },
    Custom(Seq<char>),
}

impl View for DetectedGame {
    type V = DetectedGameView;

    open spec fn view(&self) -> DetectedGameView {
        match *self {
            DetectedGame::Steam { id, url, icon } => DetectedGameView::Steam {
                id,
                url: url@,
                icon: icon@,
            },
            DetectedGame::GameJolt {
                id,
                url,
                name,
                cover,
                icon,
                developers,
                publishers,
            } => DetectedGameView::GameJolt {
                id,
                url: url@,
                name: name@,
                cover: cover@,
                icon: icon@,
                developers: text::views(developers@),
                publishers: text::views(publishers@),
            },
            DetectedGame::ItchIo {
                id,
                url,
                name,
                description,
                cover,
                icon,
                developers,
                publishers,
            } => DetectedGameView::ItchIo {
                id,
                url: url@,
                name: name@,
                description: description@,
                cover: cover@,
                icon: icon@,
                developers: text::views(developers@),
                publishers: text::views(publishers@),
            },
            DetectedGame::Lutris { id, slug, name, cover, icon } => DetectedGameView::Lutris {
                id,
                slug: slug@,
                name: name@,
                cover: cover@,
                icon: icon@,
            },
            DetectedGame::Roblox { id, url } => DetectedGameView::Roblox { id, url: url@ },
            DetectedGame::Minecraft { cover, icon } => DetectedGameView::Minecraft {
                cover: cover@,
                icon: icon@,
            },
            DetectedGame::MinecraftDungeons { cover, icon } => DetectedGameView::MinecraftDungeons {
                cover: cover@,
                icon: icon@,
            },
            DetectedGame::MinecraftLegends { cover, icon } => DetectedGameView::MinecraftLegends {
                cover: cover@,
                icon: icon@,
            },
            DetectedGame::Custom(id) => DetectedGameView::Custom(id@),
        }
    }
}

/// What identifies a detected game: the platform with the game's number
/// there, one of the three Minecraft titles, or the id of a custom game.
pub enum GameKey {
    Steam(i64),
    GameJolt(i64),
    ItchIo(i64),
    Lutris(i64),
    Roblox(i64),
    Minecraft,
    MinecraftDungeons,
    MinecraftLegends,
    Custom(Seq<char>),
}

impl DetectedGameView {
    /// What identifies the game; the rest of what the value carries plays no part.
    pub open spec fn key(self) -> GameKey {
        match self {
            DetectedGameView::Steam { id, .. } => GameKey::Steam(id),
            DetectedGameView::GameJolt { id, .. } => GameKey::GameJolt(id),
            DetectedGameView::ItchIo { id, .. } => GameKey::ItchIo(id),
            DetectedGameView::Lutris { id, .. } => GameKey::Lutris(id),
            DetectedGameView::Roblox { id, .. } => GameKey::Roblox(id),
            DetectedGameView::Minecraft { .. } => GameKey::Minecraft,
            DetectedGameView::MinecraftDungeons { .. } => GameKey::MinecraftDungeons,
            DetectedGameView::MinecraftLegends { .. } => GameKey::MinecraftLegends,
            DetectedGameView::Custom(id) => GameKey::Custom(id),
        }
    }
}

/// What identifies a detected game, as a value of its own: a key under which
/// to keep what is known of the game.
#[derive(Debug, Clone, PartialEq, Eq, Hash)]
pub enum Identity {
    Steam(i64),
    GameJolt(i64),
    ItchIo(i64),
    Lutris(i64),
    Roblox(i64),
    Minecraft,
    MinecraftDungeons,
    MinecraftLegends,
    Custom(String),
}

impl View for Identity {
    type V = GameKey;

    open spec fn view(&self) -> GameKey {
        match *self {
            Identity::Steam(id) => GameKey::Steam(id),
            Identity::GameJolt(id) => GameKey::GameJolt(id),
            Identity::ItchIo(id) => GameKey::ItchIo(id),
            Identity::Lutris(id) => GameKey::Lutris(id),
            Identity::Roblox(id) => GameKey::Roblox(id),
            Identity::Minecraft => GameKey::Minecraft,
            Identity::MinecraftDungeons => GameKey::MinecraftDungeons,
            Identity::MinecraftLegends => GameKey::MinecraftLegends,
            Identity::Custom(id) => GameKey::Custom(id@),
        }
    }
}

impl DetectedGame {
    /// What identifies the game. Two games are equal where their identities
    /// are the same.
    pub fn identity(&self) -> (identity: Identity)
        ensures
            identity@ == self@.key(),
    {
        match self {
            DetectedGame::Steam { id, .. } => Identity::Steam(*id),
            DetectedGame::GameJolt { id, .. } => Identity::GameJolt(*id),
            DetectedGame::ItchIo { id, .. } => Identity::ItchIo(*id),
            DetectedGame::Lutris { id, .. } => Identity::Lutris(*id),
            DetectedGame::Roblox { id, .. } => Identity::Roblox(*id),
            DetectedGame::Minecraft { .. } => Identity::Minecraft,
            DetectedGame::MinecraftDungeons { .. } => Identity::MinecraftDungeons,
            DetectedGame::MinecraftLegends { .. } => Identity::MinecraftLegends,
            DetectedGame::Custom(id) => Identity::Custom(id.clone()),
        }
    }
}

/// The same thing identifies the two games. This is what `==` means of them.
pub open spec fn same_game(a: DetectedGame, b: DetectedGame) -> bool {
    a@.key() == b@.key()
}

impl PartialEq for DetectedGame {
    /// Two detected games are equal where the same thing identifies them.
    fn eq(&self, other: &Self) -> (equal: bool) {
        match (self, other) {
            (DetectedGame::Steam { id: a, .. }, DetectedGame::Steam { id: b, .. }) => *a == *b,
            (DetectedGame::GameJolt { id: a, .. }, DetectedGame::GameJolt { id: b, .. }) => *a
                == *b,
            (DetectedGame::ItchIo { id: a, .. }, DetectedGame::ItchIo { id: b, .. }) => *a == *b,
            (DetectedGame::Lutris { id: a, .. }, DetectedGame::Lutris { id: b, .. }) => *a == *b,
            (DetectedGame::Roblox { id: a, .. }, DetectedGame::Roblox { id: b, .. }) => *a == *b,
            (DetectedGame::Minecraft { .. }, DetectedGame::Minecraft { .. }) => true,
            (
                DetectedGame::MinecraftDungeons { .. },
                DetectedGame::MinecraftDungeons { .. },
            ) => true,
            (DetectedGame::MinecraftLegends { .. }, DetectedGame::MinecraftLegends { .. }) => true,
            (DetectedGame::Custom(a), DetectedGame::Custom(b)) => *a == *b,
            _ => false,
        }
    }
}

impl PartialEqSpecImpl for DetectedGame {
    open spec fn obeys_eq_spec() -> bool {
        true
    }

    open spec fn eq_spec(&self, other: &Self) -> bool {
        same_game(*self, *other)
    }
}

/// One running process of the snapshot.
#[derive(Debug, Clone)]
pub struct Process {
    pub pid: i32,
    /// The command line, its arguments joined by one space each.
    pub cmdline: String,
    /// The command line in lower case, which the probes search.
    pub lowered: String,
}

impl Process {
    /// `lowered` is the lower case of `cmdline`, as `new` and `from_args` make it.
    pub open spec fn wf(&self) -> bool {
        self.lowered@ == text::lowercase(self.cmdline@)
    }

    /// A process with its command line.
    pub fn new(pid: i32, cmdline: String) -> (process: Process)
        ensures
            process.pid == pid,
            process.cmdline@ == cmdline@,
            process.wf(),
    {
        let lowered = text::to_lowercase(cmdline.as_str());
        Process { pid, cmdline, lowered }
    }

    /// A process with the arguments of its command line.
    pub fn from_args(pid: i32, args: &Vec<String>) -> (process: Process)
        ensures
            process.pid == pid,
            process.cmdline@ == text::join(text::views(args@), seq![' ']),
            process.wf(),
    {
        proof {
            reveal_strlit(" ");
        }
        let cmdline = text::join_strings(args, " ");
        assert(" "@ =~= seq![' ']);
        Process::new(pid, cmdline)
    }
}

/// The process at `at` has `needle` in its lowered command line.
pub open spec fn contains_at(processes: Seq<Process>, needle: Seq<char>, at: int) -> bool {
    0 <= at < processes.len() && text::contains(processes[at].lowered@, needle)
}

/// Some process has `needle` in its lowered command line.
pub open spec fn any_contains(processes: Seq<Process>, needle: Seq<char>) -> bool {
    exists|at: int| contains_at(processes, needle, at)
}

/// Whether some process has `needle` in its lowered command line.
pub fn any_process_contains(processes: &Vec<Process>, needle: &str) -> (found: bool)
    ensures
        found == any_contains(processes@, needle@),
{
    let needle_chars = text::to_chars(needle);
    let mut i: usize = 0;
    while i < processes.len()
        invariant
            i <= processes.len(),
            needle_chars@ == needle@,
            forall|at: int| 0 <= at < i ==> !contains_at(processes@, needle@, at),
        decreases processes.len() - i,
    {
        let lowered = text::to_chars(processes[i].lowered.as_str());
        if text::find(lowered.as_slice(), needle_chars.as_slice()).is_some() {
            assert(contains_at(processes@, needle@, i as int));
            return true;
        }
        i += 1;
    }
    false
}

/// Why a detection pass was given up: the local state of a platform is there
/// but cannot be read, or has not the shape that this platform's client writes.
#[derive(Debug, Clone, Copy, PartialEq, Eq, Structural)]
pub enum DetectError {
    MalformedLocalState(GamePlatform),
}

/// Why the metadata of a detected game could not be had.
#[derive(Debug, Clone, Copy, PartialEq, Eq, Structural)]
pub enum FetchError {
    /// The request failed, or the answer had no success status.
    NetworkFailure,
    /// The answer had not the shape that the catalog is known to give.
    SchemaMismatch,
    /// The operation is not for this variant of `DetectedGame`, or was given
    /// another platform's answers.
    UnsupportedForVariant,
}

/// What came back from one request to a catalog.
#[derive(Debug, Clone)]
pub enum Reply<T> {
    /// Nothing: the request could not be sent, or the body could not be read.
    Unreachable,
    /// An answer with its status code. `body` is `None` where the body was
    /// not of the expected shape.
    Answer { status: u16, body: Option<T> },
}

/// The status codes that stand for success.
pub open spec fn is_success(status: u16) -> bool {
    200 <= status < 300
}

impl<T> Reply<T> {
    /// What a reply is worth: its body where the answer succeeded and had the
    /// expected shape, and else the reason why it is of no use.
    pub open spec fn outcome(self) -> Result<T, FetchError> {
        match self {
            Reply::Unreachable => Err(FetchError::NetworkFailure),
            Reply::Answer { status, body } => if !is_success(status) {
                Err(FetchError::NetworkFailure)
            } else {
                match body {
                    Some(value) => Ok(value),
                    None => Err(FetchError::SchemaMismatch),
                }
            },
        }
    }

    /// The body of the reply, or why there is none to use.
    pub fn body(&self) -> (r: Result<&T, FetchError>)
        ensures
            match r {
                Ok(value) => self.outcome() == Ok::<T, FetchError>(*value),
                Err(e) => self.outcome() == Err::<T, FetchError>(e),
            },
    {
        match self {
            Reply::Unreachable => Err(FetchError::NetworkFailure),
            Reply::Answer { status, body } => {
                if *status < 200 || *status >= 300 {
                    Err(FetchError::NetworkFailure)
                } else {
                    match body {
                        Some(value) => Ok(value),
                        None => Err(FetchError::SchemaMismatch),
                    }
                }
            },
        }
    }
}

/// What a probe found, as what the found game says.
pub open spec fn found_view(found: Option<DetectedGame>) -> Option<DetectedGameView> {
    match found {
        Some(game) => Some(game@),
        None => None,
    }
}

/// The outcome of a probe, as what the found game says.
pub open spec fn outcome_view(outcome: Result<Option<DetectedGame>, DetectError>) -> Result<
    Option<DetectedGameView>,
    DetectError,
> {
    match outcome {
        Ok(found) => Ok(found_view(found)),
        Err(e) => Err(e),
    }
}

/// The probes, in the order in which a pass runs them.
#[derive(Debug, Clone, Copy, PartialEq, Eq, Structural)]
pub enum Probe {
    Steam,
    ItchIo,
    GameJolt,
    Lutris,
    Roblox,
    Minecraft,
}

impl Probe {
    /// The place of the probe in the order of a pass.
    pub open spec fn rank(self) -> int {
        match self {
            Probe::Steam => 0,
            Probe::ItchIo => 1,
            Probe::GameJolt => 2,
            Probe::Lutris => 3,
            Probe::Roblox => 4,
            Probe::Minecraft => 5,
        }
    }
}

/// The probes that a deployment runs.
#[derive(Debug, Clone, Copy, PartialEq, Eq, Structural)]
pub struct Probes {
    pub steam: bool,
    pub itchio: bool,
    pub gamejolt: bool,
    /// Lutris exists on POSIX systems only.
    pub lutris: bool,
    pub roblox: bool,
    pub minecraft: bool,
}

impl Probes {
    /// Whether the deployment runs `probe`.
    pub open spec fn runs(self, probe: Probe) -> bool {
        match probe {
            Probe::Steam => self.steam,
            Probe::ItchIo => self.itchio,
            Probe::GameJolt => self.gamejolt,
            Probe::Lutris => self.lutris,
            Probe::Roblox => self.roblox,
            Probe::Minecraft => self.minecraft,
        }
    }

    /// Every probe.
    pub fn all() -> (probes: Probes)
        ensures
            probes == (Probes {
                steam: true,
                itchio: true,
                gamejolt: true,
                lutris: true,
                roblox: true,
                minecraft: true,
            }),
    {
        Probes {
            steam: true,
            itchio: true,
            gamejolt: true,
            lutris: true,
            roblox: true,
            minecraft: true,
        }
    }
}

/// What a pass does next.
#[derive(Debug)]
pub enum Step {
    /// The caller reads the local state of this probe's platform, runs the
    /// probe, and hands its outcome to `next_step`.
    Run(Probe),
    /// The pass is over, with this result.
    Done(Result<Option<DetectedGame>, DetectError>),
}

/// The first probe of the rank `from` or a later one that the deployment runs.
pub open spec fn next_probe(enabled: Probes, from: int) -> Option<Probe> {
    if from <= 0 && enabled.steam {
        Some(Probe::Steam)
    } else if from <= 1 && enabled.itchio {
        Some(Probe::ItchIo)
    } else if from <= 2 && enabled.gamejolt {
        Some(Probe::GameJolt)
    } else if from <= 3 && enabled.lutris {
        Some(Probe::Lutris)
    } else if from <= 4 && enabled.roblox {
        Some(Probe::Roblox)
    } else if from <= 5 && enabled.minecraft {
        Some(Probe::Minecraft)
    } else {
        None
    }
}

/// The step that runs the first probe from the rank `from` on; without one,
/// the pass is over and nothing was detected.
pub open spec fn step_from(enabled: Probes, from: int) -> Step {
    match next_probe(enabled, from) {
        Some(probe) => Step::Run(probe),
        None => Step::Done(Ok(None)),
    }
}

/// The step after the probe `ran` came back with `outcome`: a game or an
/// error ends the pass, and else the next probe runs.
pub open spec fn step_after(
    ran: Probe,
    outcome: Result<Option<DetectedGame>, DetectError>,
    enabled: Probes,
) -> Step {
    match outcome {
        Ok(None) => step_from(enabled, ran.rank() + 1),
        _ => Step::Done(outcome),
    }
}

/// What `next_probe` names is the first probe from `from` on that the
/// deployment runs: it runs, its rank is `from` or more, and no probe between
/// the two runs. Where it names none, none from `from` on runs.
pub proof fn lemma_next_probe_is_first(enabled: Probes, from: int)
    ensures
        match next_probe(enabled, from) {
            Some(probe) => enabled.runs(probe) && from <= probe.rank() && forall|other: Probe|
                from <= other.rank() < probe.rank() ==> !enabled.runs(other),
            None => forall|other: Probe| from <= other.rank() ==> !enabled.runs(other),
        },
{
}

/// A pass runs its probes in the order of their ranks and each at most once:
/// the probe that follows one that found nothing has a higher rank, runs in
/// this deployment, and no probe between the two does.
pub proof fn lemma_pass_keeps_order(ran: Probe, enabled: Probes, next: Probe)
    requires
        step_after(ran, Ok(None), enabled) == Step::Run(next),
    ensures
        ran.rank() < next.rank(),
        enabled.runs(next),
        forall|other: Probe| ran.rank() < other.rank() < next.rank() ==> !enabled.runs(other),
{
    lemma_next_probe_is_first(enabled, ran.rank() + 1);
}

/// A game or an error ends the pass with what the probe gave.
pub proof fn lemma_first_match_wins(
    ran: Probe,
    outcome: Result<Option<DetectedGame>, DetectError>,
    enabled: Probes,
)
    requires
        !(outcome matches Ok(None)),
    ensures
        step_after(ran, outcome, enabled) == Step::Done(outcome),
{
}

/// What the dialogue of a pass comes to from `step` on, where `findings`
/// tells what each probe finds when it is run.
pub open spec fn pass_from(
    step: Step,
    enabled: Probes,
    findings: spec_fn(Probe) -> Result<Option<DetectedGame>, DetectError>,
) -> Result<Option<DetectedGame>, DetectError>
    decreases
        (match step {
            Step::Run(probe) => 6 - probe.rank(),
            Step::Done(_) => 0,
        }),
{
    match step {
        Step::Done(result) => result,
        Step::Run(probe) => pass_from(step_after(probe, findings(probe), enabled), enabled, findings),
    }
}

/// The probe decides a pass: the deployment runs it, it finds a game or
/// fails, and every probe that runs before it finds nothing.
pub open spec fn decides_pass(
    enabled: Probes,
    findings: spec_fn(Probe) -> Result<Option<DetectedGame>, DetectError>,
    probe: Probe,
) -> bool {
    &&& enabled.runs(probe)
    &&& !(findings(probe) matches Ok(None))
    &&& forall|earlier: Probe|
        enabled.runs(earlier) && earlier.rank() < probe.rank() ==> #[trigger] findings(earlier)
            matches Ok(None)
}

/// A pass without a custom game ends with what the first probe, in the order
/// of the ranks, gives that finds a game or fails. The probes behind it have
/// no part in the result: the pass never reaches them.
pub proof fn lemma_pass_ends_at_the_first_match(
    enabled: Probes,
    findings: spec_fn(Probe) -> Result<Option<DetectedGame>, DetectError>,
    probe: Probe,
)
    requires
        decides_pass(enabled, findings, probe),
    ensures
        pass_from(step_from(enabled, 0), enabled, findings) == findings(probe),
{
    reveal_with_fuel(pass_from, 8);
}

/// A pass without a custom game in which every probe that runs finds nothing
/// ends with nothing detected.
pub proof fn lemma_pass_without_a_match(
    enabled: Probes,
    findings: spec_fn(Probe) -> Result<Option<DetectedGame>, DetectError>,
)
    requires
        forall|probe: Probe| enabled.runs(probe) ==> #[trigger] findings(probe) matches Ok(None),
    ensures
        pass_from(step_from(enabled, 0), enabled, findings) == Ok::<
            Option<DetectedGame>,
            DetectError,
        >(None),
{
    reveal_with_fuel(pass_from, 8);
}

fn probe_from(enabled: &Probes, from: u8) -> (probe: Option<Probe>)
    ensures
        probe == next_probe(*enabled, from as int),
{
    if from <= 0 && enabled.steam {
        Some(Probe::Steam)
    } else if from <= 1 && enabled.itchio {
        Some(Probe::ItchIo)
    } else if from <= 2 && enabled.gamejolt {
        Some(Probe::GameJolt)
    } else if from <= 3 && enabled.lutris {
        Some(Probe::Lutris)
    } else if from <= 4 && enabled.roblox {
        Some(Probe::Roblox)
    } else if from <= 5 && enabled.minecraft {
        Some(Probe::Minecraft)
    } else {
        None
    }
}

fn rank_of(probe: Probe) -> (rank: u8)
    ensures
        rank == probe.rank(),
{
    match probe {
        Probe::Steam => 0,
        Probe::ItchIo => 1,
        Probe::GameJolt => 2,
        Probe::Lutris => 3,
        Probe::Roblox => 4,
        Probe::Minecraft => 5,
    }
}

/// The custom game at `at` is the first whose text some process has in its
/// command line, the case of letters left aside.
pub open spec fn is_first_custom(
    processes: Seq<Process>,
    custom_games: Seq<(String, String)>,
    at: int,
) -> bool {
    &&& 0 <= at < custom_games.len()
    &&& any_contains(processes, text::lowercase(custom_games[at].1@))
    &&& forall|earlier: int|
        0 <= earlier < at ==> !any_contains(
            processes,
            text::lowercase((#[trigger] custom_games[earlier]).1@),
        )
}

/// The id of the custom game that runs: the first of the mapping, in its
/// order, whose text some process has in its command line.
pub open spec fn custom_game_of(
    processes: Seq<Process>,
    custom_games: Option<Vec<(String, String)>>,
) -> Option<Seq<char>> {
    match custom_games {
        Some(games) => if exists|at: int| is_first_custom(processes, games@, at) {
            Some(games@[choose|at: int| is_first_custom(processes, games@, at)].0@)
        } else {
            None
        },
        None => None,
    }
}

/// Looks for a custom game among the processes.
pub fn detect_custom(custom_games: &Option<Vec<(String, String)>>, processes: &Vec<Process>) -> (found:
    Option<DetectedGame>)
    ensures
        found_view(found) == match custom_game_of(processes@, *custom_games) {
            Some(id) => Some(DetectedGameView::Custom(id)),
            None => None,
        },
{
    let games = match custom_games {
        Some(games) => games,
        None => {
            return None;
        },
    };
    let mut i: usize = 0;
    while i < games.len()
        invariant
            i <= games.len(),
            *custom_games == Some(*games),
            forall|earlier: int|
                0 <= earlier < i ==> !any_contains(
                    processes@,
                    text::lowercase((#[trigger] games@[earlier]).1@),
                ),
        decreases games.len() - i,
    {
        let needle = text::to_lowercase(games[i].1.as_str());
        if any_process_contains(processes, needle.as_str()) {
            proof {
                assert(is_first_custom(processes@, games@, i as int));
                let chosen = choose|at: int| is_first_custom(processes@, games@, at);
                if chosen < i {
                    assert(!any_contains(processes@, text::lowercase(games@[chosen].1@)));
                }
                if i < chosen {
                    assert(any_contains(processes@, text::lowercase(games@[i as int].1@)));
                }
            }
            assert(custom_game_of(processes@, *custom_games) == Some(games@[i as int].0@));
            return Some(DetectedGame::Custom(games[i].0.clone()));
        }
        i += 1;
    }
    proof {
        if exists|at: int| is_first_custom(processes@, games@, at) {
            let at = choose|at: int| is_first_custom(processes@, games@, at);
            assert(any_contains(processes@, text::lowercase(games@[at].1@)));
        }
    }
    None
}

/// Starts a detection pass: a custom game that runs ends it at once, before
/// any probe; else the first probe of the deployment is to run.
pub fn detect_game(
    custom_games: &Option<Vec<(String, String)>>,
    processes: &Vec<Process>,
    enabled: &Probes,
) -> (step: Step)
    ensures
        match custom_game_of(processes@, *custom_games) {
            Some(id) => step matches Step::Done(Ok(Some(game))) && game@
                == DetectedGameView::Custom(id),
            None => step == step_from(*enabled, 0),
        },
{
    match detect_custom(custom_games, processes) {
        Some(game) => Step::Done(Ok(Some(game))),
        None => match probe_from(enabled, 0) {
            Some(probe) => Step::Run(probe),
            None => Step::Done(Ok(None)),
        },
    }
}

/// Goes on with a pass after the probe `ran` came back with `outcome`.
pub fn next_step(
    ran: Probe,
    outcome: Result<Option<DetectedGame>, DetectError>,
    enabled: &Probes,
) -> (step: Step)
    ensures
        step == step_after(ran, outcome, *enabled),
{
    match outcome {
        Ok(None) => match probe_from(enabled, rank_of(ran) + 1) {
            Some(probe) => Step::Run(probe),
            None => Step::Done(Ok(None)),
        },
        other => Step::Done(other),
    }
}

/// The answers of a platform's catalog to the requests that resolving a
/// detected game of that platform asks for.
#[derive(Debug)]
pub enum Remote {
    /// No answers: for the games that are resolved without a request.
    Nothing,
    Steam(Reply<Vec<(i32, steam::App)>>),
    GameJolt(Reply<gamejolt::Page>),
    Lutris(Reply<lutris::Record>),
    Roblox(roblox::Replies),
}

/// The metadata of a custom game: its id as its name, and nothing else.
pub open spec fn custom_info(id: Seq<char>) -> GameInfoView {
    GameInfoView {
        app_id: None,
        via_platform: GamePlatform::Custom,
        name: id,
        description: Seq::empty(),
        cover: Seq::empty(),
        icon: Seq::empty(),
        developers: Seq::empty(),
        publishers: Seq::empty(),
        required_age: None,
        url: Seq::empty(),
    }
}

/// What `get_info` returns: what the game's platform makes of its answers.
/// Answers of another platform, or none where the platform needs them, are
/// a misuse.
pub open spec fn resolution(detected: DetectedGame, remote: Remote) -> Result<
    GameInfoView,
    FetchError,
> {
    match detected {
        DetectedGame::Steam { .. } => match remote {
            Remote::Steam(reply) => steam::resolution(detected, reply),
            _ => Err(FetchError::UnsupportedForVariant),
        },
        DetectedGame::GameJolt { .. } => match remote {
            Remote::GameJolt(reply) => gamejolt::resolution(detected, reply),
            _ => Err(FetchError::UnsupportedForVariant),
        },
        DetectedGame::Lutris { .. } => match remote {
            Remote::Lutris(reply) => lutris::resolution(detected, reply),
            _ => Err(FetchError::UnsupportedForVariant),
        },
        DetectedGame::Roblox { .. } => match remote {
            Remote::Roblox(replies) => roblox::resolution(detected, replies),
            _ => Err(FetchError::UnsupportedForVariant),
        },
        DetectedGame::ItchIo { .. } => itchio::resolution(detected),
        DetectedGame::Minecraft { .. }
        | DetectedGame::MinecraftDungeons { .. }
        | DetectedGame::MinecraftLegends { .. } => minecraft::resolution(detected),
        DetectedGame::Custom(id) => Ok(custom_info(id@)),
    }
}

impl DetectedGame {
    /// The first request that resolving this game asks for, if it asks for any.
    pub open spec fn first_request_of(self) -> Option<Seq<char>> {
        match self {
            DetectedGame::Steam { id, .. } => Some(steam::catalog_url_of(id as int)),
            DetectedGame::GameJolt { id, .. } => Some(gamejolt::catalog_url_of(id as int)),
            DetectedGame::Lutris { slug, .. } => Some(lutris::catalog_url_of(slug@)),
            DetectedGame::Roblox { id, .. } => Some(roblox::universe_url_of(id as int)),
            _ => None,
        }
    }

    /// The address of the first request that resolving this game asks for;
    /// `None` for a game that is resolved from what detection found.
    pub fn first_request(&self) -> (url: Option<String>)
        ensures
            match url {
                Some(address) => self.first_request_of() == Some(address@),
                None => self.first_request_of() is None,
            },
    {
        match self {
            DetectedGame::Steam { id, .. } => Some(steam::catalog_url(*id)),
            DetectedGame::GameJolt { id, .. } => Some(gamejolt::catalog_url(*id)),
            DetectedGame::Lutris { slug, .. } => Some(lutris::catalog_url(slug.as_str())),
            DetectedGame::Roblox { id, .. } => Some(roblox::universe_url(*id)),
            _ => None,
        }
    }

    /// The metadata of the game, from the answers of its platform's catalog.
    pub fn get_info(&self, remote: &Remote) -> (r: Result<GameInfo, FetchError>)
        ensures
            match r {
                Ok(info) => resolution(*self, *remote) == Ok::<GameInfoView, FetchError>(info@),
                Err(e) => resolution(*self, *remote) == Err::<GameInfoView, FetchError>(e),
            },
    {
        match self {
            DetectedGame::Steam { .. } => match remote {
                Remote::Steam(reply) => steam::fetch_info(self, reply),
                _ => Err(FetchError::UnsupportedForVariant),
            },
            DetectedGame::GameJolt { .. } => match remote {
                Remote::GameJolt(reply) => gamejolt::fetch_info(self, reply),
                _ => Err(FetchError::UnsupportedForVariant),
            },
            DetectedGame::Lutris { .. } => match remote {
                Remote::Lutris(reply) => lutris::fetch_info(self, reply),
                _ => Err(FetchError::UnsupportedForVariant),
            },
            DetectedGame::Roblox { .. } => match remote {
                Remote::Roblox(replies) => roblox::fetch_info(self, replies),
                _ => Err(FetchError::UnsupportedForVariant),
            },
            DetectedGame::ItchIo { .. } => itchio::fetch_info(self),
            DetectedGame::Minecraft { .. } => minecraft::fetch_info(self),
            DetectedGame::MinecraftDungeons { .. } => minecraft::fetch_info(self),
            DetectedGame::MinecraftLegends { .. } => minecraft::fetch_info(self),
            DetectedGame::Custom(id) => {
                let info = GameInfo {
                    app_id: None,
                    via_platform: GamePlatform::Custom,
                    name: id.clone(),
                    description: String::new(),
                    cover: String::new(),
                    icon: String::new(),
                    developers: Vec::new(),
                    publishers: Vec::new(),
                    required_age: None,
                    url: String::new(),
                };
                assert(info@.publishers =~= Seq::<Seq<char>>::empty());
                Ok(info)
            },
        }
    }
}

/// Equality of detected games goes by what identifies them: two values of
/// one platform are equal where their numbers are, whatever else they carry;
/// two of one Minecraft title are always equal; two custom games are equal
/// where their ids are; values of different variants never are.
pub proof fn lemma_equality_is_identity(a: DetectedGame, b: DetectedGame)
    ensures
        PartialEqSpec::eq_spec(&a, &b) == same_game(a, b),
        a is Steam && b is Steam ==> (same_game(a, b) <==> a->Steam_id == b->Steam_id),
        a is GameJolt && b is GameJolt ==> (same_game(a, b) <==> a->GameJolt_id
            == b->GameJolt_id),
        a is ItchIo && b is ItchIo ==> (same_game(a, b) <==> a->ItchIo_id == b->ItchIo_id),
        a is Lutris && b is Lutris ==> (same_game(a, b) <==> a->Lutris_id == b->Lutris_id),
        a is Roblox && b is Roblox ==> (same_game(a, b) <==> a->Roblox_id == b->Roblox_id),
        a is Minecraft && b is Minecraft ==> same_game(a, b),
        a is MinecraftDungeons && b is MinecraftDungeons ==> same_game(a, b),
        a is MinecraftLegends && b is MinecraftLegends ==> same_game(a, b),
        a is Custom && b is Custom ==> (same_game(a, b) <==> a->Custom_0@ == b->Custom_0@),
{
}

/// Equality of detected games is an equivalence.
pub proof fn lemma_equality_is_equivalence(a: DetectedGame, b: DetectedGame, c: DetectedGame)
    ensures
        same_game(a, a),
        same_game(a, b) ==> same_game(b, a),
        same_game(a, b) && same_game(b, c) ==> same_game(a, c),
{
}

} // verus!
