//! Steam: the app that the client records as running, and its page in the store.

use crate::text;
use crate::{
    outcome_view, DetectError, DetectedGame, DetectedGameView, FetchError, GameInfo, GameInfoView,
    GamePlatform, Reply,
};
use vstd::prelude::*;

verus! {

/// A value of Steam's key/value store: a number, or a list of named values.
/// The client writes each name of a list once; where a list holds a name
/// twice, the first entry counts.
#[derive(Debug)]
pub enum VDFValue {
    Table(Vec<(String, VDFValue)>),
    Number(i64),
}

/// Why a value has no entry of a given name.
#[derive(Debug, Clone, Copy, PartialEq, Eq, Structural)]
pub enum VdfError {
    /// The value is a list without an entry of that name.
    KeyNotFound,
    /// The value is a number.
    NotAMap,
}

/// The entry at `at` is the first of the name `key`.
pub open spec fn is_first_entry(entries: Seq<(String, VDFValue)>, key: Seq<char>, at: int) -> bool {
    &&& 0 <= at < entries.len()
    &&& entries[at].0@ == key
    &&& forall|earlier: int| 0 <= earlier < at ==> (#[trigger] entries[earlier]).0@ != key
}

/// The list has an entry of the name `key`.
pub open spec fn has_entry(entries: Seq<(String, VDFValue)>, key: Seq<char>) -> bool {
    exists|at: int| is_first_entry(entries, key, at)
}

/// The first entry of the name `key`.
pub open spec fn entry(entries: Seq<(String, VDFValue)>, key: Seq<char>) -> VDFValue {
    entries[choose|at: int| is_first_entry(entries, key, at)].1
}

/// The list as a map from names to values.
pub open spec fn entries_map(entries: Seq<(String, VDFValue)>) -> Map<Seq<char>, VDFValue> {
    Map::new(|key: Seq<char>| has_entry(entries, key), |key: Seq<char>| entry(entries, key))
}

/// No name stands twice in the list, as the client writes it.
pub open spec fn names_distinct(entries: Seq<(String, VDFValue)>) -> bool {
    forall|i: int, j: int|
        0 <= i < j < entries.len() ==> (#[trigger] entries[i]).0@ != (#[trigger] entries[j]).0@
}

/// In a list without a name twice, every entry is the one that its name leads to.
pub proof fn lemma_every_entry_is_found(entries: Seq<(String, VDFValue)>, at: int)
    requires
        names_distinct(entries),
        0 <= at < entries.len(),
    ensures
        entries_map(entries).dom().contains(entries[at].0@),
        entries_map(entries)[entries[at].0@] == entries[at].1,
{
    let key = entries[at].0@;
    assert(is_first_entry(entries, key, at));
    let chosen = choose|first: int| is_first_entry(entries, key, first);
    if chosen < at {
        assert(entries[chosen].0@ != entries[at].0@);
    }
    if at < chosen {
        assert(entries[at].0@ != entries[chosen].0@);
    }
}

impl VDFValue {
    /// What `get` gives for `key`.
    pub open spec fn lookup(self, key: Seq<char>) -> Result<VDFValue, VdfError> {
        match self {
            VDFValue::Table(entries) => if entries_map(entries@).dom().contains(key) {
                Ok(entries_map(entries@)[key])
            } else {
                Err(VdfError::KeyNotFound)
            },
            VDFValue::Number(_) => Err(VdfError::NotAMap),
        }
    }

    /// The entry of the name `key`.
    pub fn get(&self, key: &str) -> (r: Result<&VDFValue, VdfError>)
        ensures
            match r {
                Ok(value) => self.lookup(key@) == Ok::<VDFValue, VdfError>(*value),
                Err(e) => self.lookup(key@) == Err::<VDFValue, VdfError>(e),
            },
    {
        match self {
            VDFValue::Table(entries) => {
                let mut i: usize = 0;
                while i < entries.len()
                    invariant
                        i <= entries.len(),
                        *self == VDFValue::Table(*entries),
                        forall|earlier: int|
                            0 <= earlier < i ==> (#[trigger] entries@[earlier]).0@ != key@,
                    decreases entries.len() - i,
                {
                    if text::str_equal(entries[i].0.as_str(), key) {
                        proof {
                            assert(is_first_entry(entries@, key@, i as int));
                            let chosen = choose|at: int| is_first_entry(entries@, key@, at);
                            if chosen < i {
                                assert(entries@[chosen].0@ != key@);
                            }
                            if i < chosen {
                                assert(entries@[i as int].0@ == key@);
                            }
                        }

                        return Ok(&entries[i].1);
                    }
                    i += 1;
                }
                proof {
                    if has_entry(entries@, key@) {
                        let at = choose|at: int| is_first_entry(entries@, key@, at);
                        assert(entries@[at].0@ == key@);
                    }
                }
                Err(VdfError::KeyNotFound)
            },
            VDFValue::Number(_) => Err(VdfError::NotAMap),
        }
    }
}

/// A value of the Windows registry, as far as the probe tells values apart.
#[derive(Debug, Clone, Copy, PartialEq, Eq, Structural)]
pub enum RegistryData {
    U32(u32),
    U64(u64),
    /// A value of another type.
    Other,
}

/// What the caller found of the store in which the Steam client records the
/// app that is running.
#[derive(Debug)]
pub enum SteamStore {
    /// There is no store: Steam is not installed.
    Absent,
    /// There is a store, but it could not be read or is not in the store's format.
    Unreadable,
    /// The value `RunningAppId` of the client's registry key.
    Registry(RegistryData),
    /// The client's `registry.vdf`.
    Vdf(VDFValue),
}

/// The next list on a path: the entry `key` of what was reached so far.
pub open spec fn descend(from: Result<VDFValue, VdfError>, key: Seq<char>) -> Result<
    VDFValue,
    VdfError,
> {
    match from {
        Ok(value) => value.lookup(key),
        Err(e) => Err(e),
    }
}

/// What stands at `Registry.HKCU.Software.Valve.Steam.RunningAppID`.
pub open spec fn running_app_entry(root: VDFValue) -> Result<VDFValue, VdfError> {
    descend(
        descend(
            descend(
                descend(descend(root.lookup("Registry"@), "HKCU"@), "Software"@),
                "Valve"@,
            ),
            "Steam"@,
        ),
        "RunningAppID"@,
    )
}

/// The app that the store records as running: the number at the end of the
/// path. A list in its place is no number.
pub open spec fn running_app_of(root: VDFValue) -> Result<i64, VdfError> {
    match running_app_entry(root) {
        Ok(VDFValue::Number(app)) => Ok(app),
        Ok(VDFValue::Table(_)) => Err(VdfError::NotAMap),
        Err(e) => Err(e),
    }
}

/// The `i64` with the bits of `n`.
pub open spec fn wrapped(n: u64) -> i64 {
    if n <= i64::MAX {
        n as i64
    } else {
        (n - 0x1_0000_0000_0000_0000) as i64
    }
}

/// The page of an app in the store.
pub open spec fn store_url(app: int) -> Seq<char> {
    "https://store.steampowered.com/app/"@ + text::decimal(app)
}

/// The capsule image of an app.
pub open spec fn capsule_url(app: int) -> Seq<char> {
    "https://cdn.cloudflare.steamstatic.com/steam/apps/"@ + text::decimal(app)
        + "/hero_capsule.jpg"@
}

/// The detected game for the app `id`, which the store writes as `written`.
pub open spec fn game_of(id: i64, written: int) -> DetectedGameView {
    DetectedGameView::Steam { id, url: store_url(written), icon: capsule_url(written) }
}

/// What the probe finds: nothing without a store, the running app where the
/// store records it as a number, and an error for every other store.
pub open spec fn detection(store: SteamStore) -> Result<Option<DetectedGameView>, DetectError> {
    match store {
        SteamStore::Absent => Ok(None),
        SteamStore::Unreadable => Err(DetectError::MalformedLocalState(GamePlatform::Steam)),
        SteamStore::Registry(RegistryData::U32(app)) => Ok(
            Some(game_of(app as i64, app as int)),
        ),
        SteamStore::Registry(RegistryData::U64(app)) => Ok(
            Some(game_of(wrapped(app), app as int)),
        ),
        SteamStore::Registry(RegistryData::Other) => Err(
            DetectError::MalformedLocalState(GamePlatform::Steam),
        ),
        SteamStore::Vdf(root) => match running_app_of(root) {
            Ok(app) => Ok(Some(game_of(app, app as int))),
            Err(_) => Err(DetectError::MalformedLocalState(GamePlatform::Steam)),
        },
    }
}

fn descend_into<'a>(from: Result<&'a VDFValue, VdfError>, key: &str) -> (r: Result<
    &'a VDFValue,
    VdfError,
>)
    ensures
        match r {
            Ok(value) => from is Ok && descend(Ok(*from->Ok_0), key@) == Ok::<VDFValue, VdfError>(
                *value,
            ),
            Err(e) => match from {
                Ok(value) => descend(Ok(*value), key@) == Err::<VDFValue, VdfError>(e),
                Err(earlier) => e == earlier,
            },
        },
{
    match from {
        Ok(value) => value.get(key),
        Err(e) => Err(e),
    }
}

fn game_written(id: i64, written: u64) -> (found: DetectedGame)
    ensures
        found@ == game_of(id, written as int),
{
    let number = text::decimal_u64(written);
    let mut url = "https://store.steampowered.com/app/".to_owned();
    url.append(number.as_str());
    let mut icon = "https://cdn.cloudflare.steamstatic.com/steam/apps/".to_owned();
    icon.append(number.as_str());
    icon.append("/hero_capsule.jpg");
    DetectedGame::Steam { id, url, icon }
}

/// The detected game for the app `id`.
pub fn game(id: i64) -> (found: DetectedGame)
    ensures
        found@ == game_of(id, id as int),
{
    let number = text::decimal_i64(id);
    let mut url = "https://store.steampowered.com/app/".to_owned();
    url.append(number.as_str());
    let mut icon = "https://cdn.cloudflare.steamstatic.com/steam/apps/".to_owned();
    icon.append(number.as_str());
    icon.append("/hero_capsule.jpg");
    DetectedGame::Steam { id, url, icon }
}

/// The number at `Registry.HKCU.Software.Valve.Steam.RunningAppID`.
pub fn running_app(root: &VDFValue) -> (app: Result<i64, VdfError>)
    ensures
        app == running_app_of(*root),
{
    let registry = root.get("Registry");
    let hkcu = descend_into(registry, "HKCU");
    let software = descend_into(hkcu, "Software");
    let valve = descend_into(software, "Valve");
    let steam = descend_into(valve, "Steam");
    let entry = descend_into(steam, "RunningAppID");
    match entry {
        Ok(VDFValue::Number(id)) => Ok(*id),
        Ok(VDFValue::Table(_)) => Err(VdfError::NotAMap),
        Err(e) => Err(e),
    }
}

/// The Steam probe: the app that the client's store records as running.
pub fn detect_game(store: &SteamStore) -> (outcome: Result<Option<DetectedGame>, DetectError>)
    ensures
        outcome_view(outcome) == detection(*store),
{
    match store {
        SteamStore::Absent => Ok(None),
        SteamStore::Unreadable => Err(DetectError::MalformedLocalState(GamePlatform::Steam)),
        SteamStore::Registry(RegistryData::U32(app)) => {
            let written: u64 = *app as u64;
            Ok(Some(game_written(*app as i64, written)))
        },
        SteamStore::Registry(RegistryData::U64(app)) => {
            let id: i64 = if *app <= 9223372036854775807u64 {
                *app as i64
            } else {
                (*app - 9223372036854775808u64) as i64 + i64::MIN
            };
            Ok(Some(game_written(id, *app)))
        },
        SteamStore::Registry(RegistryData::Other) => Err(
            DetectError::MalformedLocalState(GamePlatform::Steam),
        ),
        SteamStore::Vdf(root) => match running_app(root) {
            Ok(id) => Ok(Some(game(id))),
            Err(_) => Err(DetectError::MalformedLocalState(GamePlatform::Steam)),
        },
    }
}

/// What the store's catalog tells of one app.
#[derive(Debug, Clone)]
pub struct App {
    pub name: String,
    pub short_description: String,
    /// The minimum age, as the catalog writes it.
    pub required_age: String,
    pub developers: Vec<String>,
    pub publishers: Vec<String>,
    pub background_raw: String,
}

/// The address of the catalog's record of an app.
pub open spec fn catalog_url_of(app: int) -> Seq<char> {
    "https://store.steampowered.com/api/appdetails?appids="@ + text::decimal(app)
}

/// The address of the catalog's record of an app.
pub fn catalog_url(app: i64) -> (url: String)
    ensures
        url@ == catalog_url_of(app as int),
{
    let mut url = "https://store.steampowered.com/api/appdetails?appids=".to_owned();
    url.append(text::decimal_i64(app).as_str());
    url
}

/// The number under which the catalog's answer files the app `id`: its low 32 bits.
pub open spec fn catalog_key(id: i64) -> i32 {
    id as i32
}

/// The record at `at` is the first that the answer files under `key`.
pub open spec fn is_first_record(records: Seq<(i32, App)>, key: i32, at: int) -> bool {
    &&& 0 <= at < records.len()
    &&& records[at].0 == key
    &&& forall|earlier: int| 0 <= earlier < at ==> (#[trigger] records[earlier]).0 != key
}

/// The metadata that a record gives for a detected app.
pub open spec fn info_of(id: i64, url: Seq<char>, icon: Seq<char>, app: App) -> GameInfoView {
    GameInfoView {
        app_id: Some(id),
        via_platform: GamePlatform::Steam,
        name: app.name@,
        description: app.short_description@,
        cover: app.background_raw@,
        icon,
        developers: text::views(app.developers@),
        publishers: text::views(app.publishers@),
        required_age: text::parse_i32(app.required_age@),
        url,
    }
}

/// What `fetch_info` returns: for a Steam game, the first record that the
/// catalog's answer files under the game's number, with the page and the icon
/// that detection gave; an age that is no number is unknown.
pub open spec fn resolution(detected: DetectedGame, reply: Reply<Vec<(i32, App)>>) -> Result<
    GameInfoView,
    FetchError,
> {
    match detected {
        DetectedGame::Steam { id, url, icon } => match reply.outcome() {
            Ok(records) => if exists|at: int| is_first_record(records@, catalog_key(id), at) {
                Ok(
                    info_of(
                        id,
                        url@,
                        icon@,
                        records@[choose|at: int| is_first_record(records@, catalog_key(id), at)].1,
                    ),
                )
            } else {
                Err(FetchError::SchemaMismatch)
            },
            Err(e) => Err(e),
        },
        _ => Err(FetchError::UnsupportedForVariant),
    }
}

fn find_record(records: &Vec<(i32, App)>, key: i32) -> (found: Option<usize>)
    ensures
        match found {
            Some(at) => is_first_record(records@, key, at as int) && at == choose|at: int|
                is_first_record(records@, key, at),
            None => !exists|at: int| is_first_record(records@, key, at),
        },
{
    let mut i: usize = 0;
    while i < records.len()
        invariant
            i <= records.len(),
            forall|earlier: int| 0 <= earlier < i ==> (#[trigger] records@[earlier]).0 != key,
        decreases records.len() - i,
    {
        if records[i].0 == key {
            proof {
                assert(is_first_record(records@, key, i as int));
                let chosen = choose|at: int| is_first_record(records@, key, at);
                if chosen < i {
                    assert(records@[chosen].0 != key);
                }
                if i < chosen {
                    assert(records@[i as int].0 == key);
                }
            }
            return Some(i);
        }
        i += 1;
    }
    proof {
        if exists|at: int| is_first_record(records@, key, at) {
            let at = choose|at: int| is_first_record(records@, key, at);
            assert(records@[at].0 == key);
        }
    }
    None
}

/// The metadata of a Steam game, from the catalog's answer.
pub fn fetch_info(detected: &DetectedGame, reply: &Reply<Vec<(i32, App)>>) -> (r: Result<
    GameInfo,
    FetchError,
>)
    ensures
        match r {
            Ok(info) => resolution(*detected, *reply) == Ok::<GameInfoView, FetchError>(info@),
            Err(e) => resolution(*detected, *reply) == Err::<GameInfoView, FetchError>(e),
        },
{
    match detected {
        DetectedGame::Steam { id, url, icon } => {
            let records = match reply.body() {
                Ok(records) => records,
                Err(e) => {
                    return Err(e);
                },
            };
            let key: i32 = #[verifier::truncate]
            (*id as i32);
            match find_record(records, key) {
                Some(at) => {
                    let app = &records[at].1;
                    let required_age = text::parse_i32_str(app.required_age.as_str());
                    Ok(
                        GameInfo {
                            app_id: Some(*id),
                            via_platform: GamePlatform::Steam,
                            name: app.name.clone(),
                            description: app.short_description.clone(),
                            cover: app.background_raw.clone(),
                            icon: icon.clone(),
                            developers: text::clone_strings(&app.developers),
                            publishers: text::clone_strings(&app.publishers),
                            required_age,
                            url: url.clone(),
                        },
                    )
                },
                None => Err(FetchError::SchemaMismatch),
            }
        },
        _ => Err(FetchError::UnsupportedForVariant),
    }
}

} // verus!
