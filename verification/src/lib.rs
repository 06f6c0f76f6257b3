//! Core of a terminal mod manager: focus-routed components, the startup
//! state machine and the mod catalog rules, with every decision stated as a
//! contract. Rendering and all input and output live with the caller.

pub mod action;
pub mod channel;
pub mod components;
pub mod install;
pub mod mods;
pub mod motd;
pub mod order;
pub mod style;
pub mod text;

use crate::text::views;
use vstd::prelude::*;
use vstd::string::StringExecFns;

verus! {

/// The directories of an application, as paths in text.
#[derive(Debug)]
pub struct AppDirs {
    pub cache_dir: String,
    pub config_dir: String,
    pub data_dir: String,
    pub state_dir: String,
}

/// A path: a directory to start from and the names to descend through.
#[derive(Debug)]
pub struct GamePath {
    pub base: String,
    pub parts: Vec<String>,
}

/// The systems that keep the game's data in different places.
#[derive(Clone, Copy, Debug, PartialEq, Eq, Structural)]
pub enum Platform {
    Linux,
    Windows,
    MacOs,
}

/// A program to run with its arguments.
#[derive(Debug)]
pub struct LaunchCommand {
    pub program: String,
    pub args: Vec<String>,
}

/// The game's identifier in the store.
pub open spec fn app_id() -> Seq<char> {
    "2379780"@
}

/// The arguments that launch the game, with or without its console.
pub open spec fn launch_args(disable_console: bool) -> Seq<Seq<char>> {
    if disable_console {
        seq!["-applaunch"@, app_id(), "--disable-console"@]
    } else {
        seq!["-applaunch"@, app_id()]
    }
}

/// The command that launches the game through the store's client.
pub fn launch_command(disable_console: bool) -> (command: LaunchCommand)
    ensures
        command.program@ == "steam"@,
        views(command.args@) == launch_args(disable_console),
{
    let mut args: Vec<String> = Vec::new();
    args.push(String::from_str("-applaunch"));
    args.push(String::from_str("2379780"));
    if disable_console {
        args.push(String::from_str("--disable-console"));
    }
    assert(views(args@) =~= launch_args(disable_console));
    LaunchCommand { program: String::from_str("steam"), args }
}

/// Calls `AppDirs::new` of platform_dirs for the application `name`, with
/// the native directories on macOS, and gives each directory as text, lossy
/// where a path is not Unicode. The answer depends on the user's home and
/// environment: nothing is promised of it.
#[verifier::external_body]
fn locate_app_dirs(name: &str) -> Option<AppDirs> {
    let dirs = platform_dirs::AppDirs::new(Some(name), false)?;
    Some(
        AppDirs {
            cache_dir: dirs.cache_dir.to_string_lossy().into_owned(),
            config_dir: dirs.config_dir.to_string_lossy().into_owned(),
            data_dir: dirs.data_dir.to_string_lossy().into_owned(),
            state_dir: dirs.state_dir.to_string_lossy().into_owned(),
        },
    )
}

/// The directories of the store's client, if the user's home can be found.
pub fn locate_steam_appdata() -> Option<AppDirs> {
    locate_app_dirs("Steam")
}

/// Where the game lies under the library of the store's client.
pub open spec fn game_parts() -> Seq<Seq<char>> {
    seq!["steamapps"@, "common"@, "Balatro"@]
}

/// Where the game's data lies under the library of the store's client, on
/// Linux, where the game runs in a compatibility layer.
pub open spec fn appdata_parts() -> Seq<Seq<char>> {
    seq![
        "steamapps"@,
        "compatdata"@,
        app_id(),
        "pfx"@,
        "drive_c"@,
        "users"@,
        "steamuser"@,
        "AppData"@,
        "Roaming"@,
        "Balatro"@,
    ]
}

/// The directory the game is installed in, given the client's directories.
pub fn balatro_dir_in(steam: AppDirs) -> (path: GamePath)
    ensures
        path.base@ == steam.data_dir@,
        views(path.parts@) == game_parts(),
{
    let mut parts: Vec<String> = Vec::new();
    parts.push(String::from_str("steamapps"));
    parts.push(String::from_str("common"));
    parts.push(String::from_str("Balatro"));
    assert(views(parts@) =~= game_parts());
    GamePath { base: steam.data_dir, parts }
}

/// The directory of the game's data on Linux, given the client's
/// directories.
pub fn balatro_appdata_dir_in(steam: AppDirs) -> (path: GamePath)
    ensures
        path.base@ == steam.data_dir@,
        views(path.parts@) == appdata_parts(),
{
    let mut parts: Vec<String> = Vec::new();
    parts.push(String::from_str("steamapps"));
    parts.push(String::from_str("compatdata"));
    parts.push(String::from_str("2379780"));
    parts.push(String::from_str("pfx"));
    parts.push(String::from_str("drive_c"));
    parts.push(String::from_str("users"));
    parts.push(String::from_str("steamuser"));
    parts.push(String::from_str("AppData"));
    parts.push(String::from_str("Roaming"));
    parts.push(String::from_str("Balatro"));
    assert(views(parts@) =~= appdata_parts());
    GamePath { base: steam.data_dir, parts }
}

/// The directory of the game's data elsewhere, given the game's own
/// directories: its configuration directory.
pub fn native_appdata_dir_in(game: AppDirs) -> (path: GamePath)
    ensures
        path.base@ == game.config_dir@,
        path.parts@.len() == 0,
{
    GamePath { base: game.config_dir, parts: Vec::new() }
}

/// The application whose directories hold the game's data: on Linux the
/// store's client, elsewhere the game itself.
pub open spec fn appdata_owner(platform: Platform) -> Seq<char> {
    if platform == Platform::Linux {
        "Steam"@
    } else {
        "Balatro"@
    }
}

/// The name of the application whose directories hold the game's data.
pub fn appdata_owner_name(platform: Platform) -> (name: &'static str)
    ensures
        name@ == appdata_owner(platform),
{
    match platform {
        Platform::Linux => "Steam",
        _ => "Balatro",
    }
}

/// The directory the game is installed in, by the client's directories
/// that were found: `steamapps/common/Balatro` under their data directory.
pub fn balatro_dir_from(located: Option<AppDirs>) -> (path: Option<GamePath>)
    requires
        located is Some,
    ensures
        path is Some,
        path->0.base@ == located->0.data_dir@,
        views(path->0.parts@) == game_parts(),
{
    Some(balatro_dir_in(located.unwrap()))
}

/// The directory of the game's data and mods, by the directories that were
/// found of the application that `appdata_owner` names. On Linux it lies
/// inside the compatibility layer under the data directory; elsewhere it is
/// the configuration directory itself.
pub fn balatro_appdata_dir_from(platform: Platform, located: Option<AppDirs>) -> (path: Option<
    GamePath,
>)
    requires
        located is Some,
    ensures
        path is Some,
        platform == Platform::Linux ==> path->0.base@ == located->0.data_dir@ && views(
            path->0.parts@,
        ) == appdata_parts(),
        platform != Platform::Linux ==> path->0.base@ == located->0.config_dir@ && views(
            path->0.parts@,
        ) == Seq::<Seq<char>>::empty(),
{
    let dirs = located.unwrap();
    match platform {
        Platform::Linux => Some(balatro_appdata_dir_in(dirs)),
        _ => {
            let path = native_appdata_dir_in(dirs);
            assert(views(path.parts@) =~= Seq::<Seq<char>>::empty());
            Some(path)
        },
    }
}

/// The directory the game is installed in: `steamapps/common/Balatro` under
/// the data directory of the store's client. `None` where the client's
/// directories cannot be found.
pub fn get_balatro_dir() -> (path: Option<GamePath>)
    ensures
        path matches Some(p) ==> views(p.parts@) == game_parts(),
{
    let located = locate_steam_appdata();
    if located.is_some() {
        balatro_dir_from(located)
    } else {
        None
    }
}

/// The directory of the game's data and mods. On Linux it lies inside the
/// compatibility layer under the data directory of the store's client;
/// elsewhere it is the game's own configuration directory. `None` where
/// the directories cannot be found.
pub fn get_balatro_appdata_dir(platform: Platform) -> (path: Option<GamePath>)
    ensures
        path matches Some(p) ==> views(p.parts@) == if platform == Platform::Linux {
            appdata_parts()
        } else {
            Seq::empty()
        },
{
    let located = locate_app_dirs(appdata_owner_name(platform));
    if located.is_some() {
        balatro_appdata_dir_from(platform, located)
    } else {
        None
    }
}

/// The repository that the remote index is mirrored from, with the remote
/// and the branch that the mirror follows.
#[derive(Debug)]
pub struct IndexSource {
    pub url: String,
    pub remote: String,
    pub branch: String,
}

/// Where the remote index comes from.
pub fn index_source() -> (source: IndexSource)
    ensures
        source.url@ == "https://github.com/skyline69/balatro-mod-index.git"@,
        source.remote@ == "origin"@,
        source.branch@ == "main"@,
{
    IndexSource {
        url: String::from_str("https://github.com/skyline69/balatro-mod-index.git"),
        remote: String::from_str("origin"),
        branch: String::from_str("main"),
    }
}

} // verus!
