use balatro_tui::motd::{message_of, motd, potentials};
use balatro_tui::{
    appdata_owner_name, balatro_appdata_dir_from, balatro_appdata_dir_in, balatro_dir_from,
    balatro_dir_in, get_balatro_appdata_dir, get_balatro_dir, launch_command,
    locate_steam_appdata, native_appdata_dir_in, AppDirs, Platform,
};

fn dirs(root: &str) -> AppDirs {
    AppDirs {
        cache_dir: format!("{}/cache", root),
        config_dir: format!("{}/config", root),
        data_dir: format!("{}/data", root),
        state_dir: format!("{}/state", root),
    }
}

#[test]
fn launch_without_console_passes_the_flag() {
    let command = launch_command(true);
    assert_eq!(command.program, "steam");
    assert_eq!(command.args, vec!["-applaunch", "2379780", "--disable-console"]);
}

#[test]
fn launch_with_console_passes_no_flag() {
    let command = launch_command(false);
    assert_eq!(command.program, "steam");
    assert_eq!(command.args, vec!["-applaunch", "2379780"]);
}

#[test]
fn game_lies_under_the_store_library() {
    let path = balatro_dir_in(dirs("/home/u/.local/share/Steam"));
    assert_eq!(path.base, "/home/u/.local/share/Steam/data");
    assert_eq!(path.parts, vec!["steamapps", "common", "Balatro"]);
}

#[test]
fn game_data_lies_inside_the_compatibility_layer() {
    let path = balatro_appdata_dir_in(dirs("/s"));
    assert_eq!(path.base, "/s/data");
    assert_eq!(
        path.parts,
        vec![
            "steamapps", "compatdata", "2379780", "pfx", "drive_c", "users", "steamuser",
            "AppData", "Roaming", "Balatro"
        ]
    );
}

#[test]
fn native_game_data_is_the_configuration_directory() {
    let path = native_appdata_dir_in(dirs("/g"));
    assert_eq!(path.base, "/g/config");
    assert!(path.parts.is_empty());
}

#[test]
fn located_directories_lead_to_the_game() {
    let located = locate_steam_appdata();
    let game = get_balatro_dir();
    assert_eq!(located.is_some(), game.is_some());
    if let (Some(steam), Some(path)) = (located, game) {
        assert_eq!(path.base, steam.data_dir);
        assert!(steam.data_dir.ends_with("Steam"));
        assert_eq!(path.parts, vec!["steamapps", "common", "Balatro"]);
    }
}

#[test]
fn located_game_data_depends_on_the_platform() {
    if let Some(path) = get_balatro_appdata_dir(Platform::Linux) {
        assert_eq!(path.parts.len(), 10);
        assert_eq!(path.parts[9], "Balatro");
    }
    for platform in [Platform::Windows, Platform::MacOs] {
        if let Some(path) = get_balatro_appdata_dir(platform) {
            assert!(path.parts.is_empty());
            assert!(path.base.ends_with("Balatro"));
        }
    }
}

#[test]
fn there_are_twelve_messages() {
    let list = potentials();
    assert_eq!(list.len(), 12);
    assert_eq!(list[0], "First we Ball, then we Atro. We Balatro!");
    assert_eq!(list[8], ":3");
    assert_eq!(list[11], "Welcome to the balatro tui!");
}

#[test]
fn motd_is_one_of_the_messages() {
    let list = potentials();
    for _ in 0..50 {
        let message = motd();
        assert!(list.contains(&message));
    }
}

#[test]
fn a_pick_is_the_message() {
    assert_eq!(message_of(Some(":3".to_string())), ":3");
    assert_eq!(message_of(None), "Welcome to the balatro tui!");
}

#[test]
fn found_directories_give_the_game_directory() {
    let path = balatro_dir_from(Some(dirs("/s"))).unwrap();
    assert_eq!(path.base, "/s/data");
    assert_eq!(path.parts, vec!["steamapps", "common", "Balatro"]);
}

#[test]
fn found_directories_give_the_data_directory_of_the_platform() {
    let linux = balatro_appdata_dir_from(Platform::Linux, Some(dirs("/s"))).unwrap();
    assert_eq!(linux.base, "/s/data");
    assert_eq!(linux.parts.len(), 10);
    assert_eq!(linux.parts[0], "steamapps");
    assert_eq!(linux.parts[2], "2379780");
    for platform in [Platform::Windows, Platform::MacOs] {
        let native = balatro_appdata_dir_from(platform, Some(dirs("/g"))).unwrap();
        assert_eq!(native.base, "/g/config");
        assert!(native.parts.is_empty());
    }
}

#[test]
fn the_data_belongs_to_the_client_on_linux_and_to_the_game_elsewhere() {
    assert_eq!(appdata_owner_name(Platform::Linux), "Steam");
    assert_eq!(appdata_owner_name(Platform::Windows), "Balatro");
    assert_eq!(appdata_owner_name(Platform::MacOs), "Balatro");
}
