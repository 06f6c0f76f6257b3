use balatro_tui::action::{Action, KeyCode, KeyEvent};
use balatro_tui::components::authoring::AuthoringTools;
use balatro_tui::components::home::{
    FailurePolicy, Focused, Home, StartupPhase, StartupWork, WorkOutcome,
};
use balatro_tui::components::quickoptions::QuickAction;
use balatro_tui::mods::{FileEntry, IndexEntry, MetaFile, Mod, ModFolder, RemoteMod};
use balatro_tui::style::{Color, Style};

fn installed(name: &str) -> Mod {
    let mut m = Mod::new();
    m.id = name.to_lowercase();
    m.name = name.to_string();
    m.version = "1".to_string();
    m.enabled = Some(true);
    m
}

fn workdir(with_mod: bool) -> ModFolder {
    let mut entries = vec![FileEntry { name: "main.lua".to_string(), is_file: true, parsed: None }];
    if with_mod {
        let mut m = installed("Mine");
        m.author = vec!["Me".to_string(), "You".to_string()];
        entries.push(FileEntry { name: "mine.json".to_string(), is_file: true, parsed: Some(m) });
    }
    ModFolder {
        name: "work".to_string(),
        path: "/home/me/work".to_string(),
        is_dir: true,
        entries,
        version_script: None,
    }
}

fn home() -> Home {
    Home::new(vec![installed("Talisman"), installed("Cryptid")], &workdir(true))
}

fn listing() -> Vec<IndexEntry> {
    ["Zed", "Ace"]
        .iter()
        .map(|title| {
            let mut m = RemoteMod::new();
            m.title = title.to_string();
            IndexEntry { name: format!("x@{}", title), is_dir: true, meta: MetaFile::Parsed(m) }
        })
        .collect()
}

fn ready() -> Home {
    let mut home = home();
    home.update(Action::Tick, WorkOutcome::Nothing);
    home.update(Action::Tick, WorkOutcome::MirrorFound(true));
    home.update(Action::Tick, WorkOutcome::Synced(listing()));
    assert_eq!(home.state, StartupPhase::Ready);
    home
}

fn press(home: &mut Home, code: KeyCode) -> Option<Action> {
    home.handle_key_event(KeyEvent::plain(code))
}

fn focus_flags(home: &Home) -> Vec<bool> {
    vec![
        home.mode_selector.has_focus,
        home.quick_ops.has_focus,
        home.installed_mod_selector.has_focus,
        home.remote_mod_selector.has_focus,
        home.authoring.has_focus,
    ]
}

#[test]
fn new_home_starts_uninitialized_with_the_focus_on_the_modes() {
    let home = home();
    assert_eq!(home.state, StartupPhase::Uninitialized);
    assert_eq!(home.focused, Focused::Modes);
    assert_eq!(focus_flags(&home), vec![true, false, false, false, false]);
    assert!(!home.startup_failed);
    assert_eq!(home.on_failure, FailurePolicy::Degraded);
    assert_eq!(home.mode_selector.title, "Modes");
    let labels: Vec<&str> = home.mode_selector.options.iter().map(|r| r[0].text.as_str()).collect();
    assert_eq!(labels, vec!["Quick Options", "Installed Mods", "Find New Mods", "Mod Authoring Tools"]);
    let names: Vec<&str> = home.installed_mod_selector.mods.iter().map(|m| m.name.as_str()).collect();
    assert_eq!(names, vec!["Cryptid", "Talisman"]);
    assert!(home.remote_mod_selector.mods.is_empty());
}

#[test]
fn startup_syncs_when_a_mirror_exists() {
    let mut home = home();
    assert_eq!(home.required_work(), StartupWork::Nothing);
    home.update(Action::Tick, WorkOutcome::Nothing);
    assert_eq!(home.state, StartupPhase::CheckingLocalIndex);
    assert_eq!(home.required_work(), StartupWork::CheckMirror);
    home.update(Action::Tick, WorkOutcome::MirrorFound(true));
    assert_eq!(home.state, StartupPhase::SyncingIndex);
    assert_eq!(home.required_work(), StartupWork::SyncMirror);
    let effects = home.update(Action::Tick, WorkOutcome::Synced(listing()));
    assert_eq!(home.state, StartupPhase::Ready);
    assert_eq!(home.required_work(), StartupWork::Nothing);
    assert_eq!(effects.next, None);
    assert!(!home.startup_failed);
    let titles: Vec<&str> = home.remote_mod_selector.displayed_mods.iter().map(|m| m.title.as_str()).collect();
    assert_eq!(titles, vec!["Ace", "Zed"]);
    assert_eq!(home.remote_mod_selector.mods.len(), 2);
    assert_eq!(home.remote_mod_selector.mods[0].identifier, "x@Zed");
}

#[test]
fn startup_downloads_when_no_mirror_exists() {
    let mut home = home();
    home.update(Action::Tick, WorkOutcome::Nothing);
    home.update(Action::Tick, WorkOutcome::MirrorFound(false));
    assert_eq!(home.state, StartupPhase::DownloadingIndex);
    assert_eq!(home.required_work(), StartupWork::DownloadMirror);
    home.update(Action::Tick, WorkOutcome::Synced(listing()));
    assert_eq!(home.state, StartupPhase::Ready);
    assert_eq!(home.remote_mod_selector.mods.len(), 2);
}

#[test]
fn ready_is_terminal() {
    let mut home = ready();
    for outcome in [
        WorkOutcome::Nothing,
        WorkOutcome::MirrorFound(false),
        WorkOutcome::MirrorFound(true),
        WorkOutcome::Failed,
        WorkOutcome::Synced(Vec::new()),
    ] {
        let effects = home.update(Action::Tick, outcome);
        assert_eq!(home.state, StartupPhase::Ready);
        assert_eq!(effects.next, None);
    }
    assert_eq!(home.remote_mod_selector.mods.len(), 2);
    assert!(!home.startup_failed);
}

#[test]
fn a_tick_without_the_awaited_outcome_waits() {
    let mut home = home();
    home.update(Action::Tick, WorkOutcome::Failed);
    assert_eq!(home.state, StartupPhase::CheckingLocalIndex);
    home.update(Action::Tick, WorkOutcome::Nothing);
    home.update(Action::Tick, WorkOutcome::Synced(listing()));
    home.update(Action::Tick, WorkOutcome::Failed);
    assert_eq!(home.state, StartupPhase::CheckingLocalIndex);
    assert!(!home.startup_failed);
    home.update(Action::Tick, WorkOutcome::MirrorFound(false));
    home.update(Action::Tick, WorkOutcome::Nothing);
    home.update(Action::Tick, WorkOutcome::MirrorFound(true));
    assert_eq!(home.state, StartupPhase::DownloadingIndex);
    assert!(home.remote_mod_selector.mods.is_empty());
}

#[test]
fn only_ticks_move_the_startup_sequence() {
    let mut home = home();
    for action in [Action::Render, Action::Quit, Action::Resize(80, 24), Action::Key(KeyEvent::plain(KeyCode::Enter))] {
        home.update(action, WorkOutcome::MirrorFound(true));
        assert_eq!(home.state, StartupPhase::Uninitialized);
    }
}

#[test]
fn a_failed_sync_degrades_to_an_empty_index() {
    let mut home = home();
    home.update(Action::Tick, WorkOutcome::Nothing);
    home.update(Action::Tick, WorkOutcome::MirrorFound(true));
    let effects = home.update(Action::Tick, WorkOutcome::Failed);
    assert_eq!(home.state, StartupPhase::Ready);
    assert!(home.startup_failed);
    assert_eq!(effects.next, None);
    assert!(home.remote_mod_selector.mods.is_empty());
    assert!(home.shows_panels());
}

#[test]
fn a_failed_download_asks_to_quit_under_the_abort_policy() {
    let mut home = home();
    home.on_failure = FailurePolicy::Abort;
    home.update(Action::Tick, WorkOutcome::Nothing);
    home.update(Action::Tick, WorkOutcome::MirrorFound(false));
    let effects = home.update(Action::Tick, WorkOutcome::Failed);
    assert_eq!(effects.next, Some(Action::Quit));
    assert_eq!(home.state, StartupPhase::Ready);
    assert!(home.startup_failed);
    let effects = home.update(Action::Tick, WorkOutcome::Failed);
    assert_eq!(effects.next, None);
}

#[test]
fn each_phase_has_its_status_message() {
    let mut home = home();
    assert_eq!(home.status_message(), None);
    assert!(!home.shows_panels());
    home.update(Action::Tick, WorkOutcome::Nothing);
    assert_eq!(home.status_message(), Some("Now loading...".to_string()));
    home.update(Action::Tick, WorkOutcome::MirrorFound(true));
    assert_eq!(home.status_message(), Some("Updating mod list...".to_string()));
    assert!(!home.shows_panels());
    home.update(Action::Tick, WorkOutcome::Synced(Vec::new()));
    assert_eq!(home.status_message(), None);
    assert!(home.shows_panels());
    let mut other = self::home();
    other.update(Action::Tick, WorkOutcome::Nothing);
    other.update(Action::Tick, WorkOutcome::MirrorFound(false));
    assert_eq!(other.status_message(), Some("Downloading mod list...".to_string()));
}

#[test]
fn keys_are_routed_in_every_phase() {
    let mut home = home();
    assert_eq!(home.state, StartupPhase::Uninitialized);
    assert_eq!(press(&mut home, KeyCode::Down), None);
    assert_eq!(home.mode_selector.selected, 1);
    assert_eq!(press(&mut home, KeyCode::Right), None);
    assert_eq!(home.focused, Focused::InstalledMods);
    assert_eq!(focus_flags(&home), vec![false, false, true, false, false]);
    assert_eq!(press(&mut home, KeyCode::Down), None);
    assert_eq!(home.installed_mod_selector.options.selected, 1);
    assert_eq!(home.mode_selector.selected, 1);
    assert_eq!(press(&mut home, KeyCode::Left), None);
    assert_eq!(home.focused, Focused::Modes);
    assert_eq!(home.mode_selector.selected, 1);
    assert_eq!(focus_flags(&home), vec![true, false, false, false, false]);
    assert_eq!(home.state, StartupPhase::Uninitialized);

    home.update(Action::Tick, WorkOutcome::Nothing);
    home.update(Action::Tick, WorkOutcome::MirrorFound(false));
    assert_eq!(home.state, StartupPhase::DownloadingIndex);
    assert_eq!(press(&mut home, KeyCode::Up), None);
    assert_eq!(home.mode_selector.selected, 0);
    assert_eq!(press(&mut home, KeyCode::Right), None);
    assert_eq!(home.focused, Focused::Quicks);
    assert_eq!(home.state, StartupPhase::DownloadingIndex);
}

#[test]
fn the_quit_key_quits_whatever_is_focused() {
    let quit = KeyEvent { code: KeyCode::Char('c'), ctrl: true };
    let mut home = home();
    assert_eq!(home.handle_key_event(quit), Some(Action::Quit));
    let mut home = ready();
    assert_eq!(home.handle_key_event(quit), Some(Action::Quit));
    press(&mut home, KeyCode::Down);
    press(&mut home, KeyCode::Down);
    press(&mut home, KeyCode::Right);
    assert_eq!(home.focused, Focused::RemoteMods);
    assert_eq!(home.handle_key_event(quit), Some(Action::Quit));
    assert_eq!(home.remote_mod_selector.searchbar.text, "");
    assert_eq!(home.focused, Focused::RemoteMods);
}

#[test]
fn right_moves_the_focus_to_the_panel_of_the_selected_mode() {
    let expect = [
        (Focused::Quicks, vec![false, true, false, false, false]),
        (Focused::InstalledMods, vec![false, false, true, false, false]),
        (Focused::RemoteMods, vec![false, false, false, true, false]),
        (Focused::Authoring, vec![false, false, false, false, true]),
    ];
    for (row, (panel, flags)) in expect.into_iter().enumerate() {
        let mut home = ready();
        for _ in 0..row {
            press(&mut home, KeyCode::Down);
        }
        assert_eq!(home.shown_panel(), Some(panel));
        assert_eq!(press(&mut home, KeyCode::Right), None);
        assert_eq!(home.focused, panel);
        assert_eq!(focus_flags(&home), flags);
        assert_eq!(press(&mut home, KeyCode::Left), None);
        assert_eq!(home.focused, Focused::Modes);
        assert_eq!(focus_flags(&home), vec![true, false, false, false, false]);
        assert_eq!(home.mode_selector.selected, row);
    }
}

#[test]
fn exactly_one_panel_is_focused_through_a_walk() {
    let mut home = ready();
    let walk = [
        KeyCode::Right, KeyCode::Down, KeyCode::Enter, KeyCode::Left, KeyCode::Down, KeyCode::Right,
        KeyCode::Right, KeyCode::Up, KeyCode::Left, KeyCode::Left, KeyCode::Down, KeyCode::Right,
        KeyCode::Char('a'), KeyCode::Backspace, KeyCode::Left, KeyCode::Down, KeyCode::Down,
        KeyCode::Right, KeyCode::Other, KeyCode::Left, KeyCode::Up, KeyCode::Up, KeyCode::Up,
    ];
    for code in walk {
        press(&mut home, code);
        assert_eq!(focus_flags(&home).iter().filter(|f| **f).count(), 1);
        assert_eq!(home.quick_ops.options.has_focus, home.quick_ops.has_focus);
        assert_eq!(home.installed_mod_selector.options.has_focus, home.installed_mod_selector.has_focus);
        assert_eq!(home.remote_mod_selector.searchbar.has_focus(), home.remote_mod_selector.has_focus);
    }
    assert_eq!(home.focused, Focused::Modes);
    assert_eq!(home.mode_selector.selected, 0);
}

#[test]
fn keys_go_to_the_focused_panel_only() {
    let mut home = ready();
    press(&mut home, KeyCode::Down);
    press(&mut home, KeyCode::Right);
    press(&mut home, KeyCode::Down);
    assert_eq!(home.installed_mod_selector.options.selected, 1);
    assert_eq!(home.mode_selector.selected, 1);
    assert_eq!(home.quick_ops.options.selected, 0);
    assert_eq!(home.remote_mod_selector.options.selected, 0);
    press(&mut home, KeyCode::Right);
    assert_eq!(home.focused, Focused::InstalledMods);
    press(&mut home, KeyCode::Char('z'));
    assert_eq!(home.remote_mod_selector.searchbar.text, "");
}

#[test]
fn a_tick_hands_out_what_the_panels_ask_for() {
    let mut home = ready();
    press(&mut home, KeyCode::Right);
    press(&mut home, KeyCode::Down);
    press(&mut home, KeyCode::Down);
    press(&mut home, KeyCode::Enter);
    press(&mut home, KeyCode::Left);
    press(&mut home, KeyCode::Down);
    press(&mut home, KeyCode::Right);
    press(&mut home, KeyCode::Down);
    press(&mut home, KeyCode::Enter);
    press(&mut home, KeyCode::Left);
    press(&mut home, KeyCode::Down);
    press(&mut home, KeyCode::Right);
    press(&mut home, KeyCode::Enter);
    let idle = home.update(Action::Render, WorkOutcome::Nothing);
    assert!(idle.toggle.is_none() && idle.quick.is_none() && idle.install.is_none());
    let effects = home.update(Action::Tick, WorkOutcome::Nothing);
    assert_eq!(effects.next, None);
    assert_eq!(effects.quick, Some(QuickAction::OpenGameFolder));
    assert_eq!(effects.toggle, Some(1));
    assert_eq!(effects.install.map(|m| m.title), Some("Ace".to_string()));
    let effects = home.update(Action::Tick, WorkOutcome::Nothing);
    assert!(effects.toggle.is_none() && effects.quick.is_none() && effects.install.is_none());
}

#[test]
fn the_mode_list_confirms_nothing() {
    let mut home = ready();
    assert_eq!(press(&mut home, KeyCode::Enter), None);
    let effects = home.update(Action::Tick, WorkOutcome::Nothing);
    assert!(effects.toggle.is_none() && effects.quick.is_none() && effects.install.is_none());
}

#[test]
fn home_focus_is_its_own_flag() {
    let mut home = home();
    assert!(!home.has_focus);
    home.focus();
    assert!(home.has_focus);
    assert_eq!(focus_flags(&home), vec![true, false, false, false, false]);
    home.unfocus();
    assert!(!home.has_focus);
}

#[test]
fn authoring_names_the_mod_of_the_working_directory() {
    let tools = AuthoringTools::new(&workdir(true));
    assert!(tools.has_mod());
    assert_eq!(tools.mod_path, "/home/me/work");
    assert_eq!(tools.edited_mod.name, "Mine");
    let spans = tools.header();
    let texts: Vec<&str> = spans.iter().map(|s| s.text.as_str()).collect();
    assert_eq!(texts, vec!["Currently editing mod ", "Mine", " by ", "Me, You"]);
    assert_eq!(spans[1].style, Style { fg: Some(Color::Yellow), bold: false });
    assert_eq!(spans[2].style, Style { fg: None, bold: false });
    assert_eq!(tools.header_title(), Some("Editing mod at /home/me/work".to_string()));
}

#[test]
fn authoring_says_when_no_mod_was_found() {
    let mut tools = AuthoringTools::new(&workdir(false));
    assert!(!tools.has_mod());
    let spans = tools.header();
    let texts: Vec<&str> = spans.iter().map(|s| s.text.as_str()).collect();
    assert_eq!(
        texts,
        vec![
            "No mod was found at ",
            "/home/me/work",
            ", sorry! Make sure there is a metadata JSON file in the root of the mod directory.",
        ]
    );
    assert_eq!(spans[1].style, Style { fg: Some(Color::Yellow), bold: false });
    assert_eq!(tools.header_title(), None);
    assert_eq!(tools.handle_key_event(KeyEvent::plain(KeyCode::Up)), None);
    assert_eq!(tools.border(), Color::White);
    tools.focus();
    assert_eq!(tools.border(), Color::LightCyan);
    tools.unfocus();
    assert!(!tools.has_focus);
    let mut stray = workdir(true);
    stray.is_dir = false;
    assert!(!AuthoringTools::new(&stray).has_mod());
}
