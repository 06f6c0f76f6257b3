use balatro_tui::mods::{
    apply_change, denies, holds_marker, is_denylisted, is_metadata_candidate, version_from_script,
    FileEntry, MarkerChange, Mod, ModFolder, ModList,
};

fn meta(id: &str, name: &str, version: &str, authors: &[&str]) -> Mod {
    let mut m = Mod::new();
    m.id = id.to_string();
    m.name = name.to_string();
    m.version = version.to_string();
    m.author = authors.iter().map(|a| a.to_string()).collect();
    m
}

fn file(name: &str) -> FileEntry {
    FileEntry { name: name.to_string(), is_file: true, parsed: None }
}

fn metadata_file(name: &str, parsed: Mod) -> FileEntry {
    FileEntry { name: name.to_string(), is_file: true, parsed: Some(parsed) }
}

fn folder(name: &str, entries: Vec<FileEntry>) -> ModFolder {
    ModFolder {
        name: name.to_string(),
        path: format!("/mods/{}", name),
        is_dir: true,
        entries,
        version_script: None,
    }
}

fn foo_folder(with_marker: bool) -> ModFolder {
    let mut entries = vec![
        file("main.lua"),
        metadata_file("Foo.json", meta("foo", "Foo", "1.0.0", &["Ann"])),
    ];
    if with_marker {
        entries.push(file(".lovelyignore"));
    }
    folder("Foo", entries)
}

#[test]
fn new_mod_is_blank() {
    let m = Mod::new();
    assert_eq!(m.id, "");
    assert_eq!(m.name, "");
    assert_eq!(m.folder, "");
    assert_eq!(m.description, "");
    assert_eq!(m.version, "");
    assert!(m.author.is_empty());
    assert!(m.dependencies.is_empty());
    assert_eq!(m.enabled, None);
    assert!(!m.force_enable);
}

#[test]
fn one_valid_mod_is_reported_enabled_then_disabled_then_enabled() {
    let mods = ModList::get_local_mods(&vec![foo_folder(false)]);
    assert_eq!(mods.len(), 1);
    assert_eq!(mods[0].name, "Foo");
    assert_eq!(mods[0].id, "foo");
    assert_eq!(mods[0].version, "1.0.0");
    assert_eq!(mods[0].author, vec!["Ann".to_string()]);
    assert_eq!(mods[0].folder, "/mods/Foo");
    assert_eq!(mods[0].enabled, Some(true));
    assert!(!mods[0].force_enable);

    let rescanned = ModList::get_local_mods(&vec![foo_folder(true)]);
    assert_eq!(rescanned.len(), 1);
    assert_eq!(rescanned[0].name, "Foo");
    assert_eq!(rescanned[0].enabled, Some(false));

    let restored = ModList::get_local_mods(&vec![foo_folder(false)]);
    assert_eq!(restored.len(), 1);
    assert_eq!(restored[0].enabled, Some(true));
}

#[test]
fn empty_installation_directory_holds_no_mods() {
    assert!(ModList::get_local_mods(&Vec::new()).is_empty());
}

#[test]
fn folder_without_metadata_yields_a_placeholder() {
    let plain = folder("SomeMod", vec![file("main.lua"), file("readme.txt")]);
    let mods = ModList::get_local_mods(&vec![plain]);
    assert_eq!(mods.len(), 1);
    assert_eq!(mods[0].name, "SomeMod");
    assert_eq!(mods[0].author, vec!["unknown".to_string()]);
    assert_eq!(mods[0].version, "(unknown)");
    assert_eq!(mods[0].id, "");
    assert_eq!(mods[0].folder, "/mods/SomeMod");
    assert_eq!(mods[0].enabled, Some(true));
    assert!(!mods[0].force_enable);
}

#[test]
fn empty_folder_yields_a_disabled_placeholder_when_marked() {
    let marked = folder("Bare", vec![file(".lovelyignore")]);
    let mods = ModList::get_local_mods(&vec![marked]);
    assert_eq!(mods.len(), 1);
    assert_eq!(mods[0].name, "Bare");
    assert_eq!(mods[0].enabled, Some(false));
}

#[test]
fn denylisted_folders_get_no_placeholder() {
    let folders = vec![
        folder("lovely", vec![file("log.txt")]),
        folder("Lovely-Dump", vec![]),
        folder("STEAMODDED-main", vec![file("core.lua")]),
        folder("steamodded", vec![]),
        folder("my-lovely-mod", vec![]),
    ];
    let mods = ModList::get_local_mods(&folders);
    assert_eq!(mods.len(), 1);
    assert_eq!(mods[0].name, "my-lovely-mod");
}

#[test]
fn denylist_ignores_case() {
    assert!(is_denylisted("lovely"));
    assert!(is_denylisted("LOVELY"));
    assert!(is_denylisted("LoVeLy_logs"));
    assert!(is_denylisted("Steamodded-1.0"));
    assert!(!is_denylisted("love"));
    assert!(!is_denylisted("a-lovely"));
    assert!(!is_denylisted(""));
}

#[test]
fn denylisted_folder_with_metadata_is_still_a_mod() {
    let f = folder("lovely-extras", vec![metadata_file("m.json", meta("lx", "Extras", "2.0", &["Bo"]))]);
    let mods = ModList::get_local_mods(&vec![f]);
    assert_eq!(mods.len(), 1);
    assert_eq!(mods[0].name, "Extras");
}

#[test]
fn what_is_no_directory_is_skipped() {
    let mut stray = folder("notes.txt", vec![]);
    stray.is_dir = false;
    let mods = ModList::get_local_mods(&vec![stray, foo_folder(false)]);
    assert_eq!(mods.len(), 1);
    assert_eq!(mods[0].name, "Foo");
    let mut stray = folder("notes.txt", vec![]);
    stray.is_dir = false;
    assert!(ModList::scan_folder(&stray).is_none());
}

#[test]
fn the_first_metadata_file_wins() {
    let f = folder(
        "Two",
        vec![
            metadata_file("b.json", meta("second", "Second", "2", &[])),
            metadata_file("a.json", meta("first", "First", "1", &[])),
        ],
    );
    let mods = ModList::get_local_mods(&vec![f]);
    assert_eq!(mods.len(), 1);
    assert_eq!(mods[0].id, "second");
}

#[test]
fn files_that_are_no_metadata_are_passed_over() {
    let mut dir_entry = metadata_file("dir.json", meta("dir", "Dir", "1", &[]));
    dir_entry.is_file = false;
    let f = folder(
        "Picky",
        vec![
            metadata_file("notes.txt", meta("txt", "Txt", "1", &[])),
            metadata_file(".json", meta("dot", "Dot", "1", &[])),
            dir_entry,
            file("broken.json"),
            metadata_file("anonymous.json", meta("", "Nameless", "1", &[])),
            metadata_file("real.json", meta("real", "Real", "3", &["Cy"])),
        ],
    );
    let mods = ModList::get_local_mods(&vec![f]);
    assert_eq!(mods.len(), 1);
    assert_eq!(mods[0].id, "real");
    assert_eq!(mods[0].name, "Real");
}

#[test]
fn metadata_candidates_are_regular_json_files() {
    assert!(is_metadata_candidate("mod.json", true));
    assert!(is_metadata_candidate("a.json", true));
    assert!(is_metadata_candidate("archive.tar.json", true));
    assert!(is_metadata_candidate("..json", true));
    assert!(!is_metadata_candidate(".json", true));
    assert!(!is_metadata_candidate("json", true));
    assert!(!is_metadata_candidate("mod.JSON", true));
    assert!(!is_metadata_candidate("mod.json5", true));
    assert!(!is_metadata_candidate("mod.json", false));
    assert!(!is_metadata_candidate("", true));
}

#[test]
fn legacy_loader_gets_identifier_author_and_script_version() {
    let mut f = folder(
        "smods",
        vec![file("version.lua"), metadata_file("smods.json", meta("", "Steamodded", "", &[]))],
    );
    f.version_script = Some("return \"1.0.0~BETA-0614a-STEAMODDED\"\n".to_string());
    let mods = ModList::get_local_mods(&vec![f]);
    assert_eq!(mods.len(), 1);
    assert_eq!(mods[0].id, "steamodded");
    assert_eq!(mods[0].name, "Steamodded");
    assert_eq!(mods[0].version, "1.0.0~BETA-0614a-STEAMODDED");
    assert_eq!(mods[0].author, vec!["the Steamodded contributors".to_string()]);
    assert!(mods[0].force_enable);
    assert_eq!(mods[0].enabled, Some(true));
    assert_eq!(mods[0].folder, "/mods/smods");
}

#[test]
fn legacy_loader_without_a_usable_script_has_version_one() {
    let f = folder("smods", vec![metadata_file("smods.json", meta("", "Steamodded", "", &[]))]);
    let mods = ModList::get_local_mods(&vec![f]);
    assert_eq!(mods[0].version, "1.0.0");
    let mut g = folder("smods", vec![metadata_file("smods.json", meta("", "Steamodded", "", &[]))]);
    g.version_script = Some("return nothing".to_string());
    let mods = ModList::get_local_mods(&vec![g]);
    assert_eq!(mods[0].version, "1.0.0");
    assert_eq!(mods[0].id, "steamodded");
}

#[test]
fn version_is_the_first_quoted_text_of_the_first_line() {
    assert_eq!(version_from_script("return \"1.2.3\""), Some("1.2.3".to_string()));
    assert_eq!(version_from_script("return \"1.2.3\"\nreturn \"9\""), Some("1.2.3".to_string()));
    assert_eq!(version_from_script("x = \"a\" .. \"b\""), Some("a".to_string()));
    assert_eq!(version_from_script("return \"open"), Some("open".to_string()));
    assert_eq!(version_from_script("return \"open\r\nmore"), Some("open".to_string()));
    assert_eq!(version_from_script("return \"\""), Some(String::new()));
    assert_eq!(version_from_script("tail\""), Some(String::new()));
    assert_eq!(version_from_script("\"é√\" rest"), Some("é√".to_string()));
}

#[test]
fn a_script_without_a_quote_in_its_first_line_states_no_version() {
    assert_eq!(version_from_script(""), None);
    assert_eq!(version_from_script("return 1"), None);
    assert_eq!(version_from_script("\n\"2.0\""), None);
    assert_eq!(version_from_script("return\n\"2.0\""), None);
}

#[test]
fn the_marker_decides_whether_a_mod_is_enabled() {
    let m = Mod::new();
    assert!(m.get_enabled(&vec![file("a.lua"), file("b.json")]));
    assert!(m.get_enabled(&Vec::new()));
    assert!(!m.get_enabled(&vec![file("a.lua"), file(".lovelyignore")]));
    assert!(m.get_enabled(&vec![file(".lovelyignore.bak"), file("lovelyignore")]));
    assert!(holds_marker(&vec![file(".lovelyignore")]));
    assert!(!holds_marker(&vec![file(".LovelyIgnore")]));
}

#[test]
fn refresh_sets_the_flag_from_the_folder() {
    let mut m = meta("foo", "Foo", "1", &[]);
    m.refresh_enabled(&vec![file(".lovelyignore")]);
    assert_eq!(m.enabled, Some(false));
    m.refresh_enabled(&vec![file("main.lua")]);
    assert_eq!(m.enabled, Some(true));
    assert_eq!(m.name, "Foo");
}

#[test]
fn toggling_an_enabled_mod_creates_the_marker() {
    let mut m = meta("foo", "Foo", "1", &[]);
    m.enabled = Some(true);
    let mut entries = vec![file("main.lua")];
    assert_eq!(m.toggle_enabled(&mut entries), MarkerChange::Create);
    assert_eq!(m.enabled, Some(false));
    let names: Vec<&str> = entries.iter().map(|e| e.name.as_str()).collect();
    assert_eq!(names, vec!["main.lua", ".lovelyignore"]);
    assert!(!m.get_enabled(&entries));
}

#[test]
fn toggling_a_disabled_mod_removes_the_marker() {
    let mut m = meta("foo", "Foo", "1", &[]);
    m.enabled = Some(false);
    let mut entries = vec![file(".lovelyignore"), file("main.lua")];
    assert_eq!(m.toggle_enabled(&mut entries), MarkerChange::Remove);
    assert_eq!(m.enabled, Some(true));
    let names: Vec<&str> = entries.iter().map(|e| e.name.as_str()).collect();
    assert_eq!(names, vec!["main.lua"]);
}

#[test]
fn toggling_twice_returns_to_the_start() {
    let mut m = meta("foo", "Foo", "1", &["Ann"]);
    let mut entries = vec![file("a.lua"), file("b.lua")];
    m.refresh_enabled(&entries);
    m.toggle_enabled(&mut entries);
    m.toggle_enabled(&mut entries);
    assert_eq!(m.enabled, Some(true));
    let names: Vec<&str> = entries.iter().map(|e| e.name.as_str()).collect();
    assert_eq!(names, vec!["a.lua", "b.lua"]);

    let mut marked = vec![file(".lovelyignore"), file("a.lua")];
    m.refresh_enabled(&marked);
    assert_eq!(m.toggle_enabled(&mut marked), MarkerChange::Remove);
    assert_eq!(m.toggle_enabled(&mut marked), MarkerChange::Create);
    assert_eq!(m.enabled, Some(false));
    let mut names: Vec<&str> = marked.iter().map(|e| e.name.as_str()).collect();
    names.sort();
    assert_eq!(names, vec![".lovelyignore", "a.lua"]);
}

#[test]
fn toggling_trusts_the_folder_not_the_cached_flag() {
    let mut m = meta("foo", "Foo", "1", &[]);
    m.enabled = Some(true);
    let mut entries = vec![file(".lovelyignore")];
    assert_eq!(m.toggle_enabled(&mut entries), MarkerChange::Remove);
    assert_eq!(m.enabled, Some(true));
    assert!(entries.is_empty());
}

#[test]
fn a_force_enabled_mod_refuses_to_toggle() {
    let mut m = meta("steamodded", "Steamodded", "1", &[]);
    m.force_enable = true;
    m.enabled = Some(true);
    let mut entries = vec![file("core.lua")];
    assert_eq!(m.toggle_enabled(&mut entries), MarkerChange::Refused);
    assert_eq!(m.enabled, Some(true));
    assert_eq!(entries.len(), 1);
    assert_eq!(entries[0].name, "core.lua");
}

#[test]
fn apply_change_edits_the_listing() {
    let mut entries = vec![file(".lovelyignore"), file("x"), file(".lovelyignore")];
    apply_change(&mut entries, MarkerChange::Refused);
    assert_eq!(entries.len(), 3);
    apply_change(&mut entries, MarkerChange::Remove);
    assert_eq!(entries.len(), 1);
    assert_eq!(entries[0].name, "x");
    apply_change(&mut entries, MarkerChange::Create);
    assert_eq!(entries.len(), 2);
    assert_eq!(entries[1].name, ".lovelyignore");
    assert!(entries[1].is_file);
    assert!(entries[1].parsed.is_none());
}

#[test]
fn from_file_places_the_metadata_in_the_folder() {
    let entry = metadata_file("m.json", meta("foo", "Foo", "1.0.0", &["Ann"]));
    let found = Mod::from_file(&entry, "/mods/Foo").unwrap();
    assert_eq!(found.id, "foo");
    assert_eq!(found.folder, "/mods/Foo");
    assert_eq!(found.author, vec!["Ann".to_string()]);
    assert!(Mod::from_file(&file("m.json"), "/mods/Foo").is_none());
}

#[test]
fn from_directory_finds_the_first_identified_mod() {
    let f = folder(
        "Work",
        vec![
            metadata_file("legacy.json", meta("", "Steamodded", "0", &[])),
            metadata_file("mine.json", meta("mine", "Mine", "0.1", &["Me"])),
            metadata_file("other.json", meta("other", "Other", "0.2", &[])),
            file(".lovelyignore"),
        ],
    );
    let found = Mod::from_directory(&f).unwrap();
    assert_eq!(found.id, "mine");
    assert_eq!(found.name, "Mine");
    assert_eq!(found.folder, "/mods/Work");
    assert_eq!(found.enabled, Some(false));
}

#[test]
fn from_directory_gives_a_blank_mod_where_there_is_none() {
    let found = Mod::from_directory(&folder("Empty", vec![file("main.lua")])).unwrap();
    assert_eq!(found.id, "");
    assert_eq!(found.name, "");
    assert_eq!(found.enabled, None);
    let mut stray = folder("file", vec![]);
    stray.is_dir = false;
    assert!(Mod::from_directory(&stray).is_none());
}

#[test]
fn mods_come_in_the_order_of_the_listing() {
    let folders = vec![
        folder("Zeta", vec![metadata_file("z.json", meta("z", "Zeta", "1", &[]))]),
        folder("lovely", vec![]),
        folder("Alpha", vec![]),
        folder("Mid", vec![metadata_file("m.json", meta("m", "Mid", "1", &[]))]),
    ];
    let mods = ModList::get_local_mods(&folders);
    let names: Vec<&str> = mods.iter().map(|m| m.name.as_str()).collect();
    assert_eq!(names, vec!["Zeta", "Alpha", "Mid"]);
}

#[test]
fn clone_copies_every_field_of_a_mod() {
    let mut m = meta("foo", "Foo", "1.0.0", &["Ann", "Bob"]);
    m.folder = "/mods/Foo".to_string();
    m.description = "does things".to_string();
    m.dependencies = vec!["dep".to_string()];
    m.enabled = Some(false);
    m.force_enable = true;
    let c = m.clone();
    assert_eq!(c.id, m.id);
    assert_eq!(c.name, m.name);
    assert_eq!(c.folder, m.folder);
    assert_eq!(c.description, m.description);
    assert_eq!(c.version, m.version);
    assert_eq!(c.author, m.author);
    assert_eq!(c.dependencies, m.dependencies);
    assert_eq!(c.enabled, m.enabled);
    assert_eq!(c.force_enable, m.force_enable);
}

#[test]
fn lowercase_names_of_loader_folders_are_denied() {
    assert!(denies("lovely"));
    assert!(denies("lovely-dump"));
    assert!(denies("steamodded"));
    assert!(denies("steamodded-main"));
    assert!(!denies("Lovely"));
    assert!(!denies("STEAMODDED"));
    assert!(!denies("love"));
    assert!(!denies("steamodde"));
    assert!(!denies("my-lovely"));
    assert!(!denies(""));
}
