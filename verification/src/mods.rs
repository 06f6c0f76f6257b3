//! The catalog of installed mods and the entries of the remote index, built
//! from directory listings that the caller has read.

use crate::text::{
    chars_of, clone_strings, ends_with, first_where, is_prefix, is_suffix, lemma_first_where,
    lowercase, starts_with, str_eq, to_lowercase, views,
};
use vstd::prelude::*;
use vstd::string::StrSliceExecFns;
use vstd::string::StringExecFns;

verus! {

/// The name of the file whose presence in a mod's folder disables the mod.
pub open spec fn marker() -> Seq<char> {
    ".lovelyignore"@
}

/// An installed mod.
#[derive(Debug)]
pub struct Mod {
    pub id: String,
    pub name: String,
    /// The path of the folder that holds the mod.
    pub folder: String,
    pub description: String,
    pub version: String,
    pub author: Vec<String>,
    pub dependencies: Vec<String>,
    /// What the last look at the folder found; `None` before any look.
    pub enabled: Option<bool>,
    /// Set for the loaders that this tool never disables.
    pub force_enable: bool,
}

/// A mod as a value.
pub struct ModView {
    pub id: Seq<char>,
    pub name: Seq<char>,
    pub folder: Seq<char>,
    pub description: Seq<char>,
    pub version: Seq<char>,
    pub author: Seq<Seq<char>>,
    pub dependencies: Seq<Seq<char>>,
    pub enabled: Option<bool>,
    pub force_enable: bool,
}

impl View for Mod {
    type V = ModView;

    open spec fn view(&self) -> ModView {
        ModView {
            id: self.id@,
            name: self.name@,
            folder: self.folder@,
            description: self.description@,
            version: self.version@,
            author: views(self.author@),
            dependencies: views(self.dependencies@),
            enabled: self.enabled,
            force_enable: self.force_enable,
        }
    }
}

impl Clone for Mod {
    fn clone(&self) -> (r: Self)
        ensures
            r@ == self@,
    {
        Mod {
            id: self.id.clone(),
            name: self.name.clone(),
            folder: self.folder.clone(),
            description: self.description.clone(),
            version: self.version.clone(),
            author: clone_strings(&self.author),
            dependencies: clone_strings(&self.dependencies),
            enabled: self.enabled,
            force_enable: self.force_enable,
        }
    }
}

/// One entry of a mod's folder, as the caller found it.
#[derive(Debug)]
pub struct FileEntry {
    pub name: String,
    /// Whether the entry is a regular file.
    pub is_file: bool,
    /// The metadata read from the file, where it holds any.
    pub parsed: Option<Mod>,
}

/// One entry of the installation directory, as the caller found it.
#[derive(Debug)]
pub struct ModFolder {
    /// The entry's own name.
    pub name: String,
    /// The entry's full path.
    pub path: String,
    /// Whether the entry is a directory.
    pub is_dir: bool,
    /// What lies directly inside it, in the order it was listed.
    pub entries: Vec<FileEntry>,
    /// The text of the version script beside a legacy loader, if there is one.
    pub version_script: Option<String>,
}

/// The names of the entries of a folder.
pub open spec fn entry_names(entries: Seq<FileEntry>) -> Seq<Seq<char>> {
    Seq::new(entries.len(), |i: int| entries[i].name@)
}

/// A mod is enabled unless its folder holds the marker.
pub open spec fn enabled_in(entries: Seq<FileEntry>) -> bool {
    !entry_names(entries).contains(marker())
}

/// What toggling a mod asks of the file system.
#[derive(Clone, Copy, Debug, PartialEq, Eq, Structural)]
pub enum MarkerChange {
    /// The mod is force-enabled: nothing is to be done.
    Refused,
    /// The marker is to be created, which disables the mod.
    Create,
    /// The marker is to be removed, which enables the mod.
    Remove,
}

/// The change that toggling asks for.
pub open spec fn toggle_change(force_enable: bool, entries: Seq<FileEntry>) -> MarkerChange {
    if force_enable {
        MarkerChange::Refused
    } else if enabled_in(entries) {
        MarkerChange::Create
    } else {
        MarkerChange::Remove
    }
}

/// Holds of every name but the marker's.
pub open spec fn not_marker() -> spec_fn(Seq<char>) -> bool {
    |n: Seq<char>| n != marker()
}

/// The names in a folder once `change` is carried out: creating adds the
/// marker, removing takes every entry of that name away.
pub open spec fn names_after(names: Seq<Seq<char>>, change: MarkerChange) -> Seq<Seq<char>> {
    match change {
        MarkerChange::Refused => names,
        MarkerChange::Create => names.push(marker()),
        MarkerChange::Remove => names.filter(not_marker()),
    }
}

/// Holds of every entry that is not named like the marker.
pub open spec fn not_the_marker() -> spec_fn(FileEntry) -> bool {
    |e: FileEntry| e.name@ != marker()
}

/// `after` is the listing `before` once `change` is carried out. Creating
/// puts one entry behind the others: a regular file named like the marker,
/// without metadata. Removing takes away every entry of that name and leaves
/// the others as they were, in their order. A refusal leaves the listing.
pub open spec fn changed_by(
    before: Seq<FileEntry>,
    change: MarkerChange,
    after: Seq<FileEntry>,
) -> bool {
    match change {
        MarkerChange::Refused => after == before,
        MarkerChange::Create => {
            &&& after.len() == before.len() + 1
            &&& after.drop_last() == before
            &&& after.last().name@ == marker()
            &&& after.last().is_file
            &&& after.last().parsed is None
        },
        MarkerChange::Remove => after == before.filter(not_the_marker()),
    }
}

/// Whether the folder with these entries holds the marker.
pub fn holds_marker(entries: &Vec<FileEntry>) -> (held: bool)
    ensures
        held == !enabled_in(entries@),
{
    let mut i: usize = 0;
    while i < entries.len()
        invariant
            i <= entries.len(),
            forall|k: int| 0 <= k < i ==> entry_names(entries@)[k] != marker(),
        decreases entries.len() - i,
    {
        if str_eq(entries[i].name.as_str(), ".lovelyignore") {
            assert(entry_names(entries@)[i as int] == marker());
            return true;
        }
        i += 1;
    }
    false
}

/// Carries `change` out on the listing of a folder, as the file system
/// would show it afterwards.
pub fn apply_change(entries: &mut Vec<FileEntry>, change: MarkerChange)
    ensures
        changed_by(old(entries)@, change, final(entries)@),
        entry_names(final(entries)@) == names_after(entry_names(old(entries)@), change),
{
    match change {
        MarkerChange::Refused => {},
        MarkerChange::Create => {
            entries.push(
                FileEntry { name: String::from_str(".lovelyignore"), is_file: true, parsed: None },
            );
            assert(entries@.drop_last() =~= old(entries)@);
            assert(entry_names(entries@) =~= entry_names(old(entries)@).push(marker()));
        },
        MarkerChange::Remove => {
            let ghost listed = entries@;
            let ghost before = entry_names(entries@);
            let ghost keep = not_marker();
            let ghost kept = not_the_marker();
            let mut all: Vec<FileEntry> = Vec::new();
            std::mem::swap(entries, &mut all);
            for e in it: all
                invariant
                    keep == not_marker(),
                    kept == not_the_marker(),
                    it.seq() == listed,
                    entry_names(it.seq()) == before,
                    entries@ == it.seq().take(it.index() as int).filter(kept),
                    entry_names(entries@) == entry_names(it.seq()).take(it.index() as int).filter(
                        keep,
                    ),
            {
                proof {
                    let done = it.index() as int;
                    assert(before.take(done + 1).drop_last() =~= before.take(done));
                    assert(before.take(done + 1).last() == e.name@);
                    assert(listed.take(done + 1).drop_last() =~= listed.take(done));
                    assert(listed.take(done + 1).last() == e);
                    reveal(Seq::filter);
                }
                if !str_eq(e.name.as_str(), ".lovelyignore") {
                    entries.push(e);
                    assert(entry_names(entries@) =~= before.take(it.index() as int).filter(
                        keep,
                    ).push(e.name@));
                }
            }
            assert(before.take(before.len() as int) =~= before);
            assert(listed.take(listed.len() as int) =~= listed);
        },
    }
}

impl Mod {
    /// A mod with every field empty, not yet looked at and not forced.
    pub open spec fn blank() -> ModView {
        ModView {
            id: Seq::empty(),
            name: Seq::empty(),
            folder: Seq::empty(),
            description: Seq::empty(),
            version: Seq::empty(),
            author: Seq::empty(),
            dependencies: Seq::empty(),
            enabled: None,
            force_enable: false,
        }
    }

    /// A mod with every field empty.
    pub fn new() -> (m: Self)
        ensures
            m@ == Mod::blank(),
    {
        let m = Mod {
            id: String::new(),
            name: String::new(),
            folder: String::new(),
            description: String::new(),
            version: String::new(),
            author: Vec::new(),
            dependencies: Vec::new(),
            enabled: None,
            force_enable: false,
        };
        assert(views(m.author@) =~= Seq::<Seq<char>>::empty());
        assert(views(m.dependencies@) =~= Seq::<Seq<char>>::empty());
        m
    }

    /// Whether the mod is enabled, by the entries of its folder: it is unless
    /// the marker is among them. The cached flag is not consulted.
    pub fn get_enabled(&self, entries: &Vec<FileEntry>) -> (enabled: bool)
        ensures
            enabled == enabled_in(entries@),
    {
        !holds_marker(entries)
    }

    /// Sets the cached flag to what the entries of the folder show.
    pub fn refresh_enabled(&mut self, entries: &Vec<FileEntry>)
        ensures
            final(self)@ == (ModView { enabled: Some(enabled_in(entries@)), ..old(self)@ }),
    {
        self.enabled = Some(!holds_marker(entries));
    }

    /// Toggles the mod between enabled and disabled. `entries` is the
    /// listing of the mod's folder; the change is carried out on it and
    /// returned for the caller to carry out on the file system. A
    /// force-enabled mod refuses and nothing changes. Otherwise the cached
    /// flag is set again from the listing as it is after the change.
    pub fn toggle_enabled(&mut self, entries: &mut Vec<FileEntry>) -> (change: MarkerChange)
        ensures
            change == toggle_change(old(self).force_enable, old(entries)@),
            changed_by(old(entries)@, change, final(entries)@),
            entry_names(final(entries)@) == names_after(entry_names(old(entries)@), change),
            change == MarkerChange::Refused ==> final(self)@ == old(self)@,
            change != MarkerChange::Refused ==> final(self)@ == (ModView {
                enabled: Some(enabled_in(final(entries)@)),
                ..old(self)@
            }),
            change == MarkerChange::Create ==> !enabled_in(final(entries)@),
            change == MarkerChange::Remove ==> enabled_in(final(entries)@),
    {
        if self.force_enable {
            return MarkerChange::Refused;
        }
        let change = if holds_marker(entries) {
            MarkerChange::Remove
        } else {
            MarkerChange::Create
        };
        proof {
            lemma_change_flips(entry_names(entries@), change);
        }
        apply_change(entries, change);
        self.enabled = Some(!holds_marker(entries));
        change
    }
}

/// The names left after the marker is removed are the names other than the
/// marker's.
pub proof fn lemma_removed_names(names: Seq<Seq<char>>)
    ensures
        forall|n: Seq<char>| #[trigger]
            names.filter(not_marker()).contains(n) <==> names.contains(n) && n != marker(),
{
    let keep = not_marker();
    let out = names.filter(keep);
    assert forall|n: Seq<char>| #[trigger] out.contains(n) <==> names.contains(n) && n != marker() by {
        if out.contains(n) {
            let i = choose|i: int| 0 <= i < out.len() && out[i] == n;
            names.lemma_filter_pred(keep, i);
            names.lemma_filter_contains_rev(keep, n);
        }
        if names.contains(n) && n != marker() {
            let j = choose|j: int| 0 <= j < names.len() && names[j] == n;
            names.lemma_filter_contains(keep, j);
        }
    }
}

/// Creating the marker puts it into the folder and removing it takes it out.
pub proof fn lemma_change_flips(names: Seq<Seq<char>>, change: MarkerChange)
    ensures
        change == MarkerChange::Create ==> names_after(names, change).contains(marker()),
        change == MarkerChange::Remove ==> !names_after(names, change).contains(marker()),
        change == MarkerChange::Refused ==> names_after(names, change) == names,
{
    if change == MarkerChange::Create {
        assert(names.push(marker())[names.len() as int] == marker());
    }
    if change == MarkerChange::Remove {
        lemma_removed_names(names);
    }
}

/// Toggling a mod that is not force-enabled flips whether its folder holds
/// the marker, and so whether it is enabled: an enabled mod has the marker
/// created, a disabled one has it removed. Toggling twice leaves the folder
/// with the same set of names and the mod as it was. A force-enabled mod is
/// refused and its folder is left alone.
pub proof fn lemma_toggle_twice(
    force_enable: bool,
    entries: Seq<FileEntry>,
    once: Seq<FileEntry>,
    twice: Seq<FileEntry>,
)
    requires
        entry_names(once) == names_after(
            entry_names(entries),
            toggle_change(force_enable, entries),
        ),
        entry_names(twice) == names_after(entry_names(once), toggle_change(force_enable, once)),
    ensures
        !force_enable ==> enabled_in(once) == !enabled_in(entries),
        !force_enable ==> (toggle_change(force_enable, entries) == MarkerChange::Create
            <==> enabled_in(entries)),
        enabled_in(twice) == enabled_in(entries),
        entry_names(twice).to_set() == entry_names(entries).to_set(),
        force_enable ==> toggle_change(force_enable, entries) == MarkerChange::Refused
            && entry_names(once) == entry_names(entries),
{
    let names = entry_names(entries);
    if !force_enable {
        lemma_change_flips(names, toggle_change(force_enable, entries));
        lemma_change_flips(entry_names(once), toggle_change(force_enable, once));
        let out = entry_names(twice);
        if enabled_in(entries) {
            let mid = names.push(marker());
            lemma_removed_names(mid);
            assert(out == mid.filter(not_marker()));
            assert forall|n: Seq<char>| out.contains(n) <==> names.contains(n) by {
                if names.contains(n) {
                    let j = choose|j: int| 0 <= j < names.len() && names[j] == n;
                    assert(mid[j] == n);
                    assert(mid.contains(n));
                }
                if out.contains(n) {
                    assert(mid.contains(n) && n != marker());
                    let j = choose|j: int| 0 <= j < mid.len() && mid[j] == n;
                    assert(names[j] == n);
                }
            }
        } else {
            let mid = names.filter(not_marker());
            lemma_removed_names(names);
            assert(out == mid.push(marker()));
            assert forall|n: Seq<char>| out.contains(n) <==> names.contains(n) by {
                if out.contains(n) {
                    let i = choose|i: int| 0 <= i < out.len() && out[i] == n;
                    if i < mid.len() {
                        assert(mid[i] == n);
                        assert(mid.contains(n));
                    }
                }
                if names.contains(n) {
                    if n == marker() {
                        assert(out[mid.len() as int] == n);
                    } else {
                        assert(mid.contains(n));
                        let j = choose|j: int| 0 <= j < mid.len() && mid[j] == n;
                        assert(out[j] == n);
                    }
                }
            }
        }
        assert(out.to_set() =~= names.to_set());
    }
}

/// Holds of the character `c` alone.
pub open spec fn is_char(c: char) -> spec_fn(char) -> bool {
    |x: char| x == c
}

/// The first line of `text` without its line ending: what stands before the
/// first line feed, less a carriage return right before it. A text without a
/// line feed is its own first line, and an empty text has none.
pub open spec fn first_line(text: Seq<char>) -> Option<Seq<char>> {
    if text.len() == 0 {
        None
    } else {
        let end = first_where(text, is_char('\n'));
        let line = text.take(end);
        if end < text.len() && line.len() > 0 && line.last() == '\r' {
            Some(line.drop_last())
        } else {
            Some(line)
        }
    }
}

/// What stands between the first double quote of `line` and the next one, or
/// the end of the line where no second quote follows; `None` for a line
/// without a quote.
pub open spec fn first_quoted(line: Seq<char>) -> Option<Seq<char>> {
    let open = first_where(line, is_char('"'));
    if open >= line.len() {
        None
    } else {
        let rest = line.skip(open + 1);
        Some(rest.take(first_where(rest, is_char('"'))))
    }
}

/// The version that a version script states: the first quoted text of its
/// first line.
pub open spec fn script_version(text: Seq<char>) -> Option<Seq<char>> {
    match first_line(text) {
        Some(line) => first_quoted(line),
        None => None,
    }
}

/// The index of the first `c` in `v` from `from` on and before `to`, or `to`
/// where there is none.
fn find_char(v: &Vec<char>, from: usize, to: usize, c: char) -> (at: usize)
    requires
        from <= to <= v@.len(),
    ensures
        at == from + first_where(v@.subrange(from as int, to as int), is_char(c)),
        from <= at <= to,
{
    let mut i: usize = from;
    while i < to && v[i] != c
        invariant
            from <= i <= to,
            to <= v@.len(),
            forall|k: int| from <= k < i ==> v@[k] != c,
        decreases to - i,
    {
        i += 1;
    }
    proof {
        let part = v@.subrange(from as int, to as int);
        assert forall|k: int| 0 <= k < i - from implies !is_char(c)(#[trigger] part[k]) by {
            assert(part[k] == v@[from + k]);
        }
        lemma_first_where(part, is_char(c), i - from);
    }
    i
}

/// Reads the version out of a version script: the first quoted text of its
/// first line, if that line holds a double quote.
pub fn version_from_script(text: &str) -> (version: Option<String>)
    ensures
        match version {
            Some(v) => script_version(text@) == Some(v@),
            None => script_version(text@) is None,
        },
{
    let v = chars_of(text);
    let n: usize = v.len();
    if n == 0 {
        return None;
    }
    let feed: usize = find_char(&v, 0, n, '\n');
    assert(v@.subrange(0, n as int) =~= v@);
    let end: usize = if feed < n && feed > 0 && v[feed - 1] == '\r' {
        feed - 1
    } else {
        feed
    };
    let ghost line = first_line(text@).unwrap();
    assert(line =~= v@.subrange(0, end as int)) by {
        if feed > 0 {
            assert(v@.take(feed as int).drop_last() =~= v@.subrange(0, feed - 1));
        }
    }
    let open: usize = find_char(&v, 0, end, '"');
    if open >= end {
        return None;
    }
    let close: usize = find_char(&v, open + 1, end, '"');
    proof {
        let rest = line.skip(open + 1);
        assert(rest =~= v@.subrange(open + 1, end as int));
        assert(rest.take(close - (open + 1)) =~= v@.subrange(open + 1, close as int));
    }
    Some(String::from_str(text.substring_char(open + 1, close)))
}

/// A file name has the extension `json`: it ends in `.json` and has at least
/// one character before the dot.
pub open spec fn has_json_extension(name: Seq<char>) -> bool {
    name.len() > 5 && is_suffix(".json"@, name)
}

/// Whether a directory entry is looked at for metadata: a regular file with
/// the extension `json`.
pub fn is_metadata_candidate(name: &str, is_file: bool) -> (candidate: bool)
    ensures
        candidate == (is_file && has_json_extension(name@)),
{
    proof {
        reveal_strlit(".json");
    }
    is_file && ends_with(name, ".json") && name.unicode_len() > 5
}

/// Metadata names a mod if it has an identifier, or the name of the legacy
/// loader that ships without one.
pub open spec fn usable(meta: ModView) -> bool {
    meta.id.len() > 0 || meta.name == "Steamodded"@
}

/// The entry is a metadata file that names a mod.
pub open spec fn is_metadata(e: FileEntry) -> bool {
    e.is_file && has_json_extension(e.name@) && e.parsed is Some && usable(e.parsed->0@)
}

/// The entry is a metadata file with an identifier.
pub open spec fn is_full_metadata(e: FileEntry) -> bool {
    e.is_file && has_json_extension(e.name@) && e.parsed is Some && e.parsed->0@.id.len() > 0
}

/// `is_metadata` as a predicate.
pub open spec fn names_mod() -> spec_fn(FileEntry) -> bool {
    |e: FileEntry| is_metadata(e)
}

/// `is_full_metadata` as a predicate.
pub open spec fn identifies_mod() -> spec_fn(FileEntry) -> bool {
    |e: FileEntry| is_full_metadata(e)
}

/// The version of the legacy loader: what its version script states, and
/// `1.0.0` where there is no script or it states none.
pub open spec fn legacy_version(script: Option<String>) -> Seq<char> {
    match script {
        Some(text) => match script_version(text@) {
            Some(v) => v,
            None => "1.0.0"@,
        },
        None => "1.0.0"@,
    }
}

/// The mod that metadata found in `folder` stands for. It lies in that
/// folder and is enabled as the folder shows. Metadata without an identifier
/// is the legacy loader's: it gets the identifier `steamodded`, its
/// contributors as author and the version of its script, and is
/// force-enabled.
pub open spec fn adopted(meta: ModView, folder: ModFolder) -> ModView {
    if meta.id.len() > 0 {
        ModView { folder: folder.path@, enabled: Some(enabled_in(folder.entries@)), ..meta }
    } else {
        ModView {
            id: "steamodded"@,
            version: legacy_version(folder.version_script),
            author: seq!["the Steamodded contributors"@],
            folder: folder.path@,
            enabled: Some(enabled_in(folder.entries@)),
            force_enable: true,
            ..meta
        }
    }
}

/// The entry that stands for a folder without metadata: named after the
/// folder, by an unknown author, of unknown version.
pub open spec fn placeholder(folder: ModFolder) -> ModView {
    ModView {
        name: folder.name@,
        folder: folder.path@,
        version: "(unknown)"@,
        author: seq!["unknown"@],
        enabled: Some(enabled_in(folder.entries@)),
        ..Mod::blank()
    }
}

/// Folders of the loaders' own infrastructure, which never get a
/// placeholder: those whose lowercase name begins with `lovely` or
/// `steamodded`.
pub open spec fn denylisted(name: Seq<char>) -> bool {
    is_prefix("lovely"@, lowercase(name)) || is_prefix("steamodded"@, lowercase(name))
}

/// The mod that a folder of the installation directory holds. The first
/// metadata file that names a mod decides. A folder without one gets a
/// placeholder unless it is denylisted. What is no directory holds nothing.
pub open spec fn scanned(folder: ModFolder) -> Option<ModView> {
    let found = first_where(folder.entries@, names_mod());
    if !folder.is_dir {
        None
    } else if found < folder.entries@.len() {
        Some(adopted(folder.entries@[found].parsed->0@, folder))
    } else if denylisted(folder.name@) {
        None
    } else {
        Some(placeholder(folder))
    }
}

/// The mods of a list of folders, in the order of the folders.
pub open spec fn catalog(folders: Seq<ModFolder>) -> Seq<ModView>
    decreases folders.len(),
{
    if folders.len() == 0 {
        Seq::empty()
    } else {
        match scanned(folders.last()) {
            Some(m) => catalog(folders.drop_last()).push(m),
            None => catalog(folders.drop_last()),
        }
    }
}

/// The mods of a list, as values.
pub open spec fn mod_views(mods: Seq<Mod>) -> Seq<ModView> {
    Seq::new(mods.len(), |i: int| mods[i]@)
}

/// Whether a lowercase folder name marks a folder of the loaders' own: it
/// begins with `lovely` or with `steamodded`.
pub fn denies(lower: &str) -> (denied: bool)
    ensures
        denied == (is_prefix("lovely"@, lower@) || is_prefix("steamodded"@, lower@)),
{
    starts_with(lower, "lovely") || starts_with(lower, "steamodded")
}

/// Whether a folder name is denylisted.
pub fn is_denylisted(name: &str) -> (denied: bool)
    ensures
        denied == denylisted(name@),
{
    let lower = to_lowercase(name);
    denies(lower.as_str())
}

/// The index of the first entry that is a metadata file naming a mod, with
/// an identifier if `full` is set; the number of entries where none is.
fn find_metadata(entries: &Vec<FileEntry>, full: bool) -> (at: usize)
    ensures
        at == first_where(
            entries@,
            if full {
                identifies_mod()
            } else {
                names_mod()
            },
        ),
        at <= entries@.len(),
{
    let ghost wanted = if full {
        identifies_mod()
    } else {
        names_mod()
    };
    let mut i: usize = 0;
    while i < entries.len()
        invariant
            i <= entries@.len(),
            wanted == if full {
                identifies_mod()
            } else {
                names_mod()
            },
            forall|k: int| 0 <= k < i ==> !wanted(#[trigger] entries@[k]),
        decreases entries@.len() - i,
    {
        let e = &entries[i];
        if is_metadata_candidate(e.name.as_str(), e.is_file) {
            match &e.parsed {
                Some(meta) => {
                    let has_id = !meta.id.as_str().is_empty();
                    if has_id || (!full && str_eq(meta.name.as_str(), "Steamodded")) {
                        proof {
                            lemma_first_where(entries@, wanted, i as int);
                        }
                        return i;
                    }
                },
                None => {},
            }
        }
        i += 1;
    }
    proof {
        lemma_first_where(entries@, wanted, i as int);
    }
    i
}

impl Mod {
    /// The metadata of a file as a mod lying in `folder`; `None` for a file
    /// that held no metadata.
    pub fn from_file(entry: &FileEntry, folder: &str) -> (m: Option<Self>)
        ensures
            match m {
                Some(found) => entry.parsed is Some && found@ == (ModView {
                    folder: folder@,
                    ..entry.parsed->0@
                }),
                None => entry.parsed is None,
            },
    {
        match &entry.parsed {
            Some(meta) => {
                let mut found = meta.clone();
                found.folder = String::from_str(folder);
                Some(found)
            },
            None => None,
        }
    }

    /// What `from_directory` gives for a directory.
    pub open spec fn found_in(folder: ModFolder) -> ModView {
        let found = first_where(folder.entries@, identifies_mod());
        if found < folder.entries@.len() {
            adopted(folder.entries@[found].parsed->0@, folder)
        } else {
            Mod::blank()
        }
    }

    /// The mod that a directory holds, by its first metadata file with an
    /// identifier; a blank mod where there is none. `None` for what is no
    /// directory.
    pub fn from_directory(folder: &ModFolder) -> (m: Option<Self>)
        ensures
            match m {
                Some(found) => folder.is_dir && found@ == Mod::found_in(*folder),
                None => !folder.is_dir,
            },
    {
        if !folder.is_dir {
            return None;
        }
        let at: usize = find_metadata(&folder.entries, true);
        if at < folder.entries.len() {
            proof {
                crate::text::lemma_first_where_bounds(folder.entries@, identifies_mod());
            }
            match Mod::from_file(&folder.entries[at], folder.path.as_str()) {
                Some(mut found) => {
                    found.enabled = Some(!holds_marker(&folder.entries));
                    Some(found)
                },
                None => Some(Mod::new()),
            }
        } else {
            Some(Mod::new())
        }
    }
}

/// The catalog of installed mods.
#[derive(Debug)]
pub struct ModList {}

impl ModList {
    /// The catalog.
    pub fn new() -> Self {
        ModList {  }
    }

    /// The mod that one folder of the installation directory holds, if any.
    pub fn scan_folder(folder: &ModFolder) -> (m: Option<Mod>)
        ensures
            match m {
                Some(found) => scanned(*folder) == Some(found@),
                None => scanned(*folder) is None,
            },
    {
        if !folder.is_dir {
            return None;
        }
        let enabled = Some(!holds_marker(&folder.entries));
        let at: usize = find_metadata(&folder.entries, false);
        if at < folder.entries.len() {
            proof {
                crate::text::lemma_first_where_bounds(folder.entries@, names_mod());
            }
            match Mod::from_file(&folder.entries[at], folder.path.as_str()) {
                Some(mut found) => {
                    found.enabled = enabled;
                    if found.id.as_str().is_empty() {
                        found.id = String::from_str("steamodded");
                        found.force_enable = true;
                        let mut author: Vec<String> = Vec::new();
                        author.push(String::from_str("the Steamodded contributors"));
                        assert(views(author@) =~= seq!["the Steamodded contributors"@]);
                        found.author = author;
                        found.version = String::from_str("1.0.0");
                        match &folder.version_script {
                            Some(text) => match version_from_script(text.as_str()) {
                                Some(v) => {
                                    found.version = v;
                                },
                                None => {},
                            },
                            None => {},
                        }
                    }
                    Some(found)
                },
                None => None,
            }
        } else if is_denylisted(folder.name.as_str()) {
            None
        } else {
            let mut found = Mod::new();
            found.folder = folder.path.clone();
            found.enabled = enabled;
            let mut author: Vec<String> = Vec::new();
            author.push(String::from_str("unknown"));
            assert(views(author@) =~= seq!["unknown"@]);
            found.author = author;
            found.name = folder.name.clone();
            found.version = String::from_str("(unknown)");
            Some(found)
        }
    }

    /// The installed mods, by the listing of the installation directory: one
    /// for each folder that holds a mod, in the order of the listing.
    pub fn get_local_mods(folders: &Vec<ModFolder>) -> (mods: Vec<Mod>)
        ensures
            mod_views(mods@) == catalog(folders@),
    {
        let mut mods: Vec<Mod> = Vec::new();
        let mut i: usize = 0;
        while i < folders.len()
            invariant
                i <= folders@.len(),
                mod_views(mods@) == catalog(folders@.take(i as int)),
            decreases folders@.len() - i,
        {
            proof {
                assert(folders@.take(i + 1).drop_last() =~= folders@.take(i as int));
                assert(folders@.take(i + 1).last() == folders@[i as int]);
            }
            match ModList::scan_folder(&folders[i]) {
                Some(found) => {
                    mods.push(found);
                    assert(mod_views(mods@) =~= catalog(folders@.take(i as int)).push(found@));
                },
                None => {},
            }
            i += 1;
        }
        assert(folders@.take(folders@.len() as int) =~= folders@);
        mods
    }
}

/// A folder that is a directory, holds no metadata file naming a mod and is
/// not denylisted yields a placeholder: named after the folder, with the one
/// author `unknown` and the version `(unknown)`.
pub proof fn lemma_placeholder(folder: ModFolder)
    requires
        folder.is_dir,
        forall|i: int| 0 <= i < folder.entries@.len() ==> !is_metadata(#[trigger] folder.entries@[i]),
        !denylisted(folder.name@),
    ensures
        scanned(folder) == Some(placeholder(folder)),
        placeholder(folder).name == folder.name@,
        placeholder(folder).author == seq!["unknown"@],
        placeholder(folder).version == "(unknown)"@,
        catalog(seq![folder]) == seq![placeholder(folder)],
{
    lemma_first_where(folder.entries@, names_mod(), folder.entries@.len() as int);
    let one = seq![folder];
    reveal_with_fuel(catalog, 2);
    assert(one.drop_last() =~= Seq::<ModFolder>::empty());
    assert(one.last() == folder);
    assert(catalog(one) =~= seq![placeholder(folder)]);
}

/// An entry of the remote index.
#[derive(Debug)]
pub struct RemoteMod {
    pub title: String,
    pub version: String,
    pub author: String,
    pub categories: Vec<String>,
    /// The repository the mod is developed in.
    pub repo: String,
    /// Where the mod's archive is fetched from.
    pub download_url: String,
    /// The folder the mod is installed into.
    pub folder_name: String,
    /// The name of the entry's directory in the index.
    pub identifier: String,
}

/// A remote mod as a value.
pub struct RemoteModView {
    pub title: Seq<char>,
    pub version: Seq<char>,
    pub author: Seq<char>,
    pub categories: Seq<Seq<char>>,
    pub repo: Seq<char>,
    pub download_url: Seq<char>,
    pub folder_name: Seq<char>,
    pub identifier: Seq<char>,
}

impl View for RemoteMod {
    type V = RemoteModView;

    open spec fn view(&self) -> RemoteModView {
        RemoteModView {
            title: self.title@,
            version: self.version@,
            author: self.author@,
            categories: views(self.categories@),
            repo: self.repo@,
            download_url: self.download_url@,
            folder_name: self.folder_name@,
            identifier: self.identifier@,
        }
    }
}

impl Clone for RemoteMod {
    fn clone(&self) -> (r: Self)
        ensures
            r@ == self@,
    {
        RemoteMod {
            title: self.title.clone(),
            version: self.version.clone(),
            author: self.author.clone(),
            categories: clone_strings(&self.categories),
            repo: self.repo.clone(),
            download_url: self.download_url.clone(),
            folder_name: self.folder_name.clone(),
            identifier: self.identifier.clone(),
        }
    }
}

/// What the caller found of an entry's `meta.json`.
#[derive(Debug)]
pub enum MetaFile {
    /// The entry holds no such file.
    Missing,
    /// The file could not be read as metadata.
    Invalid,
    /// The metadata that the file holds.
    Parsed(RemoteMod),
}

/// One entry of the mirror's directory of mods, as the caller found it.
#[derive(Debug)]
pub struct IndexEntry {
    /// The entry's own name.
    pub name: String,
    /// Whether the entry is a directory.
    pub is_dir: bool,
    pub meta: MetaFile,
}

/// The remote mod that an entry of the index stands for: a directory with
/// metadata, identified by the directory's name whatever the metadata says.
pub open spec fn indexed(entry: IndexEntry) -> Option<RemoteModView> {
    match entry.meta {
        MetaFile::Parsed(meta) => if entry.is_dir {
            Some(RemoteModView { identifier: entry.name@, ..meta@ })
        } else {
            None
        },
        _ => None,
    }
}

/// The remote mods of a listing, in the order of the listing.
pub open spec fn index_of(entries: Seq<IndexEntry>) -> Seq<RemoteModView>
    decreases entries.len(),
{
    if entries.len() == 0 {
        Seq::empty()
    } else {
        match indexed(entries.last()) {
            Some(m) => index_of(entries.drop_last()).push(m),
            None => index_of(entries.drop_last()),
        }
    }
}

/// The remote mods of a list, as values.
pub open spec fn remote_views(mods: Seq<RemoteMod>) -> Seq<RemoteModView> {
    Seq::new(mods.len(), |i: int| mods[i]@)
}

impl RemoteMod {
    /// A remote mod with every field empty.
    pub open spec fn blank() -> RemoteModView {
        RemoteModView {
            title: Seq::empty(),
            version: Seq::empty(),
            author: Seq::empty(),
            categories: Seq::empty(),
            repo: Seq::empty(),
            download_url: Seq::empty(),
            folder_name: Seq::empty(),
            identifier: Seq::empty(),
        }
    }

    /// A remote mod with every field empty.
    pub fn new() -> (m: Self)
        ensures
            m@ == RemoteMod::blank(),
    {
        let m = RemoteMod {
            title: String::new(),
            version: String::new(),
            author: String::new(),
            categories: Vec::new(),
            repo: String::new(),
            download_url: String::new(),
            folder_name: String::new(),
            identifier: String::new(),
        };
        assert(views(m.categories@) =~= Seq::<Seq<char>>::empty());
        m
    }

    /// The remote mod of one entry of the index. An entry that is no
    /// directory, or whose metadata is missing or invalid, is skipped.
    pub fn from_directory(entry: &IndexEntry) -> (m: Option<Self>)
        ensures
            match m {
                Some(found) => indexed(*entry) == Some(found@),
                None => indexed(*entry) is None,
            },
    {
        if !entry.is_dir {
            return None;
        }
        match &entry.meta {
            MetaFile::Parsed(meta) => {
                let mut found = meta.clone();
                found.identifier = entry.name.clone();
                Some(found)
            },
            _ => None,
        }
    }
}

impl ModList {
    /// The entries of the remote index, by the listing of the mirror's
    /// directory of mods.
    pub fn get_remote_mods(entries: &Vec<IndexEntry>) -> (mods: Vec<RemoteMod>)
        ensures
            remote_views(mods@) == index_of(entries@),
    {
        let mut mods: Vec<RemoteMod> = Vec::new();
        let mut i: usize = 0;
        while i < entries.len()
            invariant
                i <= entries@.len(),
                remote_views(mods@) == index_of(entries@.take(i as int)),
            decreases entries@.len() - i,
        {
            proof {
                assert(entries@.take(i + 1).drop_last() =~= entries@.take(i as int));
                assert(entries@.take(i + 1).last() == entries@[i as int]);
            }
            match RemoteMod::from_directory(&entries[i]) {
                Some(found) => {
                    mods.push(found);
                    assert(remote_views(mods@) =~= index_of(entries@.take(i as int)).push(found@));
                },
                None => {},
            }
            i += 1;
        }
        assert(entries@.take(entries@.len() as int) =~= entries@);
        mods
    }
}

} // verus!
