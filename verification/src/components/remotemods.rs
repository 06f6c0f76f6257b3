//! The panel of the remote index: a search field over a list of mods that
//! can be installed.

use crate::action::{Action, KeyCode, KeyEvent};
use crate::components::optionselector::{
    row_view, rows_view, OptionSelector, OptionSelectorText, SpanView,
};
use crate::components::textinput::{text_after, TextInput};
use crate::mods::{index_of, remote_views, IndexEntry, ModList, RemoteMod, RemoteModView};
use crate::order::{
    arranged, ascends, key_views, lemma_sorted_keys, sort_by_keys, sorted, stable_sort_of,
};
use crate::style::{Color, Style};
use crate::text::{first_where, lemma_first_where, lowercase, str_eq, to_lowercase, views};
use nucleo_matcher::pattern::{CaseMatching, Normalization, Pattern};
use nucleo_matcher::{Config, Matcher};
use vstd::prelude::*;
use vstd::string::StrSliceExecFns;
use vstd::string::StringExecFns;
use vstd::utf8::encode_utf8;

verus! {

/// What the panel is doing.
#[derive(Debug)]
pub enum State {
    Normal,
    /// This mod was chosen and its installation starts with the next tick.
    Downloading(RemoteMod),
}

/// The longest title, in characters, that the matcher takes.
pub const MAX_TITLE: usize = u32::MAX as usize;

/// The longest query, in characters, that is handed to the matcher. The
/// matcher adds up its scores in sixteen bits, and within this length they
/// stay in range.
pub const MAX_QUERY: usize = 2048;

/// The row that shows a remote mod: its title, its version between spaces,
/// its author after `by`, and its identifier.
pub open spec fn remote_row(m: RemoteModView) -> Seq<SpanView> {
    seq![
        SpanView { text: m.title, style: Style::plain() },
        SpanView {
            text: " "@ + m.version + " "@,
            style: Style { fg: Some(Color::LightBlue), bold: false },
        },
        SpanView {
            text: "by "@ + m.author,
            style: Style { fg: Some(Color::DarkGray), bold: false },
        },
        SpanView {
            text: " (id: "@ + m.identifier + ")"@,
            style: Style { fg: Some(Color::DarkGray), bold: false },
        },
    ]
}

/// The rows that show a list of remote mods.
pub open spec fn remote_rows(mods: Seq<RemoteMod>) -> Seq<Seq<SpanView>> {
    Seq::new(mods.len(), |i: int| remote_row(mods[i]@))
}

/// The keys that a list of remote mods is sorted by: their titles.
pub open spec fn title_keys(mods: Seq<RemoteModView>) -> Seq<Seq<u8>> {
    Seq::new(mods.len(), |i: int| encode_utf8(mods[i].title))
}

/// Holds of the mods whose lowercase title is `name`.
pub open spec fn has_title(name: Seq<char>) -> spec_fn(RemoteMod) -> bool {
    |m: RemoteMod| lowercase(m.title@) == name
}

/// The mods that a list of matched lowercase titles stands for: for each
/// title in turn the first mod with that title, and nothing for a title that
/// no mod has.
pub open spec fn resolved(mods: Seq<RemoteMod>, matched: Seq<Seq<char>>) -> Seq<RemoteModView>
    decreases matched.len(),
{
    if matched.len() == 0 {
        Seq::empty()
    } else {
        let at = first_where(mods, has_title(matched.last()));
        if at < mods.len() {
            resolved(mods, matched.drop_last()).push(mods[at]@)
        } else {
            resolved(mods, matched.drop_last())
        }
    }
}

/// The titles that can be searched: the lowercase titles of the mods, less
/// those too long for the matcher.
pub open spec fn searchable(mods: Seq<RemoteMod>) -> Seq<Seq<char>>
    decreases mods.len(),
{
    if mods.len() == 0 {
        Seq::empty()
    } else if lowercase(mods.last().title@).len() <= MAX_TITLE {
        searchable(mods.drop_last()).push(lowercase(mods.last().title@))
    } else {
        searchable(mods.drop_last())
    }
}

/// What the matcher picks among `names` for `query`, the best match first.
/// The matcher ranks by marks that it sets by the build's target: a build
/// for Windows takes the backslash for a delimiter, and may rank titles that
/// hold one otherwise than other builds do. The name stands for the picks of
/// the build at hand.
pub uninterp spec fn picked_by(query: Seq<char>, names: Seq<Seq<char>>) -> Seq<Seq<char>>;

/// `at` gives for each item of `picked` a place of `names` that holds it, and
/// no place twice.
pub open spec fn places(at: Seq<int>, picked: Seq<Seq<char>>, names: Seq<Seq<char>>) -> bool {
    &&& at.len() == picked.len()
    &&& forall|i: int|
        0 <= i < at.len() ==> 0 <= #[trigger] at[i] < names.len() && picked[i] == names[at[i]]
    &&& forall|i: int, j: int| 0 <= i < j < at.len() ==> #[trigger] at[i] != #[trigger] at[j]
}

/// `picked` is made of items of `names`, each place of `names` taken at most
/// once.
pub open spec fn picked_from(picked: Seq<Seq<char>>, names: Seq<Seq<char>>) -> bool {
    exists|at: Seq<int>| #[trigger] places(at, picked, names)
}

/// Calls `Pattern::parse` of nucleo_matcher with case ignored and smart
/// normalization, and `Pattern::match_list` on the result with a new matcher
/// configured for paths. The matcher keeps the items that match, each place
/// once, and sorts them by falling score: what comes back depends on the
/// query and the items alone. The matcher takes no item longer than
/// `MAX_TITLE` characters, and its scores may overflow on a query longer
/// than `MAX_QUERY` characters.
#[verifier::external_body]
fn fuzzy_match_list(query: &str, names: Vec<String>) -> (matched: Vec<String>)
    requires
        query@.len() <= MAX_QUERY,
        forall|i: int| 0 <= i < names@.len() ==> (#[trigger] names@[i])@.len() <= MAX_TITLE,
    ensures
        views(matched@) == picked_by(query@, views(names@)),
        picked_from(views(matched@), views(names@)),
        matched@.len() <= names@.len(),
{
    let mut matcher = Matcher::new(Config::DEFAULT.match_paths());
    let pattern = Pattern::parse(query, CaseMatching::Ignore, Normalization::Smart);
    pattern.match_list(names, &mut matcher).into_iter().map(|(name, _)| name).collect()
}

/// Holds of the text `name` alone.
pub open spec fn is_name(name: Seq<char>) -> spec_fn(Seq<char>) -> bool {
    |text: Seq<char>| text == name
}

/// The mods that matched titles stand for, where `lower` holds a lowercase
/// title for each place of `mods`: for each matched title in turn the mod at
/// the first place of `lower` that holds it, and nothing for a title that no
/// place holds or whose place has no mod.
pub open spec fn resolved_among(
    mods: Seq<RemoteMod>,
    lower: Seq<Seq<char>>,
    matched: Seq<Seq<char>>,
) -> Seq<RemoteModView>
    decreases matched.len(),
{
    if matched.len() == 0 {
        Seq::empty()
    } else {
        let at = first_where(lower, is_name(matched.last()));
        if at < lower.len() && at < mods.len() {
            resolved_among(mods, lower, matched.drop_last()).push(mods[at]@)
        } else {
            resolved_among(mods, lower, matched.drop_last())
        }
    }
}

/// The mods that the matched titles stand for, by the lowercase titles
/// `lower` of the mods, place by place.
pub fn resolve_among(mods: &Vec<RemoteMod>, lower: &Vec<String>, matched: &Vec<String>) -> (found:
    Vec<RemoteMod>)
    ensures
        remote_views(found@) == resolved_among(mods@, views(lower@), views(matched@)),
{
    let mut found: Vec<RemoteMod> = Vec::new();
    let mut m: usize = 0;
    while m < matched.len()
        invariant
            m <= matched@.len(),
            remote_views(found@) == resolved_among(
                mods@,
                views(lower@),
                views(matched@).take(m as int),
            ),
        decreases matched@.len() - m,
    {
        let name = matched[m].as_str();
        let mut at: usize = 0;
        while at < lower.len() && !str_eq(lower[at].as_str(), name)
            invariant
                at <= lower@.len(),
                forall|k: int| 0 <= k < at ==> !is_name(name@)(#[trigger] views(lower@)[k]),
            decreases lower@.len() - at,
        {
            at += 1;
        }
        proof {
            let upto = views(matched@).take(m + 1);
            assert(upto.drop_last() =~= views(matched@).take(m as int));
            assert(upto.last() == name@);
            if at < lower@.len() {
                assert(views(lower@)[at as int] == name@);
            }
            lemma_first_where(views(lower@), is_name(name@), at as int);
        }
        if at < lower.len() && at < mods.len() {
            found.push(mods[at].clone());
            assert(remote_views(found@) =~= resolved_among(
                mods@,
                views(lower@),
                views(matched@).take(m as int),
            ).push(mods@[at as int]@));
        }
        m += 1;
    }
    assert(views(matched@).take(matched@.len() as int) =~= views(matched@));
    found
}

/// Resolving by the lowercase titles of the mods themselves is resolving
/// by title.
pub proof fn lemma_resolved_by_title(mods: Seq<RemoteMod>, matched: Seq<Seq<char>>)
    ensures
        resolved_among(mods, lowered(remote_views(mods)), matched) == resolved(mods, matched),
    decreases matched.len(),
{
    if matched.len() > 0 {
        lemma_resolved_by_title(mods, matched.drop_last());
        let lower = lowered(remote_views(mods));
        let name = matched.last();
        let at = first_where(mods, has_title(name));
        crate::text::lemma_first_where_bounds(mods, has_title(name));
        assert forall|k: int| 0 <= k < at implies !is_name(name)(#[trigger] lower[k]) by {
            assert(!has_title(name)(mods[k]));
        }
        if at < mods.len() {
            assert(has_title(name)(mods[at]));
            assert(lower[at] == name);
        }
        lemma_first_where(lower, is_name(name), at);
    }
}

/// The mods that the matched lowercase titles stand for, in the order of
/// the titles.
pub fn resolve_matches(mods: &Vec<RemoteMod>, matched: &Vec<String>) -> (found: Vec<RemoteMod>)
    ensures
        remote_views(found@) == resolved(mods@, views(matched@)),
{
    let mut lower: Vec<String> = Vec::new();
    let mut i: usize = 0;
    while i < mods.len()
        invariant
            i <= mods@.len(),
            lower@.len() == i,
            forall|k: int| 0 <= k < i ==> (#[trigger] lower@[k])@ == lowercase(mods@[k].title@),
        decreases mods@.len() - i,
    {
        lower.push(to_lowercase(mods[i].title.as_str()));
        i += 1;
    }
    proof {
        assert(views(lower@) =~= lowered(remote_views(mods@)));
        lemma_resolved_by_title(mods@, views(matched@));
    }
    resolve_among(mods, &lower, matched)
}

/// Every mod that matched titles resolve to is one of the mods, and there
/// are no more of them than titles. No title gives no mod.
pub proof fn lemma_resolved_among(mods: Seq<RemoteMod>, matched: Seq<Seq<char>>)
    ensures
        resolved(mods, matched).len() <= matched.len(),
        forall|i: int|
            0 <= i < resolved(mods, matched).len() ==> remote_views(mods).contains(
                #[trigger] resolved(mods, matched)[i],
            ),
    decreases matched.len(),
{
    if matched.len() > 0 {
        lemma_resolved_among(mods, matched.drop_last());
        let at = first_where(mods, has_title(matched.last()));
        crate::text::lemma_first_where_bounds(mods, has_title(matched.last()));
        if at < mods.len() {
            assert(remote_views(mods)[at] == mods[at]@);
        }
    }
}

/// No two items of `names` are the same.
pub open spec fn all_differ(names: Seq<Seq<char>>) -> bool {
    forall|i: int, j: int| 0 <= i < j < names.len() ==> #[trigger] names[i] != #[trigger] names[j]
}

/// The lowercase titles of a list of mods.
pub open spec fn lowered(mods: Seq<RemoteModView>) -> Seq<Seq<char>> {
    Seq::new(mods.len(), |i: int| lowercase(mods[i].title))
}

/// Where the lowercase titles of the index differ, so do the searchable
/// titles, each of which is one of them.
proof fn lemma_searchable_differ(mods: Seq<RemoteMod>)
    requires
        all_differ(lowered(remote_views(mods))),
    ensures
        all_differ(searchable(mods)),
        forall|a: int|
            0 <= a < searchable(mods).len() ==> lowered(remote_views(mods)).contains(
                #[trigger] searchable(mods)[a],
            ),
    decreases mods.len(),
{
    if mods.len() > 0 {
        let front = mods.drop_last();
        let all = lowered(remote_views(mods));
        let most = lowered(remote_views(front));
        assert forall|i: int, j: int| 0 <= i < j < most.len() implies #[trigger] most[i]
            != #[trigger] most[j] by {
            assert(most[i] == all[i] && most[j] == all[j]);
        }
        lemma_searchable_differ(front);
        let last = lowercase(mods.last().title@);
        assert(all[mods.len() - 1] == last);
        assert forall|a: int| 0 <= a < searchable(front).len() implies all.contains(
            #[trigger] searchable(front)[a],
        ) && searchable(front)[a] != last by {
            let name = searchable(front)[a];
            assert(most.contains(name));
            let k = choose|k: int| 0 <= k < most.len() && most[k] == name;
            assert(all[k] == name);
        }
        assert forall|a: int| 0 <= a < searchable(mods).len() implies all.contains(
            #[trigger] searchable(mods)[a],
        ) by {
            if a < searchable(front).len() {
                assert(searchable(mods)[a] == searchable(front)[a]);
            }
        }
        assert forall|i: int, j: int| 0 <= i < j < searchable(mods).len() implies #[trigger]
            searchable(mods)[i] != #[trigger] searchable(mods)[j] by {
            assert(searchable(mods)[i] == searchable(front)[i]);
            if j < searchable(front).len() {
                assert(searchable(mods)[j] == searchable(front)[j]);
            }
        }
    }
}

/// Where the picked titles differ, the mods they stand for have lowercase
/// titles that differ, each of which is one of the picked.
proof fn lemma_resolved_differ(mods: Seq<RemoteMod>, picked: Seq<Seq<char>>)
    requires
        all_differ(picked),
    ensures
        all_differ(lowered(resolved(mods, picked))),
        forall|i: int|
            0 <= i < resolved(mods, picked).len() ==> picked.contains(
                #[trigger] lowered(resolved(mods, picked))[i],
            ),
    decreases picked.len(),
{
    if picked.len() > 0 {
        let front = picked.drop_last();
        assert forall|i: int, j: int| 0 <= i < j < front.len() implies #[trigger] front[i]
            != #[trigger] front[j] by {
            assert(front[i] == picked[i] && front[j] == picked[j]);
        }
        lemma_resolved_differ(mods, front);
        let before = lowered(resolved(mods, front));
        let now = lowered(resolved(mods, picked));
        let at = first_where(mods, has_title(picked.last()));
        crate::text::lemma_first_where_bounds(mods, has_title(picked.last()));
        assert forall|i: int| 0 <= i < before.len() implies picked.contains(
            #[trigger] before[i],
        ) && before[i] != picked.last() by {
            assert(front.contains(before[i]));
            let k = choose|k: int| 0 <= k < front.len() && front[k] == before[i];
            assert(picked[k] == before[i]);
            assert(picked[picked.len() - 1] == picked.last());
        }
        assert forall|i: int| 0 <= i < now.len() implies picked.contains(#[trigger] now[i]) by {
            if i < before.len() {
                assert(now[i] == before[i]);
            } else {
                assert(now[i] == picked[picked.len() - 1]);
            }
        }
        assert forall|i: int, j: int| 0 <= i < j < now.len() implies #[trigger] now[i]
            != #[trigger] now[j] by {
            assert(now[i] == before[i]);
            if j < before.len() {
                assert(now[j] == before[j]);
            } else {
                assert(now[j] == picked.last());
            }
        }
    }
}

/// Mods whose lowercase titles differ stay so in any order, and so no two
/// of them are the same.
proof fn lemma_arranged_differ(perm: Seq<int>, from: Seq<RemoteModView>, to: Seq<RemoteModView>)
    requires
        arranged(perm, from, to),
        all_differ(lowered(from)),
    ensures
        all_differ(lowered(to)),
        forall|i: int, j: int| 0 <= i < j < to.len() ==> #[trigger] to[i] != #[trigger] to[j],
{
    assert forall|i: int, j: int| 0 <= i < j < to.len() implies #[trigger] lowered(to)[i]
        != #[trigger] lowered(to)[j] by {
        assert(to[i] == from[perm[i]] && to[j] == from[perm[j]]);
        assert(perm[i] != perm[j]);
        assert(lowered(from)[perm[i]] == lowercase(to[i].title));
        assert(lowered(from)[perm[j]] == lowercase(to[j].title));
        if perm[i] < perm[j] {
            assert(lowered(from)[perm[i]] != lowered(from)[perm[j]]);
        } else {
            assert(lowered(from)[perm[j]] != lowered(from)[perm[i]]);
        }
    }
    assert forall|i: int, j: int| 0 <= i < j < to.len() implies #[trigger] to[i]
        != #[trigger] to[j] by {
        assert(lowered(to)[i] != lowered(to)[j]);
    }
}

/// On an index whose titles differ even in lowercase, no mod is shown
/// twice, whatever is searched for.
pub proof fn lemma_shown_once(query: Seq<char>, mods: Seq<RemoteMod>, shown: Seq<RemoteMod>)
    requires
        all_differ(lowered(remote_views(mods))),
        RemoteModsComponent::shown_for(query, mods, shown),
    ensures
        forall|i: int, j: int|
            0 <= i < j < shown.len() ==> (#[trigger] shown[i])@ != (#[trigger] shown[j])@,
{
    let to = remote_views(shown);
    if query.len() == 0 {
        let from = remote_views(mods);
        let perm = choose|perm: Seq<int>|
            arranged(perm, from, to) && ascends(perm, title_keys(from));
        lemma_arranged_differ(perm, from, to);
    } else if query.len() <= MAX_QUERY {
        let names = searchable(mods);
        let picked = picked_by(query, names);
        lemma_searchable_differ(mods);
        let at = choose|at: Seq<int>| places(at, picked, names);
        assert forall|i: int, j: int| 0 <= i < j < picked.len() implies #[trigger] picked[i]
            != #[trigger] picked[j] by {
            assert(picked[i] == names[at[i]] && picked[j] == names[at[j]]);
            assert(at[i] != at[j]);
            if at[i] < at[j] {
                assert(names[at[i]] != names[at[j]]);
            } else {
                assert(names[at[j]] != names[at[i]]);
            }
        }
        lemma_resolved_differ(mods, picked);
        let from = resolved(mods, picked);
        let perm = choose|perm: Seq<int>|
            arranged(perm, from, to) && ascends(perm, title_keys(from));
        lemma_arranged_differ(perm, from, to);
    }
    assert forall|i: int, j: int| 0 <= i < j < shown.len() implies (#[trigger] shown[i])@ != (
    #[trigger] shown[j])@ by {
        assert(to[i] == shown[i]@ && to[j] == shown[j]@);
    }
}

/// When the matcher picks no title for a query, the search shows nothing.
pub proof fn lemma_no_pick_shows_nothing(
    query: Seq<char>,
    mods: Seq<RemoteMod>,
    shown: Seq<RemoteMod>,
)
    requires
        RemoteModsComponent::found_by(query, mods, shown),
        picked_by(query, searchable(mods)).len() == 0,
    ensures
        shown.len() == 0,
{
    let none = resolved(mods, picked_by(query, searchable(mods)));
    let perm = choose|perm: Seq<int>|
        arranged(perm, none, remote_views(shown)) && ascends(perm, title_keys(none));
    assert(remote_views(shown).len() == none.len());
}

/// The panel of the remote index.
#[derive(Debug)]
pub struct RemoteModsComponent {
    pub has_focus: bool,
    pub options: OptionSelector,
    pub searchbar: TextInput,
    /// Every mod of the index.
    pub mods: Vec<RemoteMod>,
    /// The mods that the list shows.
    pub displayed_mods: Vec<RemoteMod>,
    pub state: State,
}

/// The row that shows `m`.
fn row_of(m: &RemoteMod) -> (row: Vec<OptionSelectorText>)
    ensures
        row_view(row@) == remote_row(m@),
{
    let mut row: Vec<OptionSelectorText> = Vec::new();
    row.push(OptionSelectorText::new(m.title.clone(), Style::new()));
    let mut version = String::from_str(" ");
    version.append(m.version.as_str());
    version.append(" ");
    row.push(OptionSelectorText::new(version, Style::new().fg(Color::LightBlue)));
    let mut by = String::from_str("by ");
    by.append(m.author.as_str());
    row.push(OptionSelectorText::new(by, Style::new().fg(Color::DarkGray)));
    let mut id = String::from_str(" (id: ");
    id.append(m.identifier.as_str());
    id.append(")");
    row.push(OptionSelectorText::new(id, Style::new().fg(Color::DarkGray)));
    assert(row_view(row@) =~= remote_row(m@));
    row
}

/// A copy of every mod of `mods`.
fn clone_mods(mods: &Vec<RemoteMod>) -> (copy: Vec<RemoteMod>)
    ensures
        remote_views(copy@) == remote_views(mods@),
{
    let mut copy: Vec<RemoteMod> = Vec::new();
    let mut i: usize = 0;
    while i < mods.len()
        invariant
            i <= mods@.len(),
            copy@.len() == i,
            forall|k: int| 0 <= k < i ==> (#[trigger] copy@[k])@ == mods@[k]@,
        decreases mods@.len() - i,
    {
        copy.push(mods[i].clone());
        i += 1;
    }
    assert(remote_views(copy@) =~= remote_views(mods@));
    copy
}

impl RemoteModsComponent {
    /// The mod whose installation is due, if any.
    pub open spec fn downloading(&self) -> Option<RemoteModView> {
        match self.state {
            State::Normal => None,
            State::Downloading(m) => Some(m@),
        }
    }

    /// The rows show the displayed mods, which are sorted by title, and the
    /// selection stands for one of them.
    pub open spec fn well_formed(&self) -> bool {
        &&& rows_view(self.options.options@) == remote_rows(self.displayed_mods@)
        &&& sorted(title_keys(remote_views(self.displayed_mods@)))
        &&& self.options.well_formed()
    }

    /// An empty panel without focus.
    pub fn new() -> (c: Self)
        ensures
            c.well_formed(),
            !c.has_focus,
            !c.options.has_focus,
            !c.searchbar.focused,
            c.mods@.len() == 0,
            c.displayed_mods@.len() == 0,
            c.state is Normal,
            c.options.title@ == "Remote mods"@,
            c.options.selected == 0,
            c.searchbar.text@.len() == 0,
            c.searchbar.placeholder@ == "Search..."@,
            c.searchbar.title@ == "Search"@,
    {
        let mut options = OptionSelector::new(Vec::new());
        options.title = String::from_str("Remote mods");
        options.register_local_action_handler();
        let mut searchbar = TextInput::new();
        searchbar.placeholder = String::from_str("Search...");
        searchbar.title = String::from_str("Search");
        let c = Self {
            has_focus: false,
            options,
            searchbar,
            mods: Vec::new(),
            displayed_mods: Vec::new(),
            state: State::Normal,
        };
        assert(rows_view(c.options.options@) =~= remote_rows(c.displayed_mods@));
        c
    }

    /// Takes the entries of the index from the listing of the mirror and
    /// shows them all, sorted by title.
    pub fn setup_mods(&mut self, entries: &Vec<IndexEntry>)
        ensures
            remote_views(final(self).mods@) == index_of(entries@),
            stable_sort_of(
                remote_views(final(self).displayed_mods@),
                index_of(entries@),
                title_keys(index_of(entries@)),
            ),
            final(self).well_formed(),
            final(self).has_focus == old(self).has_focus,
            final(self).options.has_focus == old(self).options.has_focus,
            final(self).options.title == old(self).options.title,
            final(self).options.has_local_handler == old(self).options.has_local_handler,
            final(self).searchbar == old(self).searchbar,
            final(self).state == old(self).state,
    {
        self.mods = ModList::get_remote_mods(entries);
        self.show_all();
    }

    /// Shows every mod of the index, sorted by title.
    pub fn show_all(&mut self)
        ensures
            stable_sort_of(
                remote_views(final(self).displayed_mods@),
                remote_views(old(self).mods@),
                title_keys(remote_views(old(self).mods@)),
            ),
            final(self).well_formed(),
            final(self).mods == old(self).mods,
            final(self).has_focus == old(self).has_focus,
            final(self).options.has_focus == old(self).options.has_focus,
            final(self).options.title == old(self).options.title,
            final(self).options.has_local_handler == old(self).options.has_local_handler,
            final(self).options.selected == crate::components::optionselector::clamped(
                old(self).options.selected as int,
                old(self).mods@.len() as int,
            ),
            final(self).searchbar == old(self).searchbar,
            final(self).state == old(self).state,
    {
        self.displayed_mods = clone_mods(&self.mods);
        self.build_options();
    }

    /// Shows the mods that the matched lowercase titles stand for, sorted by
    /// title.
    pub fn show_matches(&mut self, matched: &Vec<String>)
        ensures
            stable_sort_of(
                remote_views(final(self).displayed_mods@),
                resolved(old(self).mods@, views(matched@)),
                title_keys(resolved(old(self).mods@, views(matched@))),
            ),
            final(self).well_formed(),
            final(self).mods == old(self).mods,
            final(self).has_focus == old(self).has_focus,
            final(self).options.has_focus == old(self).options.has_focus,
            final(self).options.title == old(self).options.title,
            final(self).options.has_local_handler == old(self).options.has_local_handler,
            final(self).options.selected == crate::components::optionselector::clamped(
                old(self).options.selected as int,
                resolved(old(self).mods@, views(matched@)).len() as int,
            ),
            final(self).searchbar == old(self).searchbar,
            final(self).state == old(self).state,
    {
        self.displayed_mods = resolve_matches(&self.mods, matched);
        self.build_options();
    }

    /// Sorts the displayed mods by title and shows them. The sort is stable.
    /// A selection beyond the list moves to its last row.
    pub fn build_options(&mut self)
        ensures
            stable_sort_of(
                remote_views(final(self).displayed_mods@),
                remote_views(old(self).displayed_mods@),
                title_keys(remote_views(old(self).displayed_mods@)),
            ),
            final(self).well_formed(),
            final(self).options.selected == crate::components::optionselector::clamped(
                old(self).options.selected as int,
                old(self).displayed_mods@.len() as int,
            ),
            final(self).options.title == old(self).options.title,
            final(self).options.has_local_handler == old(self).options.has_local_handler,
            final(self).options.has_focus == old(self).options.has_focus,
            final(self).mods == old(self).mods,
            final(self).has_focus == old(self).has_focus,
            final(self).searchbar == old(self).searchbar,
            final(self).state == old(self).state,
    {
        let mut keys: Vec<Vec<u8>> = Vec::new();
        let mut i: usize = 0;
        while i < self.displayed_mods.len()
            invariant
                i <= self.displayed_mods@.len(),
                keys@.len() == i,
                *self == *old(self),
                forall|k: int|
                    0 <= k < i ==> (#[trigger] keys@[k])@ == encode_utf8(
                        self.displayed_mods@[k].title@,
                    ),
            decreases self.displayed_mods@.len() - i,
        {
            keys.push(self.displayed_mods[i].title.as_str().as_bytes_vec());
            i += 1;
        }
        assert(key_views(keys@) =~= title_keys(remote_views(self.displayed_mods@)));
        sort_by_keys(&mut self.displayed_mods, &mut keys);
        proof {
            let from = old(self).displayed_mods@;
            let to = self.displayed_mods@;
            let ks = title_keys(remote_views(from));
            let perm = choose|perm: Seq<int>| arranged(perm, from, to) && ascends(perm, ks);
            assert(arranged(perm, remote_views(from), remote_views(to)));
            lemma_sorted_keys(perm, ks, title_keys(remote_views(to)));
        }
        let mut rows: Vec<Vec<OptionSelectorText>> = Vec::new();
        let mut i: usize = 0;
        while i < self.displayed_mods.len()
            invariant
                i <= self.displayed_mods@.len(),
                rows@.len() == i,
                forall|k: int|
                    0 <= k < i ==> row_view((#[trigger] rows@[k])@) == remote_row(
                        self.displayed_mods@[k]@,
                    ),
            decreases self.displayed_mods@.len() - i,
        {
            rows.push(row_of(&self.displayed_mods[i]));
            i += 1;
        }
        assert(rows_view(rows@) =~= remote_rows(self.displayed_mods@));
        self.options.set_options(rows);
    }

    /// The lowercase titles of the mods that the matcher can take.
    fn searchable_titles(&self) -> (names: Vec<String>)
        ensures
            views(names@) == searchable(self.mods@),
            forall|i: int| 0 <= i < names@.len() ==> (#[trigger] names@[i])@.len() <= MAX_TITLE,
    {
        let mut names: Vec<String> = Vec::new();
        let mut i: usize = 0;
        while i < self.mods.len()
            invariant
                i <= self.mods@.len(),
                views(names@) == searchable(self.mods@.take(i as int)),
                forall|k: int|
                    0 <= k < names@.len() ==> (#[trigger] names@[k])@.len() <= MAX_TITLE,
            decreases self.mods@.len() - i,
        {
            proof {
                assert(self.mods@.take(i + 1).drop_last() =~= self.mods@.take(i as int));
                assert(self.mods@.take(i + 1).last() == self.mods@[i as int]);
            }
            let lowered = to_lowercase(self.mods[i].title.as_str());
            if lowered.as_str().unicode_len() <= MAX_TITLE {
                names.push(lowered);
                assert(views(names@) =~= searchable(self.mods@.take(i as int)).push(lowered@));
            }
            i += 1;
        }
        assert(self.mods@.take(self.mods@.len() as int) =~= self.mods@);
        names
    }

    /// `shown` is what the matcher finds among `mods` for `query`: the mods
    /// that its picks among the searchable titles stand for, sorted by
    /// title.
    pub open spec fn found_by(query: Seq<char>, mods: Seq<RemoteMod>, shown: Seq<RemoteMod>) -> bool {
        let picked = picked_by(query, searchable(mods));
        &&& picked_from(picked, searchable(mods))
        &&& stable_sort_of(
            remote_views(shown),
            resolved(mods, picked),
            title_keys(resolved(mods, picked)),
        )
    }

    /// `shown` is what a search for `query` shows of `mods`. An empty query
    /// shows every mod, sorted by title. A query of up to `MAX_QUERY`
    /// characters shows what the matcher finds. A longer query is not
    /// searched for and shows nothing.
    pub open spec fn shown_for(query: Seq<char>, mods: Seq<RemoteMod>, shown: Seq<RemoteMod>) -> bool {
        if query.len() == 0 {
            stable_sort_of(
                remote_views(shown),
                remote_views(mods),
                title_keys(remote_views(mods)),
            )
        } else if query.len() <= MAX_QUERY {
            Self::found_by(query, mods, shown)
        } else {
            shown.len() == 0
        }
    }

    /// Searches the titles for `query` and shows what was found, sorted by
    /// title, as `shown_for` says. Every mod shown is a mod of the index.
    pub fn search(&mut self, query: &str)
        ensures
            final(self).well_formed(),
            final(self).mods == old(self).mods,
            final(self).has_focus == old(self).has_focus,
            final(self).options.has_focus == old(self).options.has_focus,
            final(self).options.title == old(self).options.title,
            final(self).options.has_local_handler == old(self).options.has_local_handler,
            final(self).searchbar == old(self).searchbar,
            final(self).state == old(self).state,
            Self::shown_for(query@, old(self).mods@, final(self).displayed_mods@),
            forall|i: int|
                0 <= i < final(self).displayed_mods@.len() ==> remote_views(
                    old(self).mods@,
                ).contains(#[trigger] remote_views(final(self).displayed_mods@)[i]),
    {
        if query.is_empty() {
            self.show_all();
            proof {
                let to = remote_views(self.displayed_mods@);
                let from = remote_views(self.mods@);
                let perm = choose|perm: Seq<int>|
                    arranged(perm, from, to) && ascends(perm, title_keys(from));
                assert forall|i: int| 0 <= i < to.len() implies from.contains(
                    #[trigger] to[i],
                ) by {
                    assert(to[i] == from[perm[i]]);
                }
            }
        } else if query.unicode_len() <= MAX_QUERY {
            let names = self.searchable_titles();
            let matched = fuzzy_match_list(query, names);
            self.show_matches(&matched);
            proof {
                let picked = views(matched@);
                let to = remote_views(self.displayed_mods@);
                let from = resolved(self.mods@, picked);
                lemma_resolved_among(self.mods@, picked);
                let perm = choose|perm: Seq<int>|
                    arranged(perm, from, to) && ascends(perm, title_keys(from));
                assert forall|i: int| 0 <= i < to.len() implies remote_views(
                    self.mods@,
                ).contains(#[trigger] to[i]) by {
                    assert(to[i] == from[perm[i]]);
                }
            }
        } else {
            let none: Vec<String> = Vec::new();
            self.show_matches(&none);
            proof {
                let to = remote_views(self.displayed_mods@);
                let from = resolved(self.mods@, views(none@));
                let perm = choose|perm: Seq<int>|
                    arranged(perm, from, to) && ascends(perm, title_keys(from));
                assert(to.len() == from.len());
            }
        }
    }

    /// What one key does to the panel. A character or backspace edits the
    /// search text and the list shows what a search for it finds; a
    /// character also selects the first row. Enter chooses the selected mod
    /// for installation, if the list has one. Every other key goes to the
    /// list.
    pub open spec fn keyed(pre: Self, post: Self, key: KeyEvent) -> bool {
        &&& post.mods == pre.mods
        &&& post.has_focus == pre.has_focus
        &&& post.options.has_focus == pre.options.has_focus
        &&& post.options.title == pre.options.title
        &&& post.options.has_local_handler == pre.options.has_local_handler
        &&& post.searchbar.text@ == text_after(pre.searchbar.text@, key.code)
        &&& post.searchbar.placeholder == pre.searchbar.placeholder
        &&& post.searchbar.title == pre.searchbar.title
        &&& post.searchbar.focused == pre.searchbar.focused
        &&& post.searchbar.listening == pre.searchbar.listening
        &&& key.code is Char ==> post.options.selected == 0 && post.options.scroll_offset == 0
        &&& key.code is Char || key.code == KeyCode::Backspace ==> {
            &&& post.well_formed()
            &&& post.state == pre.state
            &&& forall|i: int|
                0 <= i < post.displayed_mods@.len() ==> remote_views(pre.mods@).contains(
                    #[trigger] remote_views(post.displayed_mods@)[i],
                )
            &&& Self::shown_for(post.searchbar.text@, pre.mods@, post.displayed_mods@)
        }
        &&& key.code == KeyCode::Enter ==> {
            &&& post.displayed_mods == pre.displayed_mods
            &&& post.searchbar == pre.searchbar
            &&& post.options == pre.options
            &&& post.downloading() == if pre.options.selected < pre.displayed_mods@.len() {
                Some(pre.displayed_mods@[pre.options.selected as int]@)
            } else {
                pre.downloading()
            }
        }
        &&& !(key.code is Char) && key.code != KeyCode::Backspace && key.code != KeyCode::Enter
            ==> {
            &&& post.displayed_mods == pre.displayed_mods
            &&& post.state == pre.state
            &&& post.searchbar == pre.searchbar
            &&& post.options == pre.options.after_key(key.code)
        }
    }

    /// Handles one key. A character or backspace edits the search text and
    /// searches for it, and a character also selects the first row. Enter
    /// chooses the selected mod for installation, if the list has one. Every
    /// other key goes to the list. No action follows.
    pub fn handle_key_event(&mut self, key: KeyEvent) -> (next: Option<Action>)
        ensures
            next is None,
            Self::keyed(*old(self), *final(self), key),
            old(self).well_formed() ==> final(self).well_formed(),
    {
        match key.code {
            KeyCode::Char(_) => {
                let _ = self.searchbar.handle_key_event(key);
                let query = self.searchbar.text.clone();
                self.search(query.as_str());
                self.options.reset_selection();
            },
            KeyCode::Backspace => {
                let _ = self.searchbar.handle_key_event(key);
                let query = self.searchbar.text.clone();
                self.search(query.as_str());
            },
            KeyCode::Enter => {
                if self.options.selected < self.displayed_mods.len() {
                    let chosen = self.displayed_mods[self.options.selected].clone();
                    self.state = State::Downloading(chosen);
                }
            },
            _ => {
                let _ = self.options.handle_key_event(key);
            },
        }
        None
    }

    /// What one action does to the panel: a tick ends a due installation's
    /// wait, and nothing else changes.
    pub open spec fn ticked(pre: Self, post: Self, action: Action) -> bool {
        &&& post.mods == pre.mods
        &&& post.displayed_mods == pre.displayed_mods
        &&& post.options == pre.options
        &&& post.searchbar == pre.searchbar
        &&& post.has_focus == pre.has_focus
        &&& action == Action::Tick ==> post.state is Normal
        &&& action != Action::Tick ==> post.state == pre.state
    }

    /// On a tick, gives the mod whose installation is due, if any, for the
    /// caller to install in the background, and returns to normal. Other
    /// actions change nothing.
    pub fn update(&mut self, action: Action) -> (install: Option<RemoteMod>)
        ensures
            final(self).mods == old(self).mods,
            final(self).displayed_mods == old(self).displayed_mods,
            final(self).options == old(self).options,
            final(self).searchbar == old(self).searchbar,
            final(self).has_focus == old(self).has_focus,
            action == Action::Tick ==> final(self).state is Normal && (match install {
                Some(m) => old(self).downloading() == Some(m@),
                None => old(self).downloading() is None,
            }),
            action != Action::Tick ==> install is None && final(self).state == old(self).state,
            Self::ticked(*old(self), *final(self), action),
    {
        match action {
            Action::Tick => {
                let mut state = State::Normal;
                std::mem::swap(&mut self.state, &mut state);
                match state {
                    State::Downloading(m) => Some(m),
                    State::Normal => None,
                }
            },
            _ => None,
        }
    }

    /// The panel with its focus, and that of its list and its search field,
    /// set to `focus`.
    pub open spec fn with_focus(self, focus: bool) -> Self {
        RemoteModsComponent {
            has_focus: focus,
            options: self.options.with_focus(focus),
            searchbar: self.searchbar.with_focus(focus),
            ..self
        }
    }

    /// Gives the panel, its list and its search field the focus.
    pub fn focus(&mut self)
        ensures
            *final(self) == old(self).with_focus(true),
    {
        self.has_focus = true;
        self.options.focus();
        self.searchbar.focus();
    }

    /// Takes the focus from the panel, its list and its search field.
    pub fn unfocus(&mut self)
        ensures
            *final(self) == old(self).with_focus(false),
    {
        self.has_focus = false;
        self.options.unfocus();
        self.searchbar.unfocus();
    }
}

} // verus!
