//! The panel of installed mods.

use crate::action::{Action, KeyEvent};
use crate::channel::ActionChannel;
use crate::components::optionselector::{
    rows_view, Actions, OptionSelector, OptionSelectorText, SpanView,
};
use crate::mods::{
    changed_by, enabled_in, entry_names, names_after, toggle_change, FileEntry, MarkerChange,
    Mod, ModView,
};
use crate::order::{key_views, sort_by_keys, stable_sort_of};
use crate::style::{Color, Style};
use crate::text::{join, joined, str_eq};
use vstd::prelude::*;
use vstd::string::StrSliceExecFns;
use vstd::string::StringExecFns;
use vstd::string::StringSliceAdditionalSpecFns;
use vstd::utf8::encode_utf8;

verus! {

/// The order in which the installed mods are shown.
#[derive(Clone, Copy, Debug, PartialEq, Eq, Structural)]
pub enum SortOrder {
    /// By name, ascending. This is the default.
    NameOnly,
    /// Enabled mods before disabled ones, each group by name, ascending.
    EnabledFirst,
}

/// Whether the mod is shown as disabled: only when the last look at its
/// folder found the marker.
pub open spec fn shown_disabled(m: ModView) -> bool {
    m.enabled == Some(false)
}

/// The key that a mod is sorted by.
pub open spec fn mod_key(m: ModView, order: SortOrder) -> Seq<u8> {
    match order {
        SortOrder::NameOnly => encode_utf8(m.name),
        SortOrder::EnabledFirst => seq![
            if shown_disabled(m) {
                1u8
            } else {
                0u8
            },
        ] + encode_utf8(m.name),
    }
}

/// The keys of a list of mods.
pub open spec fn mod_keys(mods: Seq<Mod>, order: SortOrder) -> Seq<Seq<u8>> {
    Seq::new(mods.len(), |i: int| mod_key(mods[i]@, order))
}

/// The row that shows a mod: its name, its version between spaces, its
/// authors after `by`, and a note if it is disabled.
pub open spec fn mod_row(m: ModView) -> Seq<SpanView> {
    let row = seq![
        SpanView { text: m.name, style: Style::plain() },
        SpanView {
            text: " "@ + m.version + " "@,
            style: Style { fg: Some(Color::LightBlue), bold: false },
        },
        SpanView {
            text: "by "@ + joined(m.author, ", "@),
            style: Style { fg: Some(Color::DarkGray), bold: false },
        },
    ];
    if shown_disabled(m) {
        row.push(
            SpanView { text: " (disabled)"@, style: Style { fg: Some(Color::Red), bold: false } },
        )
    } else {
        row
    }
}

/// The rows that show a list of mods.
pub open spec fn mod_rows(mods: Seq<Mod>) -> Seq<Seq<SpanView>> {
    Seq::new(mods.len(), |i: int| mod_row(mods[i]@))
}

/// The installed mods, shown as a list in which Enter toggles a mod.
#[derive(Debug)]
pub struct ModlistComponent {
    pub has_focus: bool,
    pub options: OptionSelector,
    pub mods: Vec<Mod>,
    pub order: SortOrder,
    /// The confirmations of the list that no tick has looked at yet.
    pub pending: ActionChannel,
}

/// The key that `m` is sorted by.
fn key_of(m: &Mod, order: SortOrder) -> (key: Vec<u8>)
    ensures
        key@ == mod_key(m@, order),
{
    let name = m.name.as_str().as_bytes_vec();
    match order {
        SortOrder::NameOnly => name,
        SortOrder::EnabledFirst => {
            let mut key: Vec<u8> = Vec::new();
            let disabled = match m.enabled {
                Some(enabled) => !enabled,
                None => false,
            };
            key.push(
                if disabled {
                    1u8
                } else {
                    0u8
                },
            );
            let mut name = name;
            key.append(&mut name);
            key
        },
    }
}

/// The row that shows `m`.
fn row_of(m: &Mod) -> (row: Vec<OptionSelectorText>)
    ensures
        crate::components::optionselector::row_view(row@) == mod_row(m@),
{
    let mut row: Vec<OptionSelectorText> = Vec::new();
    row.push(OptionSelectorText::new(m.name.clone(), Style::new()));
    let mut version = String::from_str(" ");
    version.append(m.version.as_str());
    version.append(" ");
    row.push(OptionSelectorText::new(version, Style::new().fg(Color::LightBlue)));
    let mut by = String::from_str("by ");
    let authors = join(&m.author, ", ");
    by.append(authors.as_str());
    row.push(OptionSelectorText::new(by, Style::new().fg(Color::DarkGray)));
    let disabled = match m.enabled {
        Some(enabled) => !enabled,
        None => false,
    };
    if disabled {
        row.push(
            OptionSelectorText::new(String::from_str(" (disabled)"), Style::new().fg(Color::Red)),
        );
    }
    assert(crate::components::optionselector::row_view(row@) =~= mod_row(m@));
    row
}

impl ModlistComponent {
    /// The rows show the mods, and the selection stands for one of them.
    pub open spec fn well_formed(&self) -> bool {
        &&& rows_view(self.options.options@) == mod_rows(self.mods@)
        &&& self.options.well_formed()
        &&& self.options.has_local_handler
    }

    /// A panel over `mods`, sorted and shown, without focus, sorted by name.
    pub fn new(mods: Vec<Mod>) -> (c: Self)
        ensures
            c.well_formed(),
            !c.has_focus,
            !c.options.has_focus,
            c.order == SortOrder::NameOnly,
            c.options.selected == 0,
            c.options.title@ == "Installed mods"@,
            c.pending@.len() == 0,
            !c.pending.is_closed(),
            stable_sort_of(c.mods@, mods@, mod_keys(mods@, SortOrder::NameOnly)),
    {
        let mut options = OptionSelector::new(Vec::new());
        options.title = String::from_str("Installed mods");
        options.register_local_action_handler();
        let mut this = Self {
            has_focus: false,
            options,
            mods,
            order: SortOrder::NameOnly,
            pending: ActionChannel::new(),
        };
        this.build_options();
        this
    }

    /// Sorts the mods by the panel's order and shows them. The sort is
    /// stable. A selection beyond the list moves to its last row.
    pub fn build_options(&mut self)
        ensures
            stable_sort_of(
                final(self).mods@,
                old(self).mods@,
                mod_keys(old(self).mods@, old(self).order),
            ),
            rows_view(final(self).options.options@) == mod_rows(final(self).mods@),
            final(self).options.well_formed(),
            final(self).options.selected == crate::components::optionselector::clamped(
                old(self).options.selected as int,
                old(self).mods@.len() as int,
            ),
            final(self).options.title == old(self).options.title,
            final(self).options.has_focus == old(self).options.has_focus,
            final(self).options.has_local_handler == old(self).options.has_local_handler,
            final(self).has_focus == old(self).has_focus,
            final(self).order == old(self).order,
            final(self).pending == old(self).pending,
    {
        let mut keys: Vec<Vec<u8>> = Vec::new();
        let mut i: usize = 0;
        while i < self.mods.len()
            invariant
                i <= self.mods@.len(),
                keys@.len() == i,
                *self == *old(self),
                forall|k: int| 0 <= k < i ==> (#[trigger] keys@[k])@ == mod_key(
                    self.mods@[k]@,
                    self.order,
                ),
            decreases self.mods@.len() - i,
        {
            keys.push(key_of(&self.mods[i], self.order));
            i += 1;
        }
        assert(key_views(keys@) =~= mod_keys(self.mods@, self.order));
        sort_by_keys(&mut self.mods, &mut keys);
        let mut rows: Vec<Vec<OptionSelectorText>> = Vec::new();
        let mut i: usize = 0;
        while i < self.mods.len()
            invariant
                i <= self.mods@.len(),
                rows@.len() == i,
                forall|k: int| 0 <= k < i ==> crate::components::optionselector::row_view(
                    (#[trigger] rows@[k])@,
                ) == mod_row(self.mods@[k]@),
            decreases self.mods@.len() - i,
        {
            rows.push(row_of(&self.mods[i]));
            i += 1;
        }
        assert(rows_view(rows@) =~= mod_rows(self.mods@));
        self.options.set_options(rows);
    }

    /// Sets the order of the list, and sorts and shows the mods by it.
    pub fn set_order(&mut self, order: SortOrder)
        ensures
            final(self).order == order,
            stable_sort_of(final(self).mods@, old(self).mods@, mod_keys(old(self).mods@, order)),
            rows_view(final(self).options.options@) == mod_rows(final(self).mods@),
            final(self).options.well_formed(),
            final(self).options.has_local_handler == old(self).options.has_local_handler,
            final(self).options.has_focus == old(self).options.has_focus,
            final(self).has_focus == old(self).has_focus,
            final(self).pending == old(self).pending,
    {
        self.order = order;
        self.build_options();
    }

    /// What one key does to the panel: it goes to the list, and a
    /// confirmation is queued for the next tick.
    pub open spec fn keyed(pre: Self, post: Self, key: KeyEvent) -> bool {
        &&& post.mods == pre.mods
        &&& post.order == pre.order
        &&& post.has_focus == pre.has_focus
        &&& post.options == pre.options.after_key(key.code)
        &&& post.pending.is_closed() == pre.pending.is_closed()
        &&& post.pending@ == match pre.options.notice_for(key.code) {
            Some(notice) => if pre.pending.is_closed() {
                pre.pending@
            } else {
                pre.pending@.push(notice)
            },
            None => pre.pending@,
        }
    }

    /// Hands the key to the list. A confirmation is queued for the next
    /// tick; no action follows.
    pub fn handle_key_event(&mut self, key: KeyEvent) -> (next: Option<Action>)
        ensures
            next is None,
            Self::keyed(*old(self), *final(self), key),
            old(self).well_formed() ==> final(self).well_formed(),
    {
        match self.options.handle_key_event(key) {
            Some(notice) => {
                let _ = self.pending.send(notice);
            },
            None => {},
        }
        None
    }

    /// The mod that a tick is asked to toggle: the oldest confirmation not
    /// yet looked at, if it stands for a mod.
    pub open spec fn due(&self) -> Option<usize> {
        if self.pending@.len() > 0 {
            match self.pending@[0] {
                Actions::Selected(c) => if c < self.mods@.len() {
                    Some(c)
                } else {
                    None
                },
            }
        } else {
            None
        }
    }

    /// What one action does to the panel: a tick takes the oldest
    /// confirmation off the queue, and nothing else changes.
    pub open spec fn ticked(pre: Self, post: Self, action: Action) -> bool {
        &&& post.mods == pre.mods
        &&& post.order == pre.order
        &&& post.has_focus == pre.has_focus
        &&& post.options == pre.options
        &&& post.pending.is_closed() == pre.pending.is_closed()
        &&& post.pending@ == if action == Action::Tick && pre.pending@.len() > 0 {
            pre.pending@.drop_first()
        } else {
            pre.pending@
        }
    }

    /// On a tick, takes the oldest confirmation off the queue and gives the
    /// index of the mod to toggle, if it stands for one. Later confirmations
    /// wait for later ticks. Other actions change nothing.
    pub fn update(&mut self, action: Action) -> (toggle: Option<usize>)
        ensures
            final(self).mods == old(self).mods,
            final(self).order == old(self).order,
            final(self).has_focus == old(self).has_focus,
            final(self).options == old(self).options,
            final(self).pending.is_closed() == old(self).pending.is_closed(),
            action == Action::Tick ==> toggle == old(self).due() && final(self).pending@ == if old(self).pending@.len() > 0 {
                old(self).pending@.drop_first()
            } else {
                old(self).pending@
            },
            action != Action::Tick ==> toggle is None && final(self).pending@ == old(self).pending@,
            toggle matches Some(c) ==> c < final(self).mods@.len(),
            Self::ticked(*old(self), *final(self), action),
    {
        match action {
            Action::Tick => {
                match self.pending.try_recv() {
                    Ok(Actions::Selected(c)) => {
                        if c < self.mods.len() {
                            Some(c)
                        } else {
                            None
                        }
                    },
                    Err(_) => None,
                }
            },
            _ => None,
        }
    }

    /// `after` is `before` with the mod at `index` toggled: unless the
    /// toggle was refused, its flag is what its folder shows afterwards.
    pub open spec fn toggled_at(
        before: Seq<Mod>,
        index: int,
        change: MarkerChange,
        enabled_after: bool,
        after: Seq<Mod>,
    ) -> bool {
        &&& after.len() == before.len()
        &&& forall|k: int| 0 <= k < before.len() && k != index ==> after[k] == before[k]
        &&& 0 <= index < before.len() ==> after[index]@ == if change == MarkerChange::Refused {
            before[index]@
        } else {
            ModView { enabled: Some(enabled_after), ..before[index]@ }
        }
    }

    /// Toggles the mod at `index`, whose folder holds `entries`, and shows
    /// the list again. The change is carried out on `entries` and returned
    /// for the caller to carry out on the file system. An index beyond the
    /// list, like a force-enabled mod, is refused.
    pub fn toggle(&mut self, index: usize, entries: &mut Vec<FileEntry>) -> (change: MarkerChange)
        ensures
            index < old(self).mods@.len() ==> change == toggle_change(
                old(self).mods@[index as int].force_enable,
                old(entries)@,
            ),
            index >= old(self).mods@.len() ==> change == MarkerChange::Refused,
            changed_by(old(entries)@, change, final(entries)@),
            entry_names(final(entries)@) == names_after(entry_names(old(entries)@), change),
            change == MarkerChange::Create ==> !enabled_in(final(entries)@),
            change == MarkerChange::Remove ==> enabled_in(final(entries)@),
            final(self).mods@.len() == old(self).mods@.len(),
            exists|after: Seq<Mod>| #[trigger]
                Self::toggled_at(
                    old(self).mods@,
                    index as int,
                    change,
                    enabled_in(final(entries)@),
                    after,
                ) && stable_sort_of(
                    final(self).mods@,
                    after,
                    mod_keys(after, old(self).order),
                ),
            rows_view(final(self).options.options@) == mod_rows(final(self).mods@),
            final(self).options.well_formed(),
            final(self).options.has_local_handler == old(self).options.has_local_handler,
            final(self).options.has_focus == old(self).options.has_focus,
            final(self).has_focus == old(self).has_focus,
            final(self).order == old(self).order,
            final(self).pending == old(self).pending,
    {
        let change = if index < self.mods.len() {
            let mut m = self.mods.remove(index);
            let change = m.toggle_enabled(entries);
            self.mods.insert(index, m);
            change
        } else {
            MarkerChange::Refused
        };
        let ghost after = self.mods@;
        assert(Self::toggled_at(
            old(self).mods@,
            index as int,
            change,
            enabled_in(entries@),
            after,
        ));
        self.build_options();
        change
    }

    /// `after` is `before` with every mod that lies in `folder` flagged as
    /// `enabled`, and every other mod as it was.
    pub open spec fn refreshed_in(
        before: Seq<Mod>,
        folder: Seq<char>,
        enabled: bool,
        after: Seq<Mod>,
    ) -> bool {
        &&& after.len() == before.len()
        &&& forall|k: int|
            0 <= k < before.len() ==> if before[k].folder@ == folder {
                (#[trigger] after[k])@ == (ModView { enabled: Some(enabled), ..before[k]@ })
            } else {
                after[k] == before[k]
            }
    }

    /// Looks again at the folder `folder`, which now holds `entries`: every
    /// mod that lies in it is flagged by what the entries show, whatever it
    /// was flagged as before. Then the list is sorted and shown again.
    pub fn refresh(&mut self, folder: &str, entries: &Vec<FileEntry>)
        ensures
            exists|after: Seq<Mod>| #[trigger]
                Self::refreshed_in(old(self).mods@, folder@, enabled_in(entries@), after)
                    && stable_sort_of(
                    final(self).mods@,
                    after,
                    mod_keys(after, old(self).order),
                ),
            rows_view(final(self).options.options@) == mod_rows(final(self).mods@),
            final(self).options.well_formed(),
            final(self).options.selected == crate::components::optionselector::clamped(
                old(self).options.selected as int,
                old(self).mods@.len() as int,
            ),
            final(self).options.title == old(self).options.title,
            final(self).options.has_local_handler == old(self).options.has_local_handler,
            final(self).options.has_focus == old(self).options.has_focus,
            final(self).has_focus == old(self).has_focus,
            final(self).order == old(self).order,
            final(self).pending == old(self).pending,
    {
        let mut all: Vec<Mod> = Vec::new();
        std::mem::swap(&mut self.mods, &mut all);
        let mut fresh: Vec<Mod> = Vec::new();
        for m in it: all
            invariant
                it.seq() == old(self).mods@,
                fresh@.len() == it.index(),
                forall|k: int|
                    0 <= k < it.index() ==> if it.seq()[k].folder@ == folder@ {
                        (#[trigger] fresh@[k])@ == (ModView {
                            enabled: Some(enabled_in(entries@)),
                            ..it.seq()[k]@
                        })
                    } else {
                        fresh@[k] == it.seq()[k]
                    },
        {
            let mut m = m;
            if str_eq(m.folder.as_str(), folder) {
                m.refresh_enabled(entries);
            }
            fresh.push(m);
        }
        self.mods = fresh;
        assert(Self::refreshed_in(
            old(self).mods@,
            folder@,
            enabled_in(entries@),
            self.mods@,
        ));
        self.build_options();
    }

    /// The panel with its focus, and that of its list, set to `focus`.
    pub open spec fn with_focus(self, focus: bool) -> Self {
        ModlistComponent { has_focus: focus, options: self.options.with_focus(focus), ..self }
    }

    /// Gives the panel and its list the focus.
    pub fn focus(&mut self)
        ensures
            *final(self) == old(self).with_focus(true),
    {
        self.has_focus = true;
        self.options.focus();
    }

    /// Takes the focus from the panel and its list.
    pub fn unfocus(&mut self)
        ensures
            *final(self) == old(self).with_focus(false),
    {
        self.has_focus = false;
        self.options.unfocus();
    }
}

} // verus!
