//! The root of the interface: it runs the startup sequence and routes the
//! focus among its panels.

use crate::action::{Action, KeyCode, KeyEvent};
use crate::components::authoring::AuthoringTools;
use crate::components::modlist::ModlistComponent;
use crate::components::optionselector::{
    plain_row, rows_view, OptionSelector, OptionSelectorText, SpanView,
};
use crate::components::quickoptions::{QuickAction, QuickOptions};
use crate::components::remotemods::{title_keys, RemoteModsComponent};
use crate::mods::{index_of, remote_views, IndexEntry, Mod, ModFolder, RemoteMod};
use crate::order::stable_sort_of;
use crate::style::Style;
use vstd::prelude::*;
use vstd::string::StringExecFns;

verus! {

/// The panel that has the focus.
#[derive(Clone, Copy, Debug, PartialEq, Eq, Structural)]
pub enum Focused {
    Modes,
    InstalledMods,
    RemoteMods,
    Authoring,
    Quicks,
}

/// The phases of the startup sequence.
#[derive(Clone, Copy, Debug, PartialEq, Eq, Structural)]
pub enum StartupPhase {
    Uninitialized,
    CheckingLocalIndex,
    /// A mirror of the index exists and is brought up to date.
    SyncingIndex,
    /// No mirror exists and the index is downloaded whole.
    DownloadingIndex,
    Ready,
}

/// The work outside the program that a phase waits for.
#[derive(Clone, Copy, Debug, PartialEq, Eq, Structural)]
pub enum StartupWork {
    Nothing,
    /// Look whether a mirror of the index exists.
    CheckMirror,
    /// Fetch the remote index and reset the mirror to it.
    SyncMirror,
    /// Clone the remote index.
    DownloadMirror,
}

/// What became of the work that was done before a tick.
#[derive(Debug)]
pub enum WorkOutcome {
    /// No work was done.
    Nothing,
    /// The look for a mirror found one, or none.
    MirrorFound(bool),
    /// The mirror is up to date, and this is the listing of its mods.
    Synced(Vec<IndexEntry>),
    /// The mirror could not be brought up to date.
    Failed,
}

/// What follows when the index cannot be had at startup.
#[derive(Clone, Copy, Debug, PartialEq, Eq, Structural)]
pub enum FailurePolicy {
    /// Go on with an empty index and show that it failed. This is the
    /// default.
    Degraded,
    /// Ask the program to quit.
    Abort,
}

/// What a tick asks the caller to do.
#[derive(Debug)]
pub struct TickEffects {
    /// The action to broadcast next, if any.
    pub next: Option<Action>,
    /// The index of the installed mod to toggle.
    pub toggle: Option<usize>,
    /// The quick action to carry out.
    pub quick: Option<QuickAction>,
    /// The remote mod to install in the background.
    pub install: Option<RemoteMod>,
}

/// The work that a phase waits for.
pub open spec fn work_of(phase: StartupPhase) -> StartupWork {
    match phase {
        StartupPhase::CheckingLocalIndex => StartupWork::CheckMirror,
        StartupPhase::SyncingIndex => StartupWork::SyncMirror,
        StartupPhase::DownloadingIndex => StartupWork::DownloadMirror,
        _ => StartupWork::Nothing,
    }
}

/// The outcome is one of the work asked for.
pub open spec fn answers(work: StartupWork, outcome: WorkOutcome) -> bool {
    match work {
        StartupWork::Nothing => true,
        StartupWork::CheckMirror => outcome is MirrorFound,
        StartupWork::SyncMirror | StartupWork::DownloadMirror => outcome is Synced
            || outcome is Failed,
    }
}

/// The phase after one tick. The first tick starts the check. The check
/// leads to syncing if a mirror exists and to downloading if none does.
/// Either ends in `Ready`, whether it succeeded or failed. `Ready` stays. A
/// tick that brings no outcome of the work its phase waits for changes
/// nothing.
pub open spec fn next_phase(phase: StartupPhase, outcome: WorkOutcome) -> StartupPhase {
    match phase {
        StartupPhase::Uninitialized => StartupPhase::CheckingLocalIndex,
        StartupPhase::CheckingLocalIndex => match outcome {
            WorkOutcome::MirrorFound(true) => StartupPhase::SyncingIndex,
            WorkOutcome::MirrorFound(false) => StartupPhase::DownloadingIndex,
            _ => phase,
        },
        StartupPhase::SyncingIndex | StartupPhase::DownloadingIndex => match outcome {
            WorkOutcome::Synced(_) | WorkOutcome::Failed => StartupPhase::Ready,
            _ => phase,
        },
        StartupPhase::Ready => StartupPhase::Ready,
    }
}

/// The phase after a sequence of ticks, given the outcome that each brought.
pub open spec fn phase_after(phase: StartupPhase, outcomes: Seq<WorkOutcome>) -> StartupPhase
    decreases outcomes.len(),
{
    if outcomes.len() == 0 {
        phase
    } else {
        next_phase(phase_after(phase, outcomes.drop_last()), outcomes.last())
    }
}

/// How far a phase is into the sequence.
pub open spec fn rank(phase: StartupPhase) -> int {
    match phase {
        StartupPhase::Uninitialized => 0,
        StartupPhase::CheckingLocalIndex => 1,
        StartupPhase::SyncingIndex => 2,
        StartupPhase::DownloadingIndex => 2,
        StartupPhase::Ready => 3,
    }
}

/// One tick never goes back: the phase stays or moves on, `Ready` stays
/// `Ready`, and of syncing and downloading neither leads to the other.
pub proof fn lemma_step_forward(phase: StartupPhase, outcome: WorkOutcome)
    ensures
        rank(next_phase(phase, outcome)) >= rank(phase),
        rank(next_phase(phase, outcome)) == rank(phase) ==> next_phase(phase, outcome) == phase,
        phase == StartupPhase::Ready ==> next_phase(phase, outcome) == StartupPhase::Ready,
        answers(work_of(phase), outcome) && phase != StartupPhase::Ready ==> rank(
            next_phase(phase, outcome),
        ) > rank(phase),
{
}

/// The check enters syncing exactly when a mirror was found and downloading
/// exactly when none was, and nothing else enters either.
pub proof fn lemma_branch_by_mirror(phase: StartupPhase, outcome: WorkOutcome)
    requires
        phase != StartupPhase::SyncingIndex,
        phase != StartupPhase::DownloadingIndex,
    ensures
        next_phase(phase, outcome) == StartupPhase::SyncingIndex <==> phase
            == StartupPhase::CheckingLocalIndex && outcome == WorkOutcome::MirrorFound(true),
        next_phase(phase, outcome) == StartupPhase::DownloadingIndex <==> phase
            == StartupPhase::CheckingLocalIndex && outcome == WorkOutcome::MirrorFound(false),
{
}

/// Over any run of ticks the phase only moves forward: a later phase is
/// never before an earlier one, a phase that was left is not entered again,
/// and once `Ready` the phase is `Ready` for good. So `Ready` is entered at
/// most once, and of syncing and downloading at most one is ever entered.
pub proof fn lemma_phases_ascend(phase: StartupPhase, outcomes: Seq<WorkOutcome>, i: int, j: int)
    requires
        0 <= i <= j <= outcomes.len(),
    ensures
        rank(phase_after(phase, outcomes.take(i))) <= rank(phase_after(phase, outcomes.take(j))),
        rank(phase_after(phase, outcomes.take(i))) == rank(phase_after(phase, outcomes.take(j)))
            ==> phase_after(phase, outcomes.take(i)) == phase_after(phase, outcomes.take(j)),
        phase_after(phase, outcomes.take(i)) == StartupPhase::Ready ==> phase_after(
            phase,
            outcomes.take(j),
        ) == StartupPhase::Ready,
        !(phase_after(phase, outcomes.take(i)) == StartupPhase::SyncingIndex && phase_after(
            phase,
            outcomes.take(j),
        ) == StartupPhase::DownloadingIndex),
        !(phase_after(phase, outcomes.take(i)) == StartupPhase::DownloadingIndex && phase_after(
            phase,
            outcomes.take(j),
        ) == StartupPhase::SyncingIndex),
    decreases j - i,
{
    if i < j {
        lemma_phases_ascend(phase, outcomes, i, j - 1);
        assert(outcomes.take(j).drop_last() =~= outcomes.take(j - 1));
        lemma_step_forward(phase_after(phase, outcomes.take(j - 1)), outcomes.take(j).last());
    }
}

/// Startup completes in three ticks, whatever the work brings, as long as
/// each tick brings an outcome of the work that its phase waited for: the
/// check is followed by exactly one of syncing and downloading, by whether a
/// mirror was found, and then by `Ready`.
pub proof fn lemma_startup_completes(first: WorkOutcome, found: bool, last: WorkOutcome)
    requires
        last is Synced || last is Failed,
    ensures
        phase_after(StartupPhase::Uninitialized, seq![first]) == StartupPhase::CheckingLocalIndex,
        phase_after(StartupPhase::Uninitialized, seq![first, WorkOutcome::MirrorFound(found)])
            == if found {
            StartupPhase::SyncingIndex
        } else {
            StartupPhase::DownloadingIndex
        },
        phase_after(
            StartupPhase::Uninitialized,
            seq![first, WorkOutcome::MirrorFound(found), last],
        ) == StartupPhase::Ready,
{
    let one = seq![first];
    let two = seq![first, WorkOutcome::MirrorFound(found)];
    let three = seq![first, WorkOutcome::MirrorFound(found), last];
    reveal_with_fuel(phase_after, 4);
    assert(one.drop_last() =~= Seq::<WorkOutcome>::empty());
    assert(two.drop_last() =~= one);
    assert(three.drop_last() =~= two);
}

/// The labels of the modes, top row first.
pub open spec fn mode_labels() -> Seq<Seq<char>> {
    seq!["Quick Options"@, "Installed Mods"@, "Find New Mods"@, "Mod Authoring Tools"@]
}

/// The rows of the mode list: one plain span each.
pub open spec fn mode_rows() -> Seq<Seq<SpanView>> {
    Seq::new(
        mode_labels().len(),
        |i: int| seq![SpanView { text: mode_labels()[i], style: Style::plain() }],
    )
}

/// The panel behind the row `selected` of the mode list, if the row has one.
pub open spec fn panel_of(selected: usize) -> Option<Focused> {
    if selected == 0 {
        Some(Focused::Quicks)
    } else if selected == 1 {
        Some(Focused::InstalledMods)
    } else if selected == 2 {
        Some(Focused::RemoteMods)
    } else if selected == 3 {
        Some(Focused::Authoring)
    } else {
        None
    }
}

/// Where the focus is after one key. From the mode list, the right arrow
/// moves it to the panel of the selected mode; from a panel, the left arrow
/// moves it back to the mode list. No other key moves it.
pub open spec fn next_focus(focused: Focused, selected: usize, code: KeyCode) -> Focused {
    match focused {
        Focused::Modes => if code == KeyCode::Right {
            match panel_of(selected) {
                Some(panel) => panel,
                None => focused,
            }
        } else {
            focused
        },
        _ => if code == KeyCode::Left {
            Focused::Modes
        } else {
            focused
        },
    }
}

/// The message shown in place of the panels while a phase lasts.
pub open spec fn status_of(phase: StartupPhase) -> Option<Seq<char>> {
    match phase {
        StartupPhase::Uninitialized => None,
        StartupPhase::CheckingLocalIndex => Some("Now loading..."@),
        StartupPhase::DownloadingIndex => Some("Downloading mod list..."@),
        StartupPhase::SyncingIndex => Some("Updating mod list..."@),
        StartupPhase::Ready => None,
    }
}

/// The root of the interface.
#[derive(Debug)]
pub struct Home {
    pub quick_ops: QuickOptions,
    pub installed_mod_selector: ModlistComponent,
    pub remote_mod_selector: RemoteModsComponent,
    pub mode_selector: OptionSelector,
    pub focused: Focused,
    pub authoring: AuthoringTools,
    pub has_focus: bool,
    pub state: StartupPhase,
    /// Whether the index could not be had at startup.
    pub startup_failed: bool,
    pub on_failure: FailurePolicy,
}

impl Home {
    /// The panel named by `focused` has the focus and no other has: each
    /// panel, with the parts it is made of, is focused exactly when
    /// `focused` names it.
    pub open spec fn focus_is_routed(&self) -> bool {
        &&& self.mode_selector.has_focus == (self.focused == Focused::Modes)
        &&& self.quick_ops.has_focus == (self.focused == Focused::Quicks)
        &&& self.quick_ops.options.has_focus == self.quick_ops.has_focus
        &&& self.installed_mod_selector.has_focus == (self.focused == Focused::InstalledMods)
        &&& self.installed_mod_selector.options.has_focus == self.installed_mod_selector.has_focus
        &&& self.remote_mod_selector.has_focus == (self.focused == Focused::RemoteMods)
        &&& self.remote_mod_selector.options.has_focus == self.remote_mod_selector.has_focus
        &&& self.remote_mod_selector.searchbar.focused == self.remote_mod_selector.has_focus
        &&& self.authoring.has_focus == (self.focused == Focused::Authoring)
    }

    /// The number of panels that take themselves to be focused.
    pub open spec fn focused_panels(&self) -> nat {
        (if self.mode_selector.has_focus { 1nat } else { 0nat })
            + (if self.quick_ops.has_focus { 1nat } else { 0nat })
            + (if self.installed_mod_selector.has_focus { 1nat } else { 0nat })
            + (if self.remote_mod_selector.has_focus { 1nat } else { 0nat })
            + (if self.authoring.has_focus { 1nat } else { 0nat })
    }

    /// The focus is routed, the mode list shows the four modes, and every
    /// panel is well formed.
    pub open spec fn well_formed(&self) -> bool {
        &&& self.focus_is_routed()
        &&& rows_view(self.mode_selector.options@) == mode_rows()
        &&& self.mode_selector.well_formed()
        &&& !self.mode_selector.has_local_handler
        &&& self.quick_ops.well_formed()
        &&& self.installed_mod_selector.well_formed()
        &&& self.remote_mod_selector.well_formed()
    }

    /// The root over the installed mods `mods` and the working directory
    /// `workdir`, before startup, with the focus on the mode list.
    pub fn new(mods: Vec<Mod>, workdir: &ModFolder) -> (home: Self)
        ensures
            home.well_formed(),
            home.focused == Focused::Modes,
            home.state == StartupPhase::Uninitialized,
            !home.startup_failed,
            home.on_failure == FailurePolicy::Degraded,
            !home.has_focus,
            home.mode_selector.selected == 0,
            home.mode_selector.options@.len() == 4,
            home.mode_selector.title@ == "Modes"@,
            home.remote_mod_selector.mods@.len() == 0,
            home.remote_mod_selector.displayed_mods@.len() == 0,
            home.remote_mod_selector.state is Normal,
            home.remote_mod_selector.searchbar.text@.len() == 0,
            !home.quick_ops.launching_balatro,
            home.quick_ops.pending@.len() == 0,
            home.installed_mod_selector.pending@.len() == 0,
            home.installed_mod_selector.order
                == crate::components::modlist::SortOrder::NameOnly,
            home.authoring.edited_mod@ == if workdir.is_dir {
                Mod::found_in(*workdir)
            } else {
                Mod::blank()
            },
            stable_sort_of(
                home.installed_mod_selector.mods@,
                mods@,
                crate::components::modlist::mod_keys(
                    mods@,
                    crate::components::modlist::SortOrder::NameOnly,
                ),
            ),
            home.authoring.mod_path@ == workdir.path@,
    {
        let mut rows: Vec<Vec<OptionSelectorText>> = Vec::new();
        rows.push(plain_row("Quick Options"));
        rows.push(plain_row("Installed Mods"));
        rows.push(plain_row("Find New Mods"));
        rows.push(plain_row("Mod Authoring Tools"));
        assert(rows_view(rows@) =~= mode_rows());
        let mut mode_selector = OptionSelector::new(rows);
        mode_selector.has_focus = true;
        mode_selector.title = String::from_str("Modes");
        Self {
            installed_mod_selector: ModlistComponent::new(mods),
            remote_mod_selector: RemoteModsComponent::new(),
            mode_selector,
            authoring: AuthoringTools::new(workdir),
            quick_ops: QuickOptions::new(),
            focused: Focused::Modes,
            has_focus: false,
            state: StartupPhase::Uninitialized,
            startup_failed: false,
            on_failure: FailurePolicy::Degraded,
        }
    }

    /// Gives the root the focus.
    pub fn focus(&mut self)
        ensures
            *final(self) == (Home { has_focus: true, ..*old(self) }),
    {
        self.has_focus = true;
    }

    /// Takes the focus from the root.
    pub fn unfocus(&mut self)
        ensures
            *final(self) == (Home { has_focus: false, ..*old(self) }),
    {
        self.has_focus = false;
    }

    /// Whether one key moves the focus from the mode list to the panel
    /// `panel`.
    pub open spec fn enters(pre: Self, key: KeyEvent, panel: Focused) -> bool {
        pre.focused == Focused::Modes && key.code == KeyCode::Right && panel_of(
            pre.mode_selector.selected,
        ) == Some(panel)
    }

    /// Whether one key moves the focus from the panel `panel` back to the
    /// mode list.
    pub open spec fn leaves(pre: Self, key: KeyEvent, panel: Focused) -> bool {
        pre.focused == panel && key.code == KeyCode::Left
    }

    /// What one key that is not the quit key does to the root, in every
    /// phase. The focus moves as `next_focus` says, and the panel that
    /// gains it is focused as the panel that loses it is unfocused. Every
    /// other key goes to the panel that has the focus. A panel that neither
    /// has the focus nor gains it stays as it is.
    pub open spec fn routed(pre: Self, post: Self, key: KeyEvent) -> bool {
        &&& post.focused == next_focus(pre.focused, pre.mode_selector.selected, key.code)
        &&& post.state == pre.state
        &&& post.has_focus == pre.has_focus
        &&& post.startup_failed == pre.startup_failed
        &&& post.on_failure == pre.on_failure
        &&& post.mode_selector == if pre.focused == Focused::Modes {
            if key.code != KeyCode::Right {
                pre.mode_selector.after_key(key.code)
            } else if panel_of(pre.mode_selector.selected) is Some {
                pre.mode_selector.with_focus(false)
            } else {
                pre.mode_selector
            }
        } else if key.code == KeyCode::Left {
            pre.mode_selector.with_focus(true)
        } else {
            pre.mode_selector
        }
        &&& if Self::enters(pre, key, Focused::Quicks) {
            post.quick_ops == pre.quick_ops.with_focus(true)
        } else if Self::leaves(pre, key, Focused::Quicks) {
            post.quick_ops == pre.quick_ops.with_focus(false)
        } else if pre.focused == Focused::Quicks {
            QuickOptions::keyed(pre.quick_ops, post.quick_ops, key)
        } else {
            post.quick_ops == pre.quick_ops
        }
        &&& if Self::enters(pre, key, Focused::InstalledMods) {
            post.installed_mod_selector == pre.installed_mod_selector.with_focus(true)
        } else if Self::leaves(pre, key, Focused::InstalledMods) {
            post.installed_mod_selector == pre.installed_mod_selector.with_focus(false)
        } else if pre.focused == Focused::InstalledMods {
            ModlistComponent::keyed(pre.installed_mod_selector, post.installed_mod_selector, key)
        } else {
            post.installed_mod_selector == pre.installed_mod_selector
        }
        &&& if Self::enters(pre, key, Focused::RemoteMods) {
            post.remote_mod_selector == pre.remote_mod_selector.with_focus(true)
        } else if Self::leaves(pre, key, Focused::RemoteMods) {
            post.remote_mod_selector == pre.remote_mod_selector.with_focus(false)
        } else if pre.focused == Focused::RemoteMods {
            RemoteModsComponent::keyed(pre.remote_mod_selector, post.remote_mod_selector, key)
        } else {
            post.remote_mod_selector == pre.remote_mod_selector
        }
        &&& post.authoring == if Self::enters(pre, key, Focused::Authoring) {
            pre.authoring.with_focus(true)
        } else if Self::leaves(pre, key, Focused::Authoring) {
            pre.authoring.with_focus(false)
        } else {
            pre.authoring
        }
    }

    /// Handles one key. The quit key asks the program to quit, whatever has
    /// the focus and whatever the phase, and changes nothing. Every other key
    /// is routed as `routed` says, in every phase.
    pub fn handle_key_event(&mut self, key: KeyEvent) -> (next: Option<Action>)
        ensures
            key.is_quit() ==> next == Some(Action::Quit) && *final(self) == *old(self),
            !key.is_quit() ==> next is None,
            !key.is_quit() ==> Self::routed(*old(self), *final(self), key),
            old(self).focus_is_routed() ==> final(self).focus_is_routed(),
            old(self).well_formed() ==> final(self).well_formed(),
    {
        if key.is_quit_key() {
            return Some(Action::Quit);
        }
        match self.focused {
            Focused::Modes => {
                match key.code {
                    KeyCode::Right => {
                        let selected: usize = self.mode_selector.selected;
                        if selected == 0 {
                            self.focused = Focused::Quicks;
                            self.quick_ops.focus();
                            self.mode_selector.unfocus();
                        } else if selected == 1 {
                            self.focused = Focused::InstalledMods;
                            self.installed_mod_selector.focus();
                            self.mode_selector.unfocus();
                        } else if selected == 2 {
                            self.focused = Focused::RemoteMods;
                            self.remote_mod_selector.focus();
                            self.mode_selector.unfocus();
                        } else if selected == 3 {
                            self.focused = Focused::Authoring;
                            self.authoring.focus();
                            self.mode_selector.unfocus();
                        }
                    },
                    _ => {
                        let _ = self.mode_selector.handle_key_event(key);
                    },
                }
            },
            Focused::Quicks => {
                match key.code {
                    KeyCode::Left => {
                        self.focused = Focused::Modes;
                        self.quick_ops.unfocus();
                        self.mode_selector.focus();
                    },
                    _ => {
                        let _ = self.quick_ops.handle_key_event(key);
                    },
                }
            },
            Focused::InstalledMods => {
                match key.code {
                    KeyCode::Left => {
                        self.focused = Focused::Modes;
                        self.installed_mod_selector.unfocus();
                        self.mode_selector.focus();
                    },
                    _ => {
                        let _ = self.installed_mod_selector.handle_key_event(key);
                    },
                }
            },
            Focused::RemoteMods => {
                match key.code {
                    KeyCode::Left => {
                        self.focused = Focused::Modes;
                        self.remote_mod_selector.unfocus();
                        self.mode_selector.focus();
                    },
                    _ => {
                        let _ = self.remote_mod_selector.handle_key_event(key);
                    },
                }
            },
            Focused::Authoring => {
                match key.code {
                    KeyCode::Left => {
                        self.focused = Focused::Modes;
                        self.authoring.unfocus();
                        self.mode_selector.focus();
                    },
                    _ => {
                        let _ = self.authoring.handle_key_event(key);
                    },
                }
            },
        }
        None
    }

    /// The work that has to be done before the next tick, and whose outcome
    /// that tick is to be given.
    pub fn required_work(&self) -> (work: StartupWork)
        ensures
            work == work_of(self.state),
    {
        match self.state {
            StartupPhase::CheckingLocalIndex => StartupWork::CheckMirror,
            StartupPhase::SyncingIndex => StartupWork::SyncMirror,
            StartupPhase::DownloadingIndex => StartupWork::DownloadMirror,
            _ => StartupWork::Nothing,
        }
    }

    /// The index is awaited and `outcome` tells that it could not be had.
    pub open spec fn fails_now(phase: StartupPhase, outcome: WorkOutcome) -> bool {
        (phase == StartupPhase::SyncingIndex || phase == StartupPhase::DownloadingIndex)
            && outcome is Failed
    }

    /// The index is awaited and `outcome` brings its listing.
    pub open spec fn arrives_now(phase: StartupPhase, outcome: WorkOutcome) -> bool {
        (phase == StartupPhase::SyncingIndex || phase == StartupPhase::DownloadingIndex)
            && outcome is Synced
    }

    /// Handles one action, `outcome` being what became of the work that
    /// `required_work` asked for. A tick moves the startup sequence one step,
    /// as `next_phase` says; the step into `Ready` fills the panel of the
    /// remote index from the listing, or on failure leaves it empty and
    /// notes the failure, asking to quit if that is the policy. Then every
    /// panel is told of the action, and what the panels ask for is handed
    /// back. The focus is never touched.
    pub fn update(&mut self, action: Action, outcome: WorkOutcome) -> (effects: TickEffects)
        ensures
            final(self).state == if action == Action::Tick {
                next_phase(old(self).state, outcome)
            } else {
                old(self).state
            },
            final(self).startup_failed == (old(self).startup_failed || action == Action::Tick
                && Self::fails_now(old(self).state, outcome)),
            effects.next == if action == Action::Tick && Self::fails_now(old(self).state, outcome)
                && old(self).on_failure == FailurePolicy::Abort {
                Some(Action::Quit)
            } else {
                None
            },
            final(self).on_failure == old(self).on_failure,
            final(self).focused == old(self).focused,
            final(self).has_focus == old(self).has_focus,
            final(self).mode_selector == old(self).mode_selector,
            final(self).authoring == old(self).authoring,
            old(self).focus_is_routed() ==> final(self).focus_is_routed(),
            old(self).well_formed() ==> final(self).well_formed(),
            effects.toggle == if action == Action::Tick {
                old(self).installed_mod_selector.due()
            } else {
                None
            },
            effects.quick == if action == Action::Tick {
                old(self).quick_ops.due()
            } else {
                None
            },
            match effects.install {
                Some(m) => action == Action::Tick && old(self).remote_mod_selector.downloading()
                    == Some(m@),
                None => action != Action::Tick || old(self).remote_mod_selector.downloading()
                    is None,
            },
            ModlistComponent::ticked(
                old(self).installed_mod_selector,
                final(self).installed_mod_selector,
                action,
            ),
            QuickOptions::ticked(old(self).quick_ops, final(self).quick_ops, action),
            action == Action::Tick ==> final(self).remote_mod_selector.state is Normal,
            final(self).remote_mod_selector.searchbar == old(self).remote_mod_selector.searchbar,
            action == Action::Tick && Self::arrives_now(old(self).state, outcome) ==> {
                &&& remote_views(final(self).remote_mod_selector.mods@) == index_of(outcome->Synced_0@)
                &&& stable_sort_of(
                    remote_views(final(self).remote_mod_selector.displayed_mods@),
                    index_of(outcome->Synced_0@),
                    title_keys(index_of(outcome->Synced_0@)),
                )
                &&& final(self).remote_mod_selector.well_formed()
            },
            !(action == Action::Tick && Self::arrives_now(old(self).state, outcome))
                ==> RemoteModsComponent::ticked(
                old(self).remote_mod_selector,
                final(self).remote_mod_selector,
                action,
            ),
    {
        let mut next: Option<Action> = None;
        match action {
            Action::Tick => {
                match self.state {
                    StartupPhase::Uninitialized => {
                        self.state = StartupPhase::CheckingLocalIndex;
                    },
                    StartupPhase::CheckingLocalIndex => {
                        match outcome {
                            WorkOutcome::MirrorFound(found) => {
                                if found {
                                    self.state = StartupPhase::SyncingIndex;
                                } else {
                                    self.state = StartupPhase::DownloadingIndex;
                                }
                            },
                            _ => {},
                        }
                    },
                    StartupPhase::SyncingIndex | StartupPhase::DownloadingIndex => {
                        match outcome {
                            WorkOutcome::Synced(entries) => {
                                self.remote_mod_selector.setup_mods(&entries);
                                self.state = StartupPhase::Ready;
                            },
                            WorkOutcome::Failed => {
                                self.startup_failed = true;
                                self.state = StartupPhase::Ready;
                                match self.on_failure {
                                    FailurePolicy::Abort => {
                                        next = Some(Action::Quit);
                                    },
                                    FailurePolicy::Degraded => {},
                                }
                            },
                            _ => {},
                        }
                    },
                    StartupPhase::Ready => {},
                }
            },
            _ => {},
        }
        let toggle = self.installed_mod_selector.update(action);
        let quick = self.quick_ops.update(action);
        let install = self.remote_mod_selector.update(action);
        TickEffects { next, toggle, quick, install }
    }

    /// The message to show in place of the panels, if the phase has one.
    pub fn status_message(&self) -> (message: Option<String>)
        ensures
            match message {
                Some(text) => status_of(self.state) == Some(text@),
                None => status_of(self.state) is None,
            },
    {
        match self.state {
            StartupPhase::Uninitialized => None,
            StartupPhase::CheckingLocalIndex => Some(String::from_str("Now loading...")),
            StartupPhase::DownloadingIndex => Some(String::from_str("Downloading mod list...")),
            StartupPhase::SyncingIndex => Some(String::from_str("Updating mod list...")),
            StartupPhase::Ready => None,
        }
    }

    /// Whether the panels are drawn: only once the root is ready.
    pub fn shows_panels(&self) -> (shown: bool)
        ensures
            shown == (self.state == StartupPhase::Ready),
    {
        match self.state {
            StartupPhase::Ready => true,
            _ => false,
        }
    }

    /// The panel drawn beside the mode list: that of the selected mode.
    pub fn shown_panel(&self) -> (panel: Option<Focused>)
        ensures
            panel == panel_of(self.mode_selector.selected),
    {
        let selected: usize = self.mode_selector.selected;
        if selected == 0 {
            Some(Focused::Quicks)
        } else if selected == 1 {
            Some(Focused::InstalledMods)
        } else if selected == 2 {
            Some(Focused::RemoteMods)
        } else if selected == 3 {
            Some(Focused::Authoring)
        } else {
            None
        }
    }
}

/// Where the focus is routed, exactly one panel takes itself to be focused.
pub proof fn lemma_one_focus(home: Home)
    requires
        home.focus_is_routed(),
    ensures
        home.focused_panels() == 1,
{
}

} // verus!
