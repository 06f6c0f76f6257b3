//! The panel of one-shot actions.

use crate::action::{Action, KeyEvent};
use crate::channel::ActionChannel;
use crate::components::optionselector::{
    plain_row, row_view, rows_view, Actions, OptionSelector, OptionSelectorText, SpanView,
};
use crate::style::{border_color, border_for, Color, Style};
use vstd::prelude::*;
use vstd::string::StringExecFns;

verus! {

/// What a quick option asks the caller to do.
#[derive(Clone, Copy, Debug, PartialEq, Eq, Structural)]
pub enum QuickAction {
    /// Launch the game, with or without its console.
    Launch { disable_console: bool },
    /// Open the folder the game is installed in.
    OpenGameFolder,
    /// Open the folder that holds the game's data and mods.
    OpenModsFolder,
    /// Open this tool's own data folder.
    OpenDataFolder,
    /// Download and install the mod loader.
    InstallLoader,
}

/// The action behind the row with index `c`, if the row has one.
pub open spec fn quick_action(c: usize) -> Option<QuickAction> {
    if c == 0 {
        Some(QuickAction::Launch { disable_console: true })
    } else if c == 1 {
        Some(QuickAction::Launch { disable_console: false })
    } else if c == 2 {
        Some(QuickAction::OpenGameFolder)
    } else if c == 3 {
        Some(QuickAction::OpenModsFolder)
    } else if c == 4 {
        Some(QuickAction::OpenDataFolder)
    } else if c == 5 {
        Some(QuickAction::InstallLoader)
    } else {
        None
    }
}

/// The labels of the quick options, top row first.
pub open spec fn quick_labels() -> Seq<Seq<char>> {
    seq![
        "Launch Balatro"@,
        "Launch Balatro With Console"@,
        "Open Balatro data folder"@,
        "Open Balatro mods folder"@,
        "Open Balatro-tui data folder"@,
        "Install/Update Lovely"@,
    ]
}

/// The rows of the quick options: one plain span each.
pub open spec fn quick_rows() -> Seq<Seq<SpanView>> {
    Seq::new(
        quick_labels().len(),
        |i: int| seq![SpanView { text: quick_labels()[i], style: Style::plain() }],
    )
}

/// The first line shown while the game is launching.
pub open spec fn launching_line() -> Seq<char> {
    "Launching Balatro, please wait..."@
}

/// The second line shown while the game is launching.
pub open spec fn dismiss_line() -> Seq<char> {
    "   (Press any key to continue)"@
}

/// The quick options, with an overlay that is shown once the game was
/// launched until a key is pressed.
#[derive(Debug)]
pub struct QuickOptions {
    pub options: OptionSelector,
    pub has_focus: bool,
    pub launching_balatro: bool,
    /// The confirmations of the list that no tick has looked at yet.
    pub pending: ActionChannel,
}

impl QuickOptions {
    /// The list shows the six quick options and its selection stands for one.
    pub open spec fn well_formed(&self) -> bool {
        &&& rows_view(self.options.options@) == quick_rows()
        &&& self.options.well_formed()
        &&& self.options.has_local_handler
    }

    /// The panel with its six options, the first selected, without focus or
    /// overlay.
    pub fn new() -> (c: Self)
        ensures
            c.well_formed(),
            !c.has_focus,
            !c.options.has_focus,
            !c.launching_balatro,
            c.options.selected == 0,
            c.options.title@ == "Quick Options"@,
            c.pending@.len() == 0,
            !c.pending.is_closed(),
    {
        let mut rows: Vec<Vec<OptionSelectorText>> = Vec::new();
        rows.push(plain_row("Launch Balatro"));
        rows.push(plain_row("Launch Balatro With Console"));
        rows.push(plain_row("Open Balatro data folder"));
        rows.push(plain_row("Open Balatro mods folder"));
        rows.push(plain_row("Open Balatro-tui data folder"));
        rows.push(plain_row("Install/Update Lovely"));
        assert(rows_view(rows@) =~= quick_rows());
        let mut options = OptionSelector::new(rows);
        options.title = String::from_str("Quick Options");
        options.register_local_action_handler();
        Self { options, has_focus: false, launching_balatro: false, pending: ActionChannel::new() }
    }

    /// What one key does to the panel. While the overlay is shown any key
    /// dismisses it and does nothing else. Otherwise the key goes to the
    /// list, and a confirmation is queued for the next tick.
    pub open spec fn keyed(pre: Self, post: Self, key: KeyEvent) -> bool {
        &&& !post.launching_balatro
        &&& post.has_focus == pre.has_focus
        &&& post.pending.is_closed() == pre.pending.is_closed()
        &&& post.options == if pre.launching_balatro {
            pre.options
        } else {
            pre.options.after_key(key.code)
        }
        &&& post.pending@ == if pre.launching_balatro {
            pre.pending@
        } else {
            match pre.options.notice_for(key.code) {
                Some(notice) => if pre.pending.is_closed() {
                    pre.pending@
                } else {
                    pre.pending@.push(notice)
                },
                None => pre.pending@,
            }
        }
    }

    /// Handles one key. While the overlay is shown any key dismisses it and
    /// does nothing else; the launch itself goes on. Otherwise the key goes
    /// to the list, and a confirmation is queued for the next tick. No
    /// action follows.
    pub fn handle_key_event(&mut self, key: KeyEvent) -> (next: Option<Action>)
        ensures
            next is None,
            Self::keyed(*old(self), *final(self), key),
            old(self).well_formed() ==> final(self).well_formed(),
    {
        if self.launching_balatro {
            self.launching_balatro = false;
        } else {
            match self.options.handle_key_event(key) {
                Some(notice) => {
                    let _ = self.pending.send(notice);
                },
                None => {},
            }
        }
        None
    }

    /// The action that a tick asks for: that of the oldest confirmation not
    /// yet looked at.
    pub open spec fn due(&self) -> Option<QuickAction> {
        if self.pending@.len() > 0 {
            match self.pending@[0] {
                Actions::Selected(c) => quick_action(c),
            }
        } else {
            None
        }
    }

    /// What one action does to the panel: a tick takes the oldest
    /// confirmation off the queue, and if it asks for a launch the overlay
    /// is raised. Nothing else changes.
    pub open spec fn ticked(pre: Self, post: Self, action: Action) -> bool {
        &&& post.options == pre.options
        &&& post.has_focus == pre.has_focus
        &&& post.pending.is_closed() == pre.pending.is_closed()
        &&& post.pending@ == if action == Action::Tick && pre.pending@.len() > 0 {
            pre.pending@.drop_first()
        } else {
            pre.pending@
        }
        &&& post.launching_balatro == (pre.launching_balatro || action == Action::Tick
            && pre.due() is Some && pre.due()->0 is Launch)
    }

    /// On a tick, takes the oldest confirmation off the queue and gives its
    /// action for the caller to carry out. A launch raises the overlay.
    /// Later confirmations wait for later ticks. Other actions change
    /// nothing.
    pub fn update(&mut self, action: Action) -> (todo: Option<QuickAction>)
        ensures
            final(self).options == old(self).options,
            final(self).has_focus == old(self).has_focus,
            final(self).pending.is_closed() == old(self).pending.is_closed(),
            action == Action::Tick ==> todo == old(self).due() && final(self).pending@ == if old(self).pending@.len() > 0 {
                old(self).pending@.drop_first()
            } else {
                old(self).pending@
            },
            action != Action::Tick ==> todo is None && final(self).pending@ == old(self).pending@,
            final(self).launching_balatro == (old(self).launching_balatro || todo is Some
                && todo->0 is Launch),
            Self::ticked(*old(self), *final(self), action),
    {
        match action {
            Action::Tick => {
                match self.pending.try_recv() {
                    Ok(Actions::Selected(c)) => {
                        let todo = Self::action_for(c);
                        match todo {
                            Some(QuickAction::Launch { .. }) => {
                                self.launching_balatro = true;
                            },
                            _ => {},
                        }
                        todo
                    },
                    Err(_) => None,
                }
            },
            _ => None,
        }
    }

    /// The action behind the row with index `c`, if the row has one.
    pub fn action_for(c: usize) -> (todo: Option<QuickAction>)
        ensures
            todo == quick_action(c),
    {
        if c == 0 {
            Some(QuickAction::Launch { disable_console: true })
        } else if c == 1 {
            Some(QuickAction::Launch { disable_console: false })
        } else if c == 2 {
            Some(QuickAction::OpenGameFolder)
        } else if c == 3 {
            Some(QuickAction::OpenModsFolder)
        } else if c == 4 {
            Some(QuickAction::OpenDataFolder)
        } else if c == 5 {
            Some(QuickAction::InstallLoader)
        } else {
            None
        }
    }

    /// Whether the overlay is drawn in place of the list.
    pub fn shows_overlay(&self) -> (shown: bool)
        ensures
            shown == self.launching_balatro,
    {
        self.launching_balatro
    }

    /// The two lines of the overlay, the second of them gray.
    pub fn overlay_lines(&self) -> (lines: Vec<OptionSelectorText>)
        ensures
            row_view(lines@) == seq![
                SpanView { text: launching_line(), style: Style::plain() },
                SpanView {
                    text: dismiss_line(),
                    style: Style { fg: Some(Color::Gray), bold: false },
                },
            ],
    {
        let mut lines: Vec<OptionSelectorText> = Vec::new();
        lines.push(
            OptionSelectorText::new(
                String::from_str("Launching Balatro, please wait..."),
                Style::new(),
            ),
        );
        lines.push(
            OptionSelectorText::new(
                String::from_str("   (Press any key to continue)"),
                Style::new().fg(Color::Gray),
            ),
        );
        assert(row_view(lines@) =~= seq![
            SpanView { text: launching_line(), style: Style::plain() },
            SpanView { text: dismiss_line(), style: Style { fg: Some(Color::Gray), bold: false } },
        ]);
        lines
    }

    /// The colour of the overlay's border: light cyan with the focus, white
    /// without.
    pub fn border(&self) -> (c: Color)
        ensures
            c == border_for(self.has_focus),
    {
        border_color(self.has_focus)
    }

    /// The panel with its focus, and that of its list, set to `focus`.
    pub open spec fn with_focus(self, focus: bool) -> Self {
        QuickOptions { has_focus: focus, options: self.options.with_focus(focus), ..self }
    }

    /// Gives the panel and its list the focus.
    pub fn focus(&mut self)
        ensures
            *final(self) == old(self).with_focus(true),
    {
        self.has_focus = true;
        self.options.focus();
    }

    /// Takes the focus from the panel and its list.
    pub fn unfocus(&mut self)
        ensures
            *final(self) == old(self).with_focus(false),
    {
        self.has_focus = false;
        self.options.unfocus();
    }
}

} // verus!
