//! The panel for authors: it shows which mod the working directory holds.

use crate::action::{Action, KeyEvent};
use crate::components::optionselector::{row_view, OptionSelectorText, SpanView};
use crate::mods::{Mod, ModFolder};
use crate::style::{border_color, border_for, Color, Style};
use crate::text::{join, joined};
use vstd::prelude::*;
use vstd::string::StringExecFns;

verus! {

/// The mod that is being worked on, if the directory holds one.
#[derive(Debug)]
pub struct AuthoringTools {
    pub has_focus: bool,
    /// The path of the directory.
    pub mod_path: String,
    /// The mod found there; its identifier is empty where none was found.
    pub edited_mod: Mod,
}

/// The yellow in which names and paths stand out.
pub open spec fn accent() -> Style {
    Style { fg: Some(Color::Yellow), bold: false }
}

/// The head line of the panel: which mod is edited and by whom, or that the
/// directory holds none.
pub open spec fn head_line(path: Seq<char>, m: crate::mods::ModView) -> Seq<SpanView> {
    if m.id.len() == 0 {
        seq![
            SpanView { text: "No mod was found at "@, style: Style::plain() },
            SpanView { text: path, style: accent() },
            SpanView {
                text: ", sorry! Make sure there is a metadata JSON file in the root of the mod directory."@,
                style: Style::plain(),
            },
        ]
    } else {
        seq![
            SpanView { text: "Currently editing mod "@, style: Style::plain() },
            SpanView { text: m.name, style: accent() },
            SpanView { text: " by "@, style: Style::plain() },
            SpanView { text: joined(m.author, ", "@), style: accent() },
        ]
    }
}

impl AuthoringTools {
    /// The panel for the directory `folder`: it edits the mod that the
    /// directory holds, or a blank one where it holds none or is no
    /// directory.
    pub fn new(folder: &ModFolder) -> (c: Self)
        ensures
            !c.has_focus,
            c.mod_path@ == folder.path@,
            c.edited_mod@ == if folder.is_dir {
                Mod::found_in(*folder)
            } else {
                Mod::blank()
            },
    {
        let edited_mod = match Mod::from_directory(folder) {
            Some(found) => found,
            None => Mod::new(),
        };
        Self { has_focus: false, mod_path: folder.path.clone(), edited_mod }
    }

    /// No key does anything here, and no action follows.
    pub fn handle_key_event(&mut self, key: KeyEvent) -> (next: Option<Action>)
        ensures
            next is None,
            *final(self) == *old(self),
    {
        None
    }

    /// Whether the directory holds a mod.
    pub fn has_mod(&self) -> (found: bool)
        ensures
            found == (self.edited_mod@.id.len() > 0),
    {
        !self.edited_mod.id.as_str().is_empty()
    }

    /// The spans of the head line.
    pub fn header(&self) -> (spans: Vec<OptionSelectorText>)
        ensures
            row_view(spans@) == head_line(self.mod_path@, self.edited_mod@),
    {
        let mut spans: Vec<OptionSelectorText> = Vec::new();
        let yellow = Style::new().fg(Color::Yellow);
        if self.edited_mod.id.as_str().is_empty() {
            spans.push(OptionSelectorText::new(String::from_str("No mod was found at "), Style::new()));
            spans.push(OptionSelectorText::new(self.mod_path.clone(), yellow));
            spans.push(
                OptionSelectorText::new(
                    String::from_str(
                        ", sorry! Make sure there is a metadata JSON file in the root of the mod directory.",
                    ),
                    Style::new(),
                ),
            );
        } else {
            spans.push(
                OptionSelectorText::new(String::from_str("Currently editing mod "), Style::new()),
            );
            spans.push(OptionSelectorText::new(self.edited_mod.name.clone(), yellow));
            spans.push(OptionSelectorText::new(String::from_str(" by "), Style::new()));
            spans.push(OptionSelectorText::new(join(&self.edited_mod.author, ", "), yellow));
        }
        assert(row_view(spans@) =~= head_line(self.mod_path@, self.edited_mod@));
        spans
    }

    /// The title of the head line's frame: where the edited mod lies, and
    /// none where no mod was found.
    pub fn header_title(&self) -> (title: Option<String>)
        ensures
            match title {
                Some(t) => self.edited_mod@.id.len() > 0 && t@ == "Editing mod at "@
                    + self.mod_path@,
                None => self.edited_mod@.id.len() == 0,
            },
    {
        if self.edited_mod.id.as_str().is_empty() {
            None
        } else {
            let mut title = String::from_str("Editing mod at ");
            title.append(self.mod_path.as_str());
            Some(title)
        }
    }

    /// The colour of the border: light cyan with the focus, white without.
    pub fn border(&self) -> (c: Color)
        ensures
            c == border_for(self.has_focus),
    {
        border_color(self.has_focus)
    }

    /// The panel with its focus set to `focus` and nothing else changed.
    pub open spec fn with_focus(self, focus: bool) -> Self {
        AuthoringTools { has_focus: focus, ..self }
    }

    /// Gives the panel the focus.
    pub fn focus(&mut self)
        ensures
            *final(self) == old(self).with_focus(true),
    {
        self.has_focus = true;
    }

    /// Takes the focus from the panel.
    pub fn unfocus(&mut self)
        ensures
            *final(self) == old(self).with_focus(false),
    {
        self.has_focus = false;
    }
}

} // verus!
