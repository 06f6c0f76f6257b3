//! A one-line text field.

use crate::action::{Action, KeyCode, KeyEvent};
use crate::style::{border_color, border_for, Color};
use crate::text::{pop_char, push_char};
use vstd::prelude::*;

verus! {

/// The text typed so far, with what to show while it is empty.
#[derive(Debug)]
pub struct TextInput {
    pub text: String,
    pub placeholder: String,
    pub title: String,
    pub listening: bool,
    pub focused: bool,
}

/// The text after one key: a character is appended, backspace removes the
/// last one, every other key leaves it.
pub open spec fn text_after(text: Seq<char>, code: KeyCode) -> Seq<char> {
    match code {
        KeyCode::Char(c) => text.push(c),
        KeyCode::Backspace => if text.len() > 0 {
            text.drop_last()
        } else {
            text
        },
        _ => text,
    }
}

impl TextInput {
    /// An empty field without placeholder, title or focus.
    pub fn new() -> (t: Self)
        ensures
            t.text@ == Seq::<char>::empty(),
            t.placeholder@ == Seq::<char>::empty(),
            t.title@ == Seq::<char>::empty(),
            !t.focused,
            !t.listening,
    {
        Self {
            text: String::new(),
            placeholder: String::new(),
            title: String::new(),
            listening: false,
            focused: false,
        }
    }

    /// A field with the given text, placeholder and title, without focus.
    pub fn from(text: String, placeholder: String, title: String) -> (t: Self)
        ensures
            t.text == text,
            t.placeholder == placeholder,
            t.title == title,
            !t.focused,
            !t.listening,
    {
        Self { text, placeholder, title, listening: false, focused: false }
    }

    /// Handles one key: a character is appended to the text, backspace
    /// removes the last character if there is one. Nothing else changes and
    /// no action follows.
    pub fn handle_key_event(&mut self, key: KeyEvent) -> (next: Option<Action>)
        ensures
            next is None,
            final(self).text@ == text_after(old(self).text@, key.code),
            final(self).placeholder == old(self).placeholder,
            final(self).title == old(self).title,
            final(self).focused == old(self).focused,
            final(self).listening == old(self).listening,
    {
        match key.code {
            KeyCode::Char(c) => {
                push_char(&mut self.text, c);
            },
            KeyCode::Backspace => {
                let _ = pop_char(&mut self.text);
            },
            _ => {},
        }
        None
    }

    /// The field with its focus set to `focus` and nothing else changed.
    pub open spec fn with_focus(self, focus: bool) -> Self {
        TextInput { focused: focus, ..self }
    }

    /// Gives the field the focus.
    pub fn focus(&mut self)
        ensures
            *final(self) == old(self).with_focus(true),
    {
        self.focused = true
    }

    /// Takes the focus from the field.
    pub fn unfocus(&mut self)
        ensures
            *final(self) == old(self).with_focus(false),
    {
        self.focused = false
    }

    /// Whether the field has the focus.
    pub fn has_focus(&self) -> (f: bool)
        ensures
            f == self.focused,
    {
        self.focused
    }

    /// Whether the placeholder is shown in place of the text: exactly when
    /// the text is empty.
    pub fn shows_placeholder(&self) -> (p: bool)
        ensures
            p == (self.text@.len() == 0),
    {
        self.text.as_str().is_empty()
    }

    /// What the field shows: the placeholder while the text is empty, else
    /// the text.
    pub fn shown_text(&self) -> (s: String)
        ensures
            s@ == if self.text@.len() == 0 {
                self.placeholder@
            } else {
                self.text@
            },
    {
        if self.text.as_str().is_empty() {
            self.placeholder.clone()
        } else {
            self.text.clone()
        }
    }

    /// The colour of the shown text: gray for the placeholder, none for
    /// typed text.
    pub fn text_color(&self) -> (c: Option<Color>)
        ensures
            c == if self.text@.len() == 0 {
                Some(Color::Gray)
            } else {
                None
            },
    {
        if self.text.as_str().is_empty() {
            Some(Color::Gray)
        } else {
            None
        }
    }

    /// The colour of the border: light cyan with the focus, white without.
    pub fn border(&self) -> (c: Color)
        ensures
            c == border_for(self.focused),
    {
        border_color(self.focused)
    }
}

} // verus!
