//! A scrollable list with one selected row.

use crate::action::{KeyCode, KeyEvent};
use crate::style::{border_color, border_for, Color, Style};
use vstd::prelude::*;
use vstd::string::StringExecFns;

verus! {

/// How many rows lie above the selected one before the list scrolls.
pub const WINDOW: usize = 5;

/// What a selector tells its owner.
#[derive(Clone, Copy, Debug, PartialEq, Eq, Structural)]
pub enum Actions {
    /// The row with this index was confirmed.
    Selected(usize),
}

/// A piece of text with its style.
#[derive(Debug)]
pub struct OptionSelectorText {
    pub text: String,
    pub style: Style,
}

/// A span as a value: its characters and its style.
pub struct SpanView {
    pub text: Seq<char>,
    pub style: Style,
}

impl View for OptionSelectorText {
    type V = SpanView;

    open spec fn view(&self) -> SpanView {
        SpanView { text: self.text@, style: self.style }
    }
}

impl Clone for OptionSelectorText {
    fn clone(&self) -> (r: Self)
        ensures
            r@ == self@,
    {
        OptionSelectorText { text: self.text.clone(), style: self.style }
    }
}

impl OptionSelectorText {
    /// The text `text` in the style `style`.
    pub fn new(text: String, style: Style) -> (t: Self)
        ensures
            t.text == text,
            t.style == style,
    {
        Self { text, style }
    }
}

/// The spans of one row, as values.
pub open spec fn row_view(row: Seq<OptionSelectorText>) -> Seq<SpanView> {
    Seq::new(row.len(), |j: int| row[j]@)
}

/// A row of one plain span with the text `label`.
pub fn plain_row(label: &str) -> (row: Vec<OptionSelectorText>)
    ensures
        row_view(row@) == seq![SpanView { text: label@, style: Style::plain() }],
{
    let mut row: Vec<OptionSelectorText> = Vec::new();
    row.push(OptionSelectorText::new(String::from_str(label), Style::new()));
    assert(row_view(row@) =~= seq![SpanView { text: label@, style: Style::plain() }]);
    row
}

/// The rows of a list, as values.
pub open spec fn rows_view(rows: Seq<Vec<OptionSelectorText>>) -> Seq<Seq<SpanView>> {
    Seq::new(rows.len(), |i: int| row_view(rows[i]@))
}

/// `i` stands for a row of a list of `len` rows; in an empty list only 0 does.
pub open spec fn in_range(i: int, len: int) -> bool {
    if len == 0 {
        i == 0
    } else {
        0 <= i < len
    }
}

/// The index nearest to `i` that stands for a row of a list of `len` rows.
pub open spec fn clamped(i: int, len: int) -> int {
    if len <= 0 || i < 0 {
        0
    } else if i >= len {
        len - 1
    } else {
        i
    }
}

/// The selection after one key: up and down move it by one row and stop at
/// the ends of the list, every other key leaves it.
pub open spec fn next_selection(selected: int, len: int, code: KeyCode) -> int {
    match code {
        KeyCode::Up => clamped(selected - 1, len),
        KeyCode::Down => clamped(selected + 1, len),
        _ => selected,
    }
}

/// The selection after a sequence of keys, first key first.
pub open spec fn selection_after(selected: int, len: int, keys: Seq<KeyCode>) -> int
    decreases keys.len(),
{
    if keys.len() == 0 {
        selected
    } else {
        next_selection(selection_after(selected, len, keys.drop_last()), len, keys.last())
    }
}

/// The scroll offset that goes with a selection: it keeps the selected row
/// within `WINDOW` rows of the top.
pub open spec fn scroll_for(selected: int) -> int {
    if selected > WINDOW {
        selected - WINDOW
    } else {
        0
    }
}

/// A list of rows, one of them selected.
#[derive(Debug)]
pub struct OptionSelector {
    pub options: Vec<Vec<OptionSelectorText>>,
    pub selected: usize,
    pub title: String,
    pub has_focus: bool,
    /// Whether the owner asked to be told of confirmations.
    pub has_local_handler: bool,
    pub scroll_offset: usize,
}

impl Clone for OptionSelector {
    /// A copy that shows the same rows with the same selection, title and
    /// focus. The copy reports to no owner until one registers with it.
    fn clone(&self) -> (r: Self)
        ensures
            rows_view(r.options@) == rows_view(self.options@),
            r.selected == self.selected,
            r.scroll_offset == self.scroll_offset,
            r.title@ == self.title@,
            r.has_focus == self.has_focus,
            !r.has_local_handler,
    {
        let mut rows: Vec<Vec<OptionSelectorText>> = Vec::new();
        let mut i: usize = 0;
        while i < self.options.len()
            invariant
                i <= self.options@.len(),
                rows@.len() == i,
                forall|k: int|
                    0 <= k < i ==> row_view((#[trigger] rows@[k])@) == row_view(
                        self.options@[k]@,
                    ),
            decreases self.options@.len() - i,
        {
            let row = &self.options[i];
            let mut spans: Vec<OptionSelectorText> = Vec::new();
            let mut j: usize = 0;
            while j < row.len()
                invariant
                    j <= row@.len(),
                    spans@.len() == j,
                    forall|k: int| 0 <= k < j ==> (#[trigger] spans@[k])@ == row@[k]@,
                decreases row@.len() - j,
            {
                spans.push(row[j].clone());
                j += 1;
            }
            assert(row_view(spans@) =~= row_view(row@));
            rows.push(spans);
            i += 1;
        }
        assert(rows_view(rows@) =~= rows_view(self.options@));
        OptionSelector {
            options: rows,
            selected: self.selected,
            title: self.title.clone(),
            has_focus: self.has_focus,
            has_local_handler: false,
            scroll_offset: self.scroll_offset,
        }
    }
}

impl OptionSelector {
    /// The selection stands for a row and the offset goes with it.
    pub open spec fn well_formed(&self) -> bool {
        &&& in_range(self.selected as int, self.options@.len() as int)
        &&& self.scroll_offset == scroll_for(self.selected as int)
    }

    /// A selector over `ops` with the first row selected, without focus,
    /// title or handler.
    pub fn new(ops: Vec<Vec<OptionSelectorText>>) -> (s: Self)
        ensures
            s.options == ops,
            s.selected == 0,
            s.scroll_offset == 0,
            s.title@ == Seq::<char>::empty(),
            !s.has_focus,
            !s.has_local_handler,
            s.well_formed(),
    {
        Self {
            options: ops,
            selected: 0,
            title: String::new(),
            has_focus: false,
            has_local_handler: false,
            scroll_offset: 0,
        }
    }

    /// The selector with its focus set to `focus` and nothing else changed.
    pub open spec fn with_focus(self, focus: bool) -> Self {
        OptionSelector { has_focus: focus, ..self }
    }

    /// The selector after one key: up and down move the selection, clamped
    /// to the list, and set the scroll offset to go with it. Nothing else
    /// changes, and no other key changes anything.
    pub open spec fn after_key(self, code: KeyCode) -> Self {
        let selected = next_selection(self.selected as int, self.options@.len() as int, code);
        OptionSelector {
            selected: selected as usize,
            scroll_offset: if code == KeyCode::Up || code == KeyCode::Down {
                scroll_for(selected) as usize
            } else {
                self.scroll_offset
            },
            ..self
        }
    }

    /// What one key makes the selector report: Enter reports the selected
    /// row, if the owner registered for it.
    pub open spec fn notice_for(self, code: KeyCode) -> Option<Actions> {
        if code == KeyCode::Enter && self.has_local_handler {
            Some(Actions::Selected(self.selected))
        } else {
            None
        }
    }

    /// From now on every confirmation is reported to the owner.
    pub fn register_local_action_handler(&mut self)
        ensures
            *final(self) == (OptionSelector { has_local_handler: true, ..*old(self) }),
    {
        self.has_local_handler = true;
    }

    /// Handles one key. Up and down move the selection, clamped to the list,
    /// and set the scroll offset to go with it. Enter reports the selected
    /// row once, if the owner registered for it. Nothing else changes.
    pub fn handle_key_event(&mut self, key: KeyEvent) -> (notice: Option<Actions>)
        ensures
            *final(self) == old(self).after_key(key.code),
            notice == old(self).notice_for(key.code),
            key.code == KeyCode::Up || key.code == KeyCode::Down ==> final(self).well_formed(),
            old(self).well_formed() ==> final(self).well_formed(),
    {
        let len: usize = self.options.len();
        let last: usize = if len == 0 {
            0
        } else {
            len - 1
        };
        match key.code {
            KeyCode::Up => {
                let up: usize = if self.selected == 0 {
                    0
                } else {
                    self.selected - 1
                };
                self.selected = if up > last {
                    last
                } else {
                    up
                };
                self.scroll_offset = Self::offset_for(self.selected);
                None
            },
            KeyCode::Down => {
                self.selected = if self.selected >= last {
                    last
                } else {
                    self.selected + 1
                };
                self.scroll_offset = Self::offset_for(self.selected);
                None
            },
            KeyCode::Enter => {
                if self.has_local_handler {
                    Some(Actions::Selected(self.selected))
                } else {
                    None
                }
            },
            _ => None,
        }
    }

    /// The scroll offset that goes with a selection.
    fn offset_for(selected: usize) -> (offset: usize)
        ensures
            offset == scroll_for(selected as int),
    {
        if selected > WINDOW {
            selected - WINDOW
        } else {
            0
        }
    }

    /// Replaces the rows. A selection beyond the new list moves to its last
    /// row, and the scroll offset follows.
    pub fn set_options(&mut self, ops: Vec<Vec<OptionSelectorText>>)
        ensures
            *final(self) == (OptionSelector {
                options: ops,
                selected: clamped(old(self).selected as int, ops@.len() as int) as usize,
                scroll_offset: scroll_for(
                    clamped(old(self).selected as int, ops@.len() as int),
                ) as usize,
                ..*old(self)
            }),
            final(self).well_formed(),
    {
        let len = ops.len();
        self.options = ops;
        if len == 0 {
            self.selected = 0;
        } else if self.selected >= len {
            self.selected = len - 1;
        }
        self.scroll_offset = Self::offset_for(self.selected);
    }

    /// Selects the first row and scrolls to the top.
    pub fn reset_selection(&mut self)
        ensures
            *final(self) == (OptionSelector { selected: 0, scroll_offset: 0, ..*old(self) }),
            final(self).well_formed(),
    {
        self.selected = 0;
        self.scroll_offset = 0;
    }

    /// Ticks and renders change nothing in a selector.
    pub fn update(&mut self, action: crate::action::Action) -> (next: Option<crate::action::Action>)
        ensures
            *final(self) == *old(self),
            next is None,
    {
        None
    }

    /// Gives the selector the focus.
    pub fn focus(&mut self)
        ensures
            *final(self) == old(self).with_focus(true),
    {
        self.has_focus = true;
    }

    /// Takes the focus from the selector.
    pub fn unfocus(&mut self)
        ensures
            *final(self) == old(self).with_focus(false),
    {
        self.has_focus = false;
    }

    /// The span `j` of row `i` as it is drawn: the first span of the
    /// selected row is highlighted, every other span keeps its style.
    pub open spec fn drawn_span(&self, i: int, j: int) -> SpanView {
        SpanView {
            text: self.options@[i]@[j].text@,
            style: if i == self.selected && j == 0 {
                Style::highlight()
            } else {
                self.options@[i]@[j].style
            },
        }
    }

    /// The rows as they are drawn.
    pub open spec fn drawn_rows(&self) -> Seq<Seq<SpanView>> {
        Seq::new(
            self.options@.len(),
            |i: int| Seq::new(self.options@[i]@.len(), |j: int| self.drawn_span(i, j)),
        )
    }

    /// The rows to draw, top row first.
    pub fn styled_rows(&self) -> (rows: Vec<Vec<OptionSelectorText>>)
        ensures
            rows_view(rows@) == self.drawn_rows(),
    {
        let mut rows: Vec<Vec<OptionSelectorText>> = Vec::new();
        let mut i: usize = 0;
        while i < self.options.len()
            invariant
                i <= self.options@.len(),
                rows@.len() == i,
                forall|k: int| 0 <= k < i ==> row_view(#[trigger] rows@[k]@) == self.drawn_rows()[k],
            decreases self.options@.len() - i,
        {
            let row = &self.options[i];
            let mut spans: Vec<OptionSelectorText> = Vec::new();
            let mut j: usize = 0;
            while j < row.len()
                invariant
                    j <= row@.len(),
                    i < self.options@.len(),
                    row@ == self.options@[i as int]@,
                    spans@.len() == j,
                    forall|k: int| 0 <= k < j ==> (#[trigger] spans@[k])@ == self.drawn_span(i as int, k),
                decreases row@.len() - j,
            {
                let style = if i == self.selected && j == 0 {
                    Style::new().fg(Color::Green).bold()
                } else {
                    row[j].style
                };
                spans.push(OptionSelectorText { text: row[j].text.clone(), style });
                j += 1;
            }
            assert(row_view(spans@) =~= self.drawn_rows()[i as int]);
            rows.push(spans);
            i += 1;
        }
        assert(rows_view(rows@) =~= self.drawn_rows());
        rows
    }

    /// The colour of the border: light cyan with the focus, white without.
    pub fn border(&self) -> (c: Color)
        ensures
            c == border_for(self.has_focus),
    {
        border_color(self.has_focus)
    }

    /// The number of rows scrolled off the top, as the 16 bits a terminal
    /// takes.
    pub fn scroll_rows(&self) -> (rows: u16)
        ensures
            rows == self.scroll_offset % 0x10000,
    {
        (self.scroll_offset % 0x10000) as u16
    }
}

/// After any sequence of keys the selection stands for a row of the list,
/// and in an empty list stays at 0.
pub proof fn lemma_selection_in_range(selected: int, len: int, keys: Seq<KeyCode>)
    requires
        0 <= len,
        in_range(selected, len),
    ensures
        in_range(selection_after(selected, len, keys), len),
    decreases keys.len(),
{
    if keys.len() > 0 {
        lemma_selection_in_range(selected, len, keys.drop_last());
    }
}

/// One up or down move brings any selection into the list, wherever it was.
pub proof fn lemma_move_clamps(selected: int, len: int, code: KeyCode)
    requires
        0 <= len,
        code == KeyCode::Up || code == KeyCode::Down,
    ensures
        in_range(next_selection(selected, len, code), len),
{
}

} // verus!
