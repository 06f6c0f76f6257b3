use balatro_tui::action::{Action, KeyCode, KeyEvent};
use balatro_tui::components::optionselector::{Actions, OptionSelector, OptionSelectorText};
use balatro_tui::style::{Color, Style};

fn rows(n: usize) -> Vec<Vec<OptionSelectorText>> {
    (0..n)
        .map(|i| {
            vec![
                OptionSelectorText::new(format!("row {}", i), Style::new()),
                OptionSelectorText::new(format!("note {}", i), Style::new().fg(Color::Red)),
            ]
        })
        .collect()
}

fn press(selector: &mut OptionSelector, code: KeyCode) -> Option<Actions> {
    selector.handle_key_event(KeyEvent::plain(code))
}

#[test]
fn new_selector_selects_the_first_row() {
    let selector = OptionSelector::new(rows(4));
    assert_eq!(selector.selected, 0);
    assert_eq!(selector.scroll_offset, 0);
    assert_eq!(selector.options.len(), 4);
    assert_eq!(selector.title, "");
    assert!(!selector.has_focus);
    assert!(!selector.has_local_handler);
}

#[test]
fn down_stops_at_the_last_row() {
    let mut selector = OptionSelector::new(rows(3));
    for _ in 0..10 {
        press(&mut selector, KeyCode::Down);
    }
    assert_eq!(selector.selected, 2);
    assert_eq!(selector.scroll_offset, 0);
}

#[test]
fn up_stops_at_the_first_row() {
    let mut selector = OptionSelector::new(rows(3));
    press(&mut selector, KeyCode::Down);
    for _ in 0..5 {
        press(&mut selector, KeyCode::Up);
    }
    assert_eq!(selector.selected, 0);
}

#[test]
fn empty_list_keeps_the_selection_at_zero() {
    let mut selector = OptionSelector::new(Vec::new());
    for code in [KeyCode::Down, KeyCode::Down, KeyCode::Up, KeyCode::Down, KeyCode::Up, KeyCode::Up] {
        press(&mut selector, code);
        assert_eq!(selector.selected, 0);
        assert_eq!(selector.scroll_offset, 0);
    }
}

#[test]
fn selection_stays_in_range_over_a_long_walk() {
    let mut selector = OptionSelector::new(rows(7));
    let walk = [
        KeyCode::Down, KeyCode::Down, KeyCode::Up, KeyCode::Down, KeyCode::Down, KeyCode::Down,
        KeyCode::Down, KeyCode::Down, KeyCode::Down, KeyCode::Down, KeyCode::Up, KeyCode::Up,
        KeyCode::Up, KeyCode::Up, KeyCode::Up, KeyCode::Up, KeyCode::Up, KeyCode::Up,
        KeyCode::Down,
    ];
    for code in walk {
        press(&mut selector, code);
        assert!(selector.selected < 7);
    }
    assert_eq!(selector.selected, 1);
}

#[test]
fn scroll_offset_follows_the_selection_past_the_window() {
    let mut selector = OptionSelector::new(rows(10));
    let mut offsets = Vec::new();
    for _ in 0..9 {
        press(&mut selector, KeyCode::Down);
        offsets.push((selector.selected, selector.scroll_offset));
    }
    assert_eq!(
        offsets,
        vec![(1, 0), (2, 0), (3, 0), (4, 0), (5, 0), (6, 1), (7, 2), (8, 3), (9, 4)]
    );
    press(&mut selector, KeyCode::Up);
    assert_eq!((selector.selected, selector.scroll_offset), (8, 3));
    for _ in 0..3 {
        press(&mut selector, KeyCode::Up);
    }
    assert_eq!((selector.selected, selector.scroll_offset), (5, 0));
}

#[test]
fn a_move_brings_a_stray_selection_back_into_the_list() {
    let mut selector = OptionSelector::new(rows(3));
    selector.selected = 40;
    press(&mut selector, KeyCode::Up);
    assert_eq!(selector.selected, 2);
    selector.selected = usize::MAX;
    press(&mut selector, KeyCode::Down);
    assert_eq!(selector.selected, 2);
    assert_eq!(selector.scroll_offset, 0);
}

#[test]
fn enter_reports_the_selected_row_once_when_registered() {
    let mut selector = OptionSelector::new(rows(3));
    assert_eq!(press(&mut selector, KeyCode::Enter), None);
    selector.register_local_action_handler();
    press(&mut selector, KeyCode::Down);
    assert_eq!(press(&mut selector, KeyCode::Enter), Some(Actions::Selected(1)));
    assert_eq!(selector.selected, 1);
    assert_eq!(press(&mut selector, KeyCode::Down), None);
    assert_eq!(press(&mut selector, KeyCode::Char('x')), None);
    assert_eq!(selector.selected, 2);
}

#[test]
fn other_keys_leave_the_selector_alone() {
    let mut selector = OptionSelector::new(rows(8));
    for _ in 0..7 {
        press(&mut selector, KeyCode::Down);
    }
    for code in [KeyCode::Left, KeyCode::Right, KeyCode::Backspace, KeyCode::Char('j'), KeyCode::Other] {
        assert_eq!(press(&mut selector, code), None);
        assert_eq!((selector.selected, selector.scroll_offset), (7, 2));
    }
}

#[test]
fn set_options_clamps_the_selection() {
    let mut selector = OptionSelector::new(rows(10));
    for _ in 0..8 {
        press(&mut selector, KeyCode::Down);
    }
    selector.set_options(rows(9));
    assert_eq!((selector.selected, selector.scroll_offset), (8, 3));
    selector.set_options(rows(3));
    assert_eq!((selector.selected, selector.scroll_offset), (2, 0));
    selector.set_options(Vec::new());
    assert_eq!((selector.selected, selector.scroll_offset), (0, 0));
}

#[test]
fn reset_selection_goes_back_to_the_top() {
    let mut selector = OptionSelector::new(rows(10));
    for _ in 0..8 {
        press(&mut selector, KeyCode::Down);
    }
    selector.reset_selection();
    assert_eq!((selector.selected, selector.scroll_offset), (0, 0));
}

#[test]
fn styled_rows_highlight_the_first_span_of_the_selected_row() {
    let mut selector = OptionSelector::new(rows(3));
    press(&mut selector, KeyCode::Down);
    let drawn = selector.styled_rows();
    assert_eq!(drawn.len(), 3);
    for (i, row) in drawn.iter().enumerate() {
        assert_eq!(row.len(), 2);
        assert_eq!(row[0].text, format!("row {}", i));
        assert_eq!(row[1].text, format!("note {}", i));
        assert_eq!(row[1].style, Style { fg: Some(Color::Red), bold: false });
    }
    assert_eq!(drawn[0][0].style, Style { fg: None, bold: false });
    assert_eq!(drawn[1][0].style, Style { fg: Some(Color::Green), bold: true });
    assert_eq!(drawn[2][0].style, Style { fg: None, bold: false });
}

#[test]
fn styled_rows_keep_rows_without_spans() {
    let selector = OptionSelector::new(vec![Vec::new(), Vec::new()]);
    let drawn = selector.styled_rows();
    assert_eq!(drawn.len(), 2);
    assert!(drawn[0].is_empty());
    assert!(drawn[1].is_empty());
}

#[test]
fn border_shows_the_focus() {
    let mut selector = OptionSelector::new(rows(1));
    assert_eq!(selector.border(), Color::White);
    selector.focus();
    assert!(selector.has_focus);
    assert_eq!(selector.border(), Color::LightCyan);
    selector.unfocus();
    assert!(!selector.has_focus);
    assert_eq!(selector.border(), Color::White);
}

#[test]
fn scroll_rows_keeps_the_low_sixteen_bits() {
    let mut selector = OptionSelector::new(rows(1));
    selector.scroll_offset = 7;
    assert_eq!(selector.scroll_rows(), 7);
    selector.scroll_offset = 65536 + 9;
    assert_eq!(selector.scroll_rows(), 9);
}

#[test]
fn ticks_change_nothing_in_a_selector() {
    let mut selector = OptionSelector::new(rows(3));
    press(&mut selector, KeyCode::Down);
    assert_eq!(selector.update(Action::Tick), None);
    assert_eq!(selector.update(Action::Render), None);
    assert_eq!(selector.selected, 1);
}

#[test]
fn style_builders_set_colour_and_weight() {
    assert_eq!(Style::new(), Style { fg: None, bold: false });
    assert_eq!(Style::default(), Style { fg: None, bold: false });
    assert_eq!(Style::new().fg(Color::Yellow), Style { fg: Some(Color::Yellow), bold: false });
    assert_eq!(Style::new().bold().fg(Color::Gray), Style { fg: Some(Color::Gray), bold: true });
}

#[test]
fn quit_key_is_control_c_only() {
    assert!(KeyEvent { code: KeyCode::Char('c'), ctrl: true }.is_quit_key());
    assert!(!KeyEvent { code: KeyCode::Char('c'), ctrl: false }.is_quit_key());
    assert!(!KeyEvent { code: KeyCode::Char('q'), ctrl: true }.is_quit_key());
    assert!(!KeyEvent { code: KeyCode::Enter, ctrl: true }.is_quit_key());
    assert!(!KeyEvent::plain(KeyCode::Char('c')).is_quit_key());
}

#[test]
fn a_cloned_selector_shows_the_same_but_reports_to_no_one() {
    let mut selector = OptionSelector::new(rows(9));
    selector.title = "List".to_string();
    selector.register_local_action_handler();
    selector.focus();
    for _ in 0..7 {
        press(&mut selector, KeyCode::Down);
    }
    let mut copy = selector.clone();
    assert_eq!(copy.selected, 7);
    assert_eq!(copy.scroll_offset, 2);
    assert_eq!(copy.title, "List");
    assert!(copy.has_focus);
    assert!(!copy.has_local_handler);
    assert_eq!(copy.options.len(), 9);
    assert_eq!(copy.options[3][0].text, "row 3");
    assert_eq!(copy.options[3][1].style, Style { fg: Some(Color::Red), bold: false });
    assert_eq!(press(&mut copy, KeyCode::Enter), None);
    assert_eq!(press(&mut selector, KeyCode::Enter), Some(Actions::Selected(7)));
}
