use balatro_tui::action::{Action, KeyCode, KeyEvent};
use balatro_tui::components::quickoptions::{QuickAction, QuickOptions};
use balatro_tui::style::{Color, Style};

fn confirm_row(panel: &mut QuickOptions, row: usize) -> Option<QuickAction> {
    panel.options.reset_selection();
    for _ in 0..row {
        panel.handle_key_event(KeyEvent::plain(KeyCode::Down));
    }
    panel.handle_key_event(KeyEvent::plain(KeyCode::Enter));
    panel.update(Action::Tick)
}

#[test]
fn the_panel_lists_six_options() {
    let panel = QuickOptions::new();
    let labels: Vec<&str> = panel.options.options.iter().map(|row| row[0].text.as_str()).collect();
    assert_eq!(
        labels,
        vec![
            "Launch Balatro",
            "Launch Balatro With Console",
            "Open Balatro data folder",
            "Open Balatro mods folder",
            "Open Balatro-tui data folder",
            "Install/Update Lovely",
        ]
    );
    assert_eq!(panel.options.title, "Quick Options");
    assert!(!panel.launching_balatro);
    assert!(!panel.has_focus);
}

#[test]
fn each_row_has_its_action() {
    assert_eq!(QuickOptions::action_for(0), Some(QuickAction::Launch { disable_console: true }));
    assert_eq!(QuickOptions::action_for(1), Some(QuickAction::Launch { disable_console: false }));
    assert_eq!(QuickOptions::action_for(2), Some(QuickAction::OpenGameFolder));
    assert_eq!(QuickOptions::action_for(3), Some(QuickAction::OpenModsFolder));
    assert_eq!(QuickOptions::action_for(4), Some(QuickAction::OpenDataFolder));
    assert_eq!(QuickOptions::action_for(5), Some(QuickAction::InstallLoader));
    assert_eq!(QuickOptions::action_for(6), None);
    assert_eq!(QuickOptions::action_for(usize::MAX), None);
}

#[test]
fn a_launch_raises_the_overlay_until_a_key_is_pressed() {
    let mut panel = QuickOptions::new();
    assert_eq!(confirm_row(&mut panel, 0), Some(QuickAction::Launch { disable_console: true }));
    assert!(panel.launching_balatro);
    assert!(panel.shows_overlay());
    assert_eq!(panel.update(Action::Tick), None);
    assert!(panel.launching_balatro);
    panel.handle_key_event(KeyEvent::plain(KeyCode::Down));
    assert!(!panel.launching_balatro);
    assert_eq!(panel.options.selected, 0);
    assert_eq!(panel.pending.len(), 0);
}

#[test]
fn the_dismissing_key_is_not_handed_to_the_list() {
    let mut panel = QuickOptions::new();
    confirm_row(&mut panel, 1);
    assert!(panel.launching_balatro);
    panel.handle_key_event(KeyEvent::plain(KeyCode::Enter));
    assert!(!panel.launching_balatro);
    assert_eq!(panel.update(Action::Tick), None);
    panel.handle_key_event(KeyEvent::plain(KeyCode::Enter));
    assert_eq!(panel.update(Action::Tick), Some(QuickAction::Launch { disable_console: false }));
}

#[test]
fn opening_a_folder_raises_no_overlay() {
    let mut panel = QuickOptions::new();
    assert_eq!(confirm_row(&mut panel, 2), Some(QuickAction::OpenGameFolder));
    assert!(!panel.launching_balatro);
    assert_eq!(confirm_row(&mut panel, 3), Some(QuickAction::OpenModsFolder));
    assert_eq!(confirm_row(&mut panel, 4), Some(QuickAction::OpenDataFolder));
    assert_eq!(confirm_row(&mut panel, 5), Some(QuickAction::InstallLoader));
    assert!(!panel.launching_balatro);
}

#[test]
fn actions_wait_for_a_tick() {
    let mut panel = QuickOptions::new();
    panel.handle_key_event(KeyEvent::plain(KeyCode::Enter));
    assert_eq!(panel.update(Action::Render), None);
    assert_eq!(panel.update(Action::Resize(80, 24)), None);
    assert!(!panel.launching_balatro);
    assert_eq!(panel.update(Action::Tick), Some(QuickAction::Launch { disable_console: true }));
}

#[test]
fn overlay_has_two_lines() {
    let panel = QuickOptions::new();
    let lines = panel.overlay_lines();
    assert_eq!(lines.len(), 2);
    assert_eq!(lines[0].text, "Launching Balatro, please wait...");
    assert_eq!(lines[0].style, Style { fg: None, bold: false });
    assert_eq!(lines[1].text, "   (Press any key to continue)");
    assert_eq!(lines[1].style, Style { fg: Some(Color::Gray), bold: false });
}

#[test]
fn quick_border_shows_the_focus() {
    let mut panel = QuickOptions::new();
    assert_eq!(panel.border(), Color::White);
    panel.focus();
    assert!(panel.has_focus && panel.options.has_focus);
    assert_eq!(panel.border(), Color::LightCyan);
    panel.unfocus();
    assert!(!panel.has_focus && !panel.options.has_focus);
}
