use murmur::tray::{
    menu_command, panel_toggle, tray_event_toggles_panel, tray_labels, tray_menu_layout,
    window_event_response, TrayMenuEntry,
    MenuCommand, PanelToggle, PointerButton, PointerButtonState, TrayIconEventKind,
    WindowEventKind, WindowResponse, MAIN_TRAY_ID, MAIN_WINDOW_LABEL,
};

#[test]
fn menu_ids_map_to_commands() {
    assert_eq!(menu_command("show-panel"), MenuCommand::ShowPanel);
    assert_eq!(menu_command("toggle-recording"), MenuCommand::ToggleRecording);
    assert_eq!(menu_command("quit"), MenuCommand::Quit);
    assert_eq!(menu_command("status"), MenuCommand::Ignore);
    assert_eq!(menu_command("Quit"), MenuCommand::Ignore);
    assert_eq!(menu_command(""), MenuCommand::Ignore);
}

#[test]
fn main_window_hides_instead_of_closing() {
    assert_eq!(MAIN_WINDOW_LABEL, "main");
    assert_eq!(
        window_event_response("main", WindowEventKind::CloseRequested),
        WindowResponse::PreventCloseAndHide
    );
    assert_eq!(window_event_response("main", WindowEventKind::Focused(false)), WindowResponse::Hide);
    assert_eq!(window_event_response("main", WindowEventKind::Focused(true)), WindowResponse::Nothing);
    assert_eq!(window_event_response("main", WindowEventKind::Other), WindowResponse::Nothing);
}

#[test]
fn other_windows_are_left_alone() {
    assert_eq!(
        window_event_response("settings", WindowEventKind::CloseRequested),
        WindowResponse::Nothing
    );
    assert_eq!(window_event_response("settings", WindowEventKind::Focused(false)), WindowResponse::Nothing);
}

#[test]
fn left_release_on_main_tray_toggles() {
    assert_eq!(MAIN_TRAY_ID, "main");
    let left_up = TrayIconEventKind::Click { button: PointerButton::Left, button_state: PointerButtonState::Up };
    assert!(tray_event_toggles_panel("main", left_up));
    assert!(!tray_event_toggles_panel("other", left_up));
    assert!(!tray_event_toggles_panel(
        "main",
        TrayIconEventKind::Click { button: PointerButton::Left, button_state: PointerButtonState::Down }
    ));
    assert!(!tray_event_toggles_panel(
        "main",
        TrayIconEventKind::Click { button: PointerButton::Right, button_state: PointerButtonState::Up }
    ));
    assert!(!tray_event_toggles_panel("main", TrayIconEventKind::Other));
}

#[test]
fn toggling_the_panel_flips_visibility() {
    assert_eq!(panel_toggle(true), PanelToggle::Hide);
    assert_eq!(panel_toggle(false), PanelToggle::ShowAndFocus);
}

#[test]
fn tray_texts_follow_the_recording_state() {
    let idle = tray_labels("Ready", false);
    assert_eq!(idle.status_text, "Voice Input Ready");
    assert_eq!(idle.toggle_text, "Start Listening");
    assert_eq!(idle.tooltip, "Voice Input Ready");

    let recording = tray_labels("Recording", true);
    assert_eq!(recording.status_text, "Voice Input Recording");
    assert_eq!(recording.toggle_text, "Stop And Transcribe");
    assert_eq!(recording.tooltip, "Voice Input: Recording");
}

#[test]
fn initial_menu_matches_ready_labels() {
    let layout = tray_menu_layout();
    assert_eq!(layout.tooltip, "Voice Input");
    let ready = tray_labels("Ready", false);
    let described: Vec<String> = layout
        .entries
        .iter()
        .map(|entry| match entry {
            TrayMenuEntry::Item { id, text, enabled, accelerator } => {
                format!("{id}|{text}|{enabled}|{}", accelerator.clone().unwrap_or_default())
            }
            TrayMenuEntry::Separator => "-".to_string(),
        })
        .collect();
    assert_eq!(
        described,
        vec![
            "status|Voice Input Ready|false|",
            "-",
            "toggle-recording|Start Listening|true|CmdOrControl+D",
            "show-panel|Open Voice Input Panel|true|",
            "-",
            "quit|Quit Voice Input|true|CmdOrControl+Q",
        ]
    );
    match &layout.entries[0] {
        TrayMenuEntry::Item { text, .. } => assert_eq!(text, &ready.status_text),
        TrayMenuEntry::Separator => panic!("expected the status item"),
    }
}
