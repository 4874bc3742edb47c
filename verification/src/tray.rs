use vstd::prelude::*;
use vstd::string::*;

use crate::text::{opt_text, str_eq};

verus! {

/// The label of the main window.
pub const MAIN_WINDOW_LABEL: &'static str = "main";

/// The id of the tray icon.
pub const MAIN_TRAY_ID: &'static str = "main";

/// The id of the tray menu item that opens the panel.
pub const TRAY_MENU_SHOW_PANEL: &'static str = "show-panel";

/// The id of the tray menu item that starts or stops recording.
pub const TRAY_MENU_TOGGLE_RECORDING: &'static str = "toggle-recording";

/// The id of the tray menu item that quits the app.
pub const TRAY_MENU_QUIT: &'static str = "quit";

/// The id of the tray menu item that shows the status.
pub const TRAY_MENU_STATUS: &'static str = "status";

/// What a click on a tray menu item asks for.
#[derive(Debug, Clone, Copy, PartialEq, Eq, Structural)]
pub enum MenuCommand {
    ShowPanel,
    ToggleRecording,
    Quit,
    Ignore,
}

/// The command of the menu item with id `menu_id`.
pub open spec fn menu_command_of(menu_id: Seq<char>) -> MenuCommand {
    if menu_id == "show-panel"@ {
        MenuCommand::ShowPanel
    } else if menu_id == "toggle-recording"@ {
        MenuCommand::ToggleRecording
    } else if menu_id == "quit"@ {
        MenuCommand::Quit
    } else {
        MenuCommand::Ignore
    }
}

/// What a click on the tray menu item with id `menu_id` asks for; items
/// other than the panel, recording and quit items do nothing.
pub fn menu_command(menu_id: &str) -> (r: MenuCommand)
    ensures
        r == menu_command_of(menu_id@),
{
    if str_eq(menu_id, TRAY_MENU_SHOW_PANEL) {
        MenuCommand::ShowPanel
    } else if str_eq(menu_id, TRAY_MENU_TOGGLE_RECORDING) {
        MenuCommand::ToggleRecording
    } else if str_eq(menu_id, TRAY_MENU_QUIT) {
        MenuCommand::Quit
    } else {
        MenuCommand::Ignore
    }
}

/// The window events that the app reacts to.
#[derive(Debug, Clone, Copy, PartialEq, Eq, Structural)]
pub enum WindowEventKind {
    /// The user asked to close the window.
    CloseRequested,
    /// The window gained (`true`) or lost (`false`) focus.
    Focused(bool),
    /// Any other event.
    Other,
}

/// What the app does with a window event.
#[derive(Debug, Clone, Copy, PartialEq, Eq, Structural)]
pub enum WindowResponse {
    /// Keep the window from closing, and hide it.
    PreventCloseAndHide,
    /// Hide the window.
    Hide,
    /// Nothing.
    Nothing,
}

/// The response to `event` on the window labelled `window_label`.
pub open spec fn window_response_of(window_label: Seq<char>, event: WindowEventKind) -> WindowResponse {
    if window_label != "main"@ {
        WindowResponse::Nothing
    } else {
        match event {
            WindowEventKind::CloseRequested => WindowResponse::PreventCloseAndHide,
            WindowEventKind::Focused(false) => WindowResponse::Hide,
            _ => WindowResponse::Nothing,
        }
    }
}

/// The main window hides instead of closing, and hides when it loses focus;
/// other windows and events are left alone.
pub fn window_event_response(window_label: &str, event: WindowEventKind) -> (r: WindowResponse)
    ensures
        r == window_response_of(window_label@, event),
{
    if !str_eq(window_label, MAIN_WINDOW_LABEL) {
        return WindowResponse::Nothing;
    }
    match event {
        WindowEventKind::CloseRequested => WindowResponse::PreventCloseAndHide,
        WindowEventKind::Focused(false) => WindowResponse::Hide,
        _ => WindowResponse::Nothing,
    }
}

/// A mouse button.
#[derive(Debug, Clone, Copy, PartialEq, Eq, Structural)]
pub enum PointerButton {
    Left,
    Right,
    Middle,
}

/// Whether a mouse button went down or up.
#[derive(Debug, Clone, Copy, PartialEq, Eq, Structural)]
pub enum PointerButtonState {
    Up,
    Down,
}

/// The tray icon events that the app tells apart.
#[derive(Debug, Clone, Copy, PartialEq, Eq, Structural)]
pub enum TrayIconEventKind {
    /// A click with `button`, which went `button_state`.
    Click { button: PointerButton, button_state: PointerButtonState },
    /// Any other event.
    Other,
}

/// Whether `event` on the tray icon `tray_id` toggles the panel.
pub open spec fn tray_event_toggles(tray_id: Seq<char>, event: TrayIconEventKind) -> bool {
    tray_id == "main"@ && event == (TrayIconEventKind::Click {
        button: PointerButton::Left,
        button_state: PointerButtonState::Up,
    })
}

/// Releasing the left button on the app's tray icon toggles the panel;
/// nothing else does.
pub fn tray_event_toggles_panel(tray_id: &str, event: TrayIconEventKind) -> (r: bool)
    ensures
        r == tray_event_toggles(tray_id@, event),
{
    if !str_eq(tray_id, MAIN_TRAY_ID) {
        return false;
    }
    match event {
        TrayIconEventKind::Click { button: PointerButton::Left, button_state: PointerButtonState::Up } => true,
        _ => false,
    }
}

/// What toggling the panel does.
#[derive(Debug, Clone, Copy, PartialEq, Eq, Structural)]
pub enum PanelToggle {
    Hide,
    ShowAndFocus,
}

/// A visible panel is hidden; a hidden one is shown and focused.
pub fn panel_toggle(visible: bool) -> (r: PanelToggle)
    ensures
        r == (if visible {
            PanelToggle::Hide
        } else {
            PanelToggle::ShowAndFocus
        }),
{
    if visible {
        PanelToggle::Hide
    } else {
        PanelToggle::ShowAndFocus
    }
}

/// The texts of the tray: the status item, the recording item, and the tooltip.
pub struct TrayLabels {
    pub status_text: String,
    pub toggle_text: String,
    pub tooltip: String,
}

/// The status item's text.
pub open spec fn status_text_of(status_label: Seq<char>) -> Seq<char> {
    "Voice Input "@ + status_label
}

/// The recording item's text.
pub open spec fn toggle_text_of(is_recording: bool) -> Seq<char> {
    if is_recording {
        "Stop And Transcribe"@
    } else {
        "Start Listening"@
    }
}

/// The tooltip.
pub open spec fn tooltip_of(status_label: Seq<char>, is_recording: bool) -> Seq<char> {
    if is_recording {
        "Voice Input: "@ + status_label
    } else {
        "Voice Input "@ + status_label
    }
}

/// The tray texts for a status label and recording state.
pub fn tray_labels(status_label: &str, is_recording: bool) -> (r: TrayLabels)
    ensures
        r.status_text@ == status_text_of(status_label@),
        r.toggle_text@ == toggle_text_of(is_recording),
        r.tooltip@ == tooltip_of(status_label@, is_recording),
{
    let status_text = String::from_str("Voice Input ").concat(status_label);
    let toggle_text = if is_recording {
        String::from_str("Stop And Transcribe")
    } else {
        String::from_str("Start Listening")
    };
    let tooltip = if is_recording {
        String::from_str("Voice Input: ").concat(status_label)
    } else {
        String::from_str("Voice Input ").concat(status_label)
    };
    TrayLabels { status_text, toggle_text, tooltip }
}

/// An entry of the tray menu.
pub enum TrayMenuEntry {
    /// A menu item: its id, its text, whether it can be clicked, and its
    /// keyboard shortcut, if any.
    Item { id: String, text: String, enabled: bool, accelerator: Option<String> },
    /// A separator line.
    Separator,
}

/// A tray menu entry, with its texts.
pub enum MenuEntryView {
    Item { id: Seq<char>, text: Seq<char>, enabled: bool, accelerator: Option<Seq<char>> },
    Separator,
}

impl View for TrayMenuEntry {
    type V = MenuEntryView;

    open spec fn view(&self) -> MenuEntryView {
        match self {
            TrayMenuEntry::Item { id, text, enabled, accelerator } => MenuEntryView::Item {
                id: id@,
                text: text@,
                enabled: *enabled,
                accelerator: opt_text(*accelerator),
            },
            TrayMenuEntry::Separator => MenuEntryView::Separator,
        }
    }
}

/// The tray menu when the app starts, and the tray's first tooltip.
pub struct TrayMenuLayout {
    pub entries: Vec<TrayMenuEntry>,
    pub tooltip: String,
}

/// The tray menu when the app starts: the status item, which cannot be
/// clicked, shows the status text for `Ready`; the recording item shows the
/// text for not recording; then the panel item, and the quit item.
pub open spec fn initial_menu_entries() -> Seq<MenuEntryView> {
    seq![
        MenuEntryView::Item {
            id: "status"@,
            text: status_text_of("Ready"@),
            enabled: false,
            accelerator: None,
        },
        MenuEntryView::Separator,
        MenuEntryView::Item {
            id: "toggle-recording"@,
            text: toggle_text_of(false),
            enabled: true,
            accelerator: Some("CmdOrControl+D"@),
        },
        MenuEntryView::Item {
            id: "show-panel"@,
            text: "Open Voice Input Panel"@,
            enabled: true,
            accelerator: None,
        },
        MenuEntryView::Separator,
        MenuEntryView::Item {
            id: "quit"@,
            text: "Quit Voice Input"@,
            enabled: true,
            accelerator: Some("CmdOrControl+Q"@),
        },
    ]
}

/// The tray menu and tooltip that the app starts with. Its status and
/// recording items carry what `tray_labels` gives for status `Ready` when
/// not recording.
pub fn tray_menu_layout() -> (r: TrayMenuLayout)
    ensures
        r.entries@.map_values(|e: TrayMenuEntry| e@) == initial_menu_entries(),
        r.tooltip@ == "Voice Input"@,
{
    let labels = tray_labels("Ready", false);
    let mut entries: Vec<TrayMenuEntry> = Vec::new();
    entries.push(
        TrayMenuEntry::Item {
            id: String::from_str(TRAY_MENU_STATUS),
            text: labels.status_text,
            enabled: false,
            accelerator: None,
        },
    );
    entries.push(TrayMenuEntry::Separator);
    entries.push(
        TrayMenuEntry::Item {
            id: String::from_str(TRAY_MENU_TOGGLE_RECORDING),
            text: labels.toggle_text,
            enabled: true,
            accelerator: Some(String::from_str("CmdOrControl+D")),
        },
    );
    entries.push(
        TrayMenuEntry::Item {
            id: String::from_str(TRAY_MENU_SHOW_PANEL),
            text: String::from_str("Open Voice Input Panel"),
            enabled: true,
            accelerator: None,
        },
    );
    entries.push(TrayMenuEntry::Separator);
    entries.push(
        TrayMenuEntry::Item {
            id: String::from_str(TRAY_MENU_QUIT),
            text: String::from_str("Quit Voice Input"),
            enabled: true,
            accelerator: Some(String::from_str("CmdOrControl+Q")),
        },
    );
    assert(entries@.map_values(|e: TrayMenuEntry| e@) =~= initial_menu_entries());
    TrayMenuLayout { entries, tooltip: String::from_str("Voice Input") }
}

/// Only releasing the left button on the app's tray icon toggles the panel:
/// on the main icon a click toggles it exactly when the button is the left
/// one and it went up; no other button, no press, no other event, and no
/// event on another icon toggles it.
pub proof fn lemma_only_left_release_toggles(
    tray_id: Seq<char>,
    button: PointerButton,
    button_state: PointerButtonState,
)
    ensures
        tray_event_toggles("main"@, TrayIconEventKind::Click { button, button_state }) <==> (
        button == PointerButton::Left && button_state == PointerButtonState::Up),
        !tray_event_toggles(tray_id, TrayIconEventKind::Other),
        tray_id != "main"@ ==> !tray_event_toggles(
            tray_id,
            TrayIconEventKind::Click { button, button_state },
        ),
{
}

/// Each of the three active menu items asks for its own command, and every
/// other id, the status item's among them, asks for nothing.
pub proof fn lemma_menu_ids_map_one_to_one(menu_id: Seq<char>)
    ensures
        menu_command_of("show-panel"@) == MenuCommand::ShowPanel,
        menu_command_of("toggle-recording"@) == MenuCommand::ToggleRecording,
        menu_command_of("quit"@) == MenuCommand::Quit,
        menu_command_of("status"@) == MenuCommand::Ignore,
        (menu_id != "show-panel"@ && menu_id != "toggle-recording"@ && menu_id != "quit"@)
            ==> menu_command_of(menu_id) == MenuCommand::Ignore,
        menu_command_of(menu_id) == MenuCommand::ShowPanel ==> menu_id == "show-panel"@,
        menu_command_of(menu_id) == MenuCommand::ToggleRecording ==> menu_id
            == "toggle-recording"@,
        menu_command_of(menu_id) == MenuCommand::Quit ==> menu_id == "quit"@,
{
    reveal_strlit("show-panel");
    reveal_strlit("toggle-recording");
    reveal_strlit("quit");
    reveal_strlit("status");
    assert("toggle-recording"@ != "show-panel"@) by {
        assert("toggle-recording"@.len() != "show-panel"@.len());
    }
    assert("quit"@ != "show-panel"@) by {
        assert("quit"@.len() != "show-panel"@.len());
    }
    assert("quit"@ != "toggle-recording"@) by {
        assert("quit"@.len() != "toggle-recording"@.len());
    }
    assert("status"@ != "show-panel"@) by {
        assert("status"@.len() != "show-panel"@.len());
    }
    assert("status"@ != "toggle-recording"@) by {
        assert("status"@.len() != "toggle-recording"@.len());
    }
    assert("status"@ != "quit"@) by {
        assert("status"@.len() != "quit"@.len());
    }
}

/// Only the main window reacts: asked to close, it stays open and hides;
/// losing focus, it hides; gaining focus or any other event leaves it alone.
/// Every other window is always left alone.
pub proof fn lemma_main_window_hides_instead_of_closing(window_label: Seq<char>, event: WindowEventKind)
    ensures
        window_response_of("main"@, WindowEventKind::CloseRequested)
            == WindowResponse::PreventCloseAndHide,
        window_response_of("main"@, WindowEventKind::Focused(false)) == WindowResponse::Hide,
        window_response_of("main"@, WindowEventKind::Focused(true)) == WindowResponse::Nothing,
        window_response_of("main"@, WindowEventKind::Other) == WindowResponse::Nothing,
        window_label != "main"@ ==> window_response_of(window_label, event)
            == WindowResponse::Nothing,
{
}

/// The tray texts: the status item reads `Voice Input ` followed by the
/// status label; the tooltip is the same text when not recording and
/// `Voice Input: ` followed by the label while recording; the recording item
/// reads `Start Listening` when idle and `Stop And Transcribe` while recording.
pub proof fn lemma_tray_texts(status_label: Seq<char>)
    ensures
        status_text_of(status_label) == "Voice Input "@ + status_label,
        tooltip_of(status_label, false) == status_text_of(status_label),
        tooltip_of(status_label, true) == "Voice Input: "@ + status_label,
        toggle_text_of(false) == "Start Listening"@,
        toggle_text_of(true) == "Stop And Transcribe"@,
{
}

/// The menu the app starts with, entry by entry: the status item, which
/// cannot be clicked, reads `Voice Input Ready`; after a separator, the
/// recording item reads `Start Listening` with shortcut `CmdOrControl+D`, then
/// `Open Voice Input Panel`; after a separator, `Quit Voice Input` with
/// shortcut `CmdOrControl+Q`.
pub proof fn lemma_initial_menu()
    ensures
        initial_menu_entries() == seq![
            MenuEntryView::Item {
                id: "status"@,
                text: "Voice Input "@ + "Ready"@,
                enabled: false,
                accelerator: None,
            },
            MenuEntryView::Separator,
            MenuEntryView::Item {
                id: "toggle-recording"@,
                text: "Start Listening"@,
                enabled: true,
                accelerator: Some("CmdOrControl+D"@),
            },
            MenuEntryView::Item {
                id: "show-panel"@,
                text: "Open Voice Input Panel"@,
                enabled: true,
                accelerator: None,
            },
            MenuEntryView::Separator,
            MenuEntryView::Item {
                id: "quit"@,
                text: "Quit Voice Input"@,
                enabled: true,
                accelerator: Some("CmdOrControl+Q"@),
            },
        ],
{
}

} // verus!
