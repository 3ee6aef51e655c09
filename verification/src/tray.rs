//! The tray icon: the commands it sends and the menu it shows.  The
//! application registers the icon and turns the menu description into
//! the tray library's items.
use vstd::prelude::*;
use crate::config::PanelMode;
use crate::text::{chars_of, string_from};

verus! {

/// What the tray menu and the panel ask the application to do.
#[derive(Debug, Clone)]
pub enum AppCommand {
    OpenSettings,
    ShowPanel,
    OpenHistory,
    HidePanel,
    SetModel(String),
    SetPanelMode(PanelMode),
    Quit,
}

/// An entry of the tray menu.
pub enum MenuEntry {
    Item { label: &'static str, command: AppCommand },
    Check { label: &'static str, checked: bool, command: AppCommand },
    Submenu { label: &'static str, entries: Vec<MenuEntry> },
    Separator,
}

/// The state the tray shows.
#[derive(Debug, Clone, Copy)]
pub struct TrayState {
    pub recording: bool,
    pub panel_mode: PanelMode,
}

impl TrayState {
    /// The tray's identifier.
    pub fn id(&self) -> (s: &'static str)
        ensures
            s@ == "vooox"@,
    {
        "vooox"
    }

    /// The tooltip title, which tells when a recording runs.
    pub fn title(&self) -> (s: &'static str)
        ensures
            s@ == (if self.recording {
                "vooox — aufnehmen"@
            } else {
                "vooox"@
            }),
    {
        if self.recording {
            "vooox — aufnehmen"
        } else {
            "vooox"
        }
    }

    /// The icon: a microphone, marked while a recording runs.
    pub fn icon_name(&self) -> (s: &'static str)
        ensures
            s@ == (if self.recording {
                "audio-input-microphone-high-symbolic"@
            } else {
                "audio-input-microphone-symbolic"@
            }),
    {
        if self.recording {
            "audio-input-microphone-high-symbolic"
        } else {
            "audio-input-microphone-symbolic"
        }
    }

    /// The menu: settings, the dictation panel, the panel mode with the
    /// current one checked, a separator, and quit.
    pub fn menu(&self) -> (m: Vec<MenuEntry>)
        ensures
            m@.len() == 5,
            m@[0] matches MenuEntry::Item { label, command } && label@ == "Einstellungen"@
                && command is OpenSettings,
            m@[1] matches MenuEntry::Item { label, command } && label@ == "Diktierfenster"@
                && command is ShowPanel,
            m@[2] matches MenuEntry::Submenu { label, entries } && label@ == "Modus"@
                && entries@.len() == 2 && (entries@[0] matches MenuEntry::Check {
                label: l0,
                checked: c0,
                command: AppCommand::SetPanelMode(m0),
            } && l0@ == "Diktierfenster"@ && c0 == (self.panel_mode == PanelMode::Window) && m0
                == PanelMode::Window) && (entries@[1] matches MenuEntry::Check {
                label: l1,
                checked: c1,
                command: AppCommand::SetPanelMode(m1),
            } && l1@ == "Nur Icon"@ && c1 == (self.panel_mode == PanelMode::Icon) && m1
                == PanelMode::Icon),
            m@[3] is Separator,
            m@[4] matches MenuEntry::Item { label, command } && label@ == "Beenden"@
                && command is Quit,
    {
        let mode = self.panel_mode;
        let mut modes: Vec<MenuEntry> = Vec::new();
        modes.push(
            MenuEntry::Check {
                label: "Diktierfenster",
                checked: mode == PanelMode::Window,
                command: AppCommand::SetPanelMode(PanelMode::Window),
            },
        );
        modes.push(
            MenuEntry::Check {
                label: "Nur Icon",
                checked: mode == PanelMode::Icon,
                command: AppCommand::SetPanelMode(PanelMode::Icon),
            },
        );
        let mut m: Vec<MenuEntry> = Vec::new();
        m.push(MenuEntry::Item { label: "Einstellungen", command: AppCommand::OpenSettings });
        m.push(MenuEntry::Item { label: "Diktierfenster", command: AppCommand::ShowPanel });
        m.push(MenuEntry::Submenu { label: "Modus", entries: modes });
        m.push(MenuEntry::Separator);
        m.push(MenuEntry::Item { label: "Beenden", command: AppCommand::Quit });
        m
    }
}

/// The models the model menu offers.
pub fn whisper_models() -> (v: Vec<&'static str>)
    ensures
        v@.len() == 6,
        v@[0]@ == "tiny"@,
        v@[1]@ == "base"@,
        v@[2]@ == "small"@,
        v@[3]@ == "medium"@,
        v@[4]@ == "large-v2"@,
        v@[5]@ == "large-v3"@,
{
    vec!["tiny", "base", "small", "medium", "large-v2", "large-v3"]
}

/// The actions of the panel's menu and the commands they send.
pub fn panel_actions() -> (v: Vec<(&'static str, AppCommand)>)
    ensures
        v@.len() == 4,
        v@[0].0@ == "history"@ && v@[0].1 is OpenHistory,
        v@[1].0@ == "settings"@ && v@[1].1 is OpenSettings,
        v@[2].0@ == "close"@ && v@[2].1 is HidePanel,
        v@[3].0@ == "quit"@ && v@[3].1 is Quit,
{
    let mut v: Vec<(&'static str, AppCommand)> = Vec::new();
    v.push(("history", AppCommand::OpenHistory));
    v.push(("settings", AppCommand::OpenSettings));
    v.push(("close", AppCommand::HidePanel));
    v.push(("quit", AppCommand::Quit));
    v
}

/// The command of the panel menu's mode entry with the value `value`: a
/// known mode name switches to that mode, anything else does nothing.
pub fn mode_action_command(value: &str) -> (r: Option<AppCommand>)
    ensures
        match r {
            Some(c) => c matches AppCommand::SetPanelMode(m) && ((value@ == "window"@ && m == PanelMode::Window)
                || (value@ == "icon"@ && m == PanelMode::Icon)),
            None => value@ != "window"@ && value@ != "icon"@,
        },
{
    match PanelMode::from_str(value) {
        Some(m) => Some(AppCommand::SetPanelMode(m)),
        None => None,
    }
}

} // verus!
