//! The user's settings and their defaults.  The TOML file itself is read
//! and written by the application around this library.
use vstd::prelude::*;
use crate::text::{chars_of, concat_lit, extend_chars, is_literal, string_from};

verus! {

/// How the dictation panel shows itself.
#[derive(Debug, Clone, Copy, PartialEq, Eq, Structural)]
pub enum PanelMode {
    Window,
    Icon,
}

impl Default for PanelMode {
    fn default() -> (m: Self)
        ensures
            m == PanelMode::Window,
    {
        PanelMode::Window
    }
}

/// The name a panel mode has in the configuration file.
pub open spec fn panel_mode_name(m: PanelMode) -> Seq<char> {
    match m {
        PanelMode::Window => "window"@,
        PanelMode::Icon => "icon"@,
    }
}

impl PanelMode {
    /// The mode's name in the configuration file.
    pub fn as_str(self) -> (s: &'static str)
        ensures
            s@ == panel_mode_name(self),
    {
        match self {
            PanelMode::Window => "window",
            PanelMode::Icon => "icon",
        }
    }

    /// The mode a name denotes, if any.
    pub fn from_str(s: &str) -> (r: Option<Self>)
        ensures
            r == (if s@ == "window"@ {
                Some(PanelMode::Window)
            } else if s@ == "icon"@ {
                Some(PanelMode::Icon)
            } else {
                None::<PanelMode>
            }),
    {
        let c = chars_of(s);
        if is_literal(c.as_slice(), "window") {
            Some(PanelMode::Window)
        } else if is_literal(c.as_slice(), "icon") {
            Some(PanelMode::Icon)
        } else {
            None
        }
    }
}

/// Law: reading back the name of a panel mode gives the mode.
pub proof fn lemma_panel_mode_roundtrip(m: PanelMode)
    ensures
        (if panel_mode_name(m) == "window"@ {
            Some(PanelMode::Window)
        } else if panel_mode_name(m) == "icon"@ {
            Some(PanelMode::Icon)
        } else {
            None::<PanelMode>
        }) == Some(m),
{
    reveal_strlit("window");
    reveal_strlit("icon");
    assert("window"@[0] != "icon"@[0]);
}

/// The user's settings.
#[derive(Debug, Clone)]
pub struct Config {
    pub shortcut: String,
    pub microphone: Option<String>,
    pub model: String,
    pub language: String,
    pub autostart: bool,
    pub panel_mode: PanelMode,
    pub push_to_talk_enabled: bool,
    pub push_to_talk_threshold_ms: u32,
    pub auto_paste_toggle: bool,
    pub auto_paste_ptt: bool,
}

/// Push-to-talk is on unless the file says otherwise.
pub fn default_ptt_enabled() -> (b: bool)
    ensures
        b,
{
    true
}

/// A press held this long (in milliseconds) counts as push-to-talk.
pub fn default_ptt_threshold_ms() -> (ms: u32)
    ensures
        ms == 500,
{
    500
}

/// The settings used when the file is missing or unreadable.
pub open spec fn is_default_config(c: Config) -> bool {
    &&& c.shortcut@ == "ctrl+shift+space"@
    &&& c.microphone matches Some(m) && m@ == "pulse"@
    &&& c.model@ == "small"@
    &&& c.language@ == "de"@
    &&& !c.autostart
    &&& c.panel_mode == PanelMode::Window
    &&& c.push_to_talk_enabled
    &&& c.push_to_talk_threshold_ms == 500
    &&& !c.auto_paste_toggle
    &&& !c.auto_paste_ptt
}

fn owned(s: &str) -> (out: String)
    ensures
        out@ == s@,
{
    string_from(chars_of(s).as_slice())
}

impl Default for Config {
    fn default() -> (c: Self)
        ensures
            is_default_config(c),
    {
        Config {
            shortcut: owned("ctrl+shift+space"),
            microphone: Some(owned("pulse")),
            model: owned("small"),
            language: owned("de"),
            autostart: false,
            panel_mode: PanelMode::Window,
            push_to_talk_enabled: default_ptt_enabled(),
            push_to_talk_threshold_ms: default_ptt_threshold_ms(),
            auto_paste_toggle: false,
            auto_paste_ptt: false,
        }
    }
}

/// The text of the autostart desktop entry that starts `exe`.
pub open spec fn autostart_entry_spec(exe: Seq<char>) -> Seq<char> {
    "[Desktop Entry]\nType=Application\nName=vooox\nExec="@ + exe
        + "\nHidden=false\nNoDisplay=false\nX-GNOME-Autostart-enabled=true\n"@
}

/// The autostart desktop entry for the program at `exe`.
pub fn autostart_entry(exe: &str) -> (out: String)
    ensures
        out@ == autostart_entry_spec(exe@),
{
    let mut v = chars_of("[Desktop Entry]\nType=Application\nName=vooox\nExec=");
    extend_chars(&mut v, chars_of(exe).as_slice());
    extend_chars(
        &mut v,
        chars_of("\nHidden=false\nNoDisplay=false\nX-GNOME-Autostart-enabled=true\n").as_slice(),
    );
    string_from(v.as_slice())
}

/// What keeping the autostart entry in line with the setting does.
#[derive(Debug, Clone, Copy, PartialEq, Eq, Structural)]
pub enum AutostartAction {
    /// Write the desktop entry.
    Write,
    /// Delete the desktop entry.
    Remove,
    /// Nothing to do.
    Keep,
}

/// What keeping the autostart entry in line with the setting does.
pub open spec fn autostart_action_spec(autostart: bool, entry_exists: bool) -> AutostartAction {
    if autostart {
        AutostartAction::Write
    } else if entry_exists {
        AutostartAction::Remove
    } else {
        AutostartAction::Keep
    }
}

/// Law: with autostart on the entry is always written; with it off it is
/// removed exactly when it exists; it is never written with autostart off
/// nor removed with autostart on.
pub proof fn lemma_autostart_action(autostart: bool, entry_exists: bool)
    ensures
        autostart ==> autostart_action_spec(autostart, entry_exists) == AutostartAction::Write,
        !autostart && entry_exists ==> autostart_action_spec(autostart, entry_exists)
            == AutostartAction::Remove,
        !autostart && !entry_exists ==> autostart_action_spec(autostart, entry_exists)
            == AutostartAction::Keep,
{
}

/// With autostart on the entry is (re)written; with it off an existing
/// entry is removed.
pub fn autostart_action(autostart: bool, entry_exists: bool) -> (a: AutostartAction)
    ensures
        a == autostart_action_spec(autostart, entry_exists),
        a == if autostart {
            AutostartAction::Write
        } else if entry_exists {
            AutostartAction::Remove
        } else {
            AutostartAction::Keep
        },
{
    if autostart {
        AutostartAction::Write
    } else if entry_exists {
        AutostartAction::Remove
    } else {
        AutostartAction::Keep
    }
}

/// Law: the default settings: shortcut Ctrl+Shift+Space, the PulseAudio
/// microphone, the `small` model in German, no autostart, the panel as a
/// window, push-to-talk on after 500 ms, and no automatic paste.
pub proof fn lemma_default_settings(c: Config)
    requires
        is_default_config(c),
    ensures
        c.shortcut@ == "ctrl+shift+space"@,
        c.microphone is Some && c.microphone->0@ == "pulse"@,
        c.model@ == "small"@,
        c.language@ == "de"@,
        !c.autostart,
        c.panel_mode == PanelMode::Window,
        panel_mode_name(c.panel_mode) == "window"@,
        c.push_to_talk_enabled,
        c.push_to_talk_threshold_ms == 500,
        !c.auto_paste_toggle,
        !c.auto_paste_ptt,
{
}

/// Law: the autostart entry is a desktop entry of type Application named
/// vooox that runs `exe` and is enabled for autostart.
pub proof fn lemma_autostart_entry(exe: Seq<char>)
    ensures
        autostart_entry_spec(exe) == "[Desktop Entry]\nType=Application\nName=vooox\nExec="@ + exe
            + "\nHidden=false\nNoDisplay=false\nX-GNOME-Autostart-enabled=true\n"@,
        panel_mode_name(PanelMode::Window) == "window"@,
        panel_mode_name(PanelMode::Icon) == "icon"@,
{
}

} // verus!
