//! Typing text into the focused window.  The injector that drives the
//! clipboard, `ydotool`, `xdotool` and enigo runs those programs in the
//! application; the order in which it tries them is decided here, together
//! with the interface and the two injectors that need no outside program.
use vstd::prelude::*;
use crate::text::{chars_of, string_from};

verus! {

/// Something that types text into the focused window.
pub trait TextInjector: Send {
    fn type_text(&mut self, text: &str) -> Result<(), String>;
}

/// The program that puts text on the clipboard.
#[derive(Debug, Clone, Copy, PartialEq, Eq, Structural)]
pub enum ClipboardTool {
    /// `wl-copy`, the Wayland clipboard.
    WlCopy,
    /// `xclip -selection clipboard`, for X11 and XWayland.
    Xclip,
}

/// Which clipboard program to use, given which are installed: `wl-copy`
/// first, then `xclip`; an error when neither is.
pub fn clipboard_tool(wl_copy_available: bool, xclip_available: bool) -> (r: Result<
    ClipboardTool,
    String,
>)
    ensures
        wl_copy_available ==> r == Ok::<ClipboardTool, String>(ClipboardTool::WlCopy),
        !wl_copy_available && xclip_available ==> r == Ok::<ClipboardTool, String>(
            ClipboardTool::Xclip,
        ),
        !wl_copy_available && !xclip_available ==> (r matches Err(e) && e@
            == "no clipboard tool found (install wl-clipboard or xclip)"@),
{
    if wl_copy_available {
        Ok(ClipboardTool::WlCopy)
    } else if xclip_available {
        Ok(ClipboardTool::Xclip)
    } else {
        Err(string_from(chars_of("no clipboard tool found (install wl-clipboard or xclip)").as_slice()))
    }
}

/// The next way to send the paste keystroke (Ctrl+V).
#[derive(Debug, Clone, PartialEq, Eq)]
pub enum PasteAction {
    /// `ydotool key` with the key codes of Ctrl+V.
    YdotoolKey,
    /// `xdotool key --clearmodifiers ctrl+v`.
    XdotoolKey,
    /// No tool sent the keystroke: the paste fails with this message.
    Fail(String),
}

/// The next paste tool to try.  For each tool, `None` means it is not
/// installed, `Some(true)` that it is installed and not yet tried, and
/// `Some(false)` that it ran without success.  `ydotool` comes first, then
/// `xdotool`.
pub fn next_paste_action(ydotool: Option<bool>, xdotool: Option<bool>) -> (a: PasteAction)
    ensures
        ydotool == Some(true) ==> a is YdotoolKey,
        ydotool != Some(true) && xdotool == Some(true) ==> a is XdotoolKey,
        ydotool != Some(true) && xdotool != Some(true) ==> (a matches PasteAction::Fail(m) && m@
            == "no paste-key tool found (install xdotool or ydotool)"@),
{
    if ydotool == Some(true) {
        PasteAction::YdotoolKey
    } else if xdotool == Some(true) {
        PasteAction::XdotoolKey
    } else {
        PasteAction::Fail(string_from(chars_of("no paste-key tool found (install xdotool or ydotool)").as_slice()))
    }
}

/// The next way to type the text.
#[derive(Debug, Clone, PartialEq, Eq)]
pub enum InjectAction {
    /// The text is on the clipboard: paste it; the paste's result is the
    /// result.
    Paste,
    /// Type the text with `ydotool type`.
    YdotoolType,
    /// Type the text with enigo (XTest); its result is the result.
    EnigoType,
    /// Nothing can type the text: fail with this message.
    Fail(String),
}

/// The message when no way of typing text is left.
pub open spec fn no_backend_message() -> Seq<char> {
    "No injection backend available.\nInstall: sudo apt install xclip xdotool"@
}

/// The next way to type the text.  `copied` is the outcome of copying it to
/// the clipboard (`None` when no clipboard program was found); `ydotool_ok`
/// is `None` when `ydotool` is not installed, `Some(true)` when it is and
/// has not yet been tried, `Some(false)` when `ydotool type` ran without
/// success; `enigo_available` says whether enigo could be set up.  The
/// clipboard and paste come first, then `ydotool type`, then enigo.
pub fn next_inject_action(copied: Option<bool>, ydotool_ok: Option<bool>, enigo_available: bool) -> (a:
    InjectAction)
    ensures
        copied == Some(true) ==> a is Paste,
        copied != Some(true) && ydotool_ok == Some(true) ==> a is YdotoolType,
        copied != Some(true) && ydotool_ok != Some(true) && enigo_available ==> a is EnigoType,
        copied != Some(true) && ydotool_ok != Some(true) && !enigo_available ==> (a matches InjectAction::Fail(
            m,
        ) && m@ == no_backend_message()),
{
    if copied == Some(true) {
        InjectAction::Paste
    } else if ydotool_ok == Some(true) {
        InjectAction::YdotoolType
    } else if enigo_available {
        InjectAction::EnigoType
    } else {
        InjectAction::Fail(
            string_from(
                chars_of("No injection backend available.\nInstall: sudo apt install xclip xdotool").as_slice(),
            ),
        )
    }
}

/// An injector that records what it is asked to type.
pub struct MockInjector(pub Vec<String>);

impl TextInjector for MockInjector {
    fn type_text(&mut self, text: &str) -> (r: Result<(), String>)
        ensures
            r is Ok,
            final(self).0@.len() == old(self).0@.len() + 1,
            forall|i: int| 0 <= i < old(self).0@.len() ==> final(self).0@[i] == old(self).0@[i],
            final(self).0@.last()@ == text@,
    {
        self.0.push(string_from(chars_of(text).as_slice()));
        Ok(())
    }
}

/// The injector for Wayland sessions, where typing is not supported.
pub struct WaylandInjectorStub;

impl TextInjector for WaylandInjectorStub {
    fn type_text(&mut self, _text: &str) -> (r: Result<(), String>)
        ensures
            r matches Err(e) && e@ == "Wayland text injection not yet supported"@,
    {
        Err(string_from(chars_of("Wayland text injection not yet supported").as_slice()))
    }
}

} // verus!
