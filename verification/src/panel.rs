//! Text and paste decisions of the dictation panel.
use vstd::prelude::*;
use crate::number::{all_digits, digits_value, lemma_two_digits, decimal, format_u64_padded, parse_hex_spec, parse_hex_u64, parse_u64, parse_unsigned, zero_pad};
use crate::text::{
    chars_of, contains_sub, copy_range, extend_chars, find_sub_exec, lowercase, starts_with,
    starts_with_exec, string_from, to_lowercase_chars,
};

use crate::config::{Config, PanelMode};
use crate::history::HistoryEntry;

verus! {

/// What is appended to the panel's text for a new segment: the segment,
/// with a space before it when the text does not end in one and the
/// segment does not start with one.
pub open spec fn space_join_spec(existing: Seq<char>, seg: Seq<char>) -> Seq<char> {
    if existing.len() > 0 && existing.last() != ' ' && !(seg.len() > 0 && seg[0] == ' ') {
        seq![' '] + seg
    } else {
        seg
    }
}

/// The text to append for segment `seg` after `existing`.
pub fn space_join(existing: &str, seg: &str) -> (out: String)
    ensures
        out@ == space_join_spec(existing@, seg@),
{
    let e = chars_of(existing);
    let s = chars_of(seg);
    if e.len() > 0 && e[e.len() - 1] != ' ' && !(s.len() > 0 && s[0] == ' ') {
        let mut v: Vec<char> = Vec::new();
        v.push(' ');
        extend_chars(&mut v, s.as_slice());
        string_from(v.as_slice())
    } else {
        string_from(s.as_slice())
    }
}

/// Window classes of terminal emulators, which paste with Ctrl+Shift+V.
pub open spec fn terminal_names() -> Seq<Seq<char>> {
    seq![
        "gnome-terminal"@, "konsole"@, "xterm"@, "alacritty"@, "kitty"@, "urxvt"@, "rxvt"@,
        "terminator"@, "tilix"@, "foot"@, "wezterm"@, "guake"@, "yakuake"@, "termite"@,
        "xfce4-terminal"@, "mate-terminal"@, "lxterminal"@, "deepin-terminal"@, "qterminal"@,
        "blackbox"@, "ptyxis"@, "ghostty"@,
    ]
}

fn terminal_names_exec() -> (v: Vec<Vec<char>>)
    ensures
        v@.len() == terminal_names().len(),
        forall|i: int| 0 <= i < v@.len() ==> (#[trigger] v@[i])@ == terminal_names()[i],
{
    let names: [&str; 22] = [
        "gnome-terminal", "konsole", "xterm", "alacritty", "kitty", "urxvt", "rxvt",
        "terminator", "tilix", "foot", "wezterm", "guake", "yakuake", "termite",
        "xfce4-terminal", "mate-terminal", "lxterminal", "deepin-terminal", "qterminal",
        "blackbox", "ptyxis", "ghostty",
    ];
    let mut v: Vec<Vec<char>> = Vec::new();
    let mut i: usize = 0;
    while i < 22
        invariant
            i <= 22,
            names@ == seq![
                "gnome-terminal", "konsole", "xterm", "alacritty", "kitty", "urxvt", "rxvt",
                "terminator", "tilix", "foot", "wezterm", "guake", "yakuake", "termite",
                "xfce4-terminal", "mate-terminal", "lxterminal", "deepin-terminal", "qterminal",
                "blackbox", "ptyxis", "ghostty",
            ],
            v@.len() == i,
            forall|j: int| 0 <= j < i ==> (#[trigger] v@[j])@ == names@[j]@,
        decreases 22 - i,
    {
        v.push(chars_of(names[i]));
        i = i + 1;
    }
    v
}

/// A lowercased window class that names a terminal emulator.
pub open spec fn terminal_class_lower(lc: Seq<char>) -> bool {
    exists|i: int| 0 <= i < terminal_names().len() && contains_sub(lc, #[trigger] terminal_names()[i])
}

/// Whether a lowercased window class names a terminal emulator.
pub fn is_terminal_class_lowercase(lc: &[char]) -> (r: bool)
    ensures
        r == terminal_class_lower(lc@),
{
    let names = terminal_names_exec();
    let mut i: usize = 0;
    while i < names.len()
        invariant
            i <= names@.len(),
            names@.len() == terminal_names().len(),
            forall|j: int| 0 <= j < names@.len() ==> (#[trigger] names@[j])@ == terminal_names()[j],
            forall|j: int| 0 <= j < i ==> !contains_sub(lc@, #[trigger] terminal_names()[j]),
        decreases names@.len() - i,
    {
        if find_sub_exec(lc, names[i].as_slice()).is_some() {
            assert(contains_sub(lc@, terminal_names()[i as int]));
            return true;
        }
        i = i + 1;
    }
    false
}

/// Whether the window class (compared case-insensitively) names a
/// terminal emulator.
pub fn is_terminal_class(class: &str) -> (r: bool)
    ensures
        r == terminal_class_lower(lowercase(class@)),
{
    let lc = to_lowercase_chars(chars_of(class).as_slice());
    is_terminal_class_lowercase(lc.as_slice())
}

/// The paste keystroke for a window of class `class` (`None` when unknown).
pub open spec fn paste_key_spec(class: Option<Seq<char>>) -> Seq<char> {
    match class {
        Some(c) => if terminal_class_lower(lowercase(c)) {
            "ctrl+shift+v"@
        } else {
            "ctrl+v"@
        },
        None => "ctrl+v"@,
    }
}

/// The paste keystroke for the target window: Ctrl+Shift+V for terminal
/// emulators, else Ctrl+V (also when the class is unknown).
pub fn paste_key_for_class(class: Option<&str>) -> (key: &'static str)
    ensures
        key@ == paste_key_spec(
            match class {
                Some(c) => Some(c@),
                None => None,
            },
        ),
        key@ == (match class {
            Some(c) => if terminal_class_lower(lowercase(c@)) {
                "ctrl+shift+v"@
            } else {
                "ctrl+v"@
            },
            None => "ctrl+v"@,
        }),
{
    match class {
        Some(c) => if is_terminal_class(c) {
            "ctrl+shift+v"
        } else {
            "ctrl+v"
        },
        None => "ctrl+v",
    }
}

/// `s` without all leading `0x` prefixes (`str::trim_start_matches`).
pub open spec fn trim_start_0x(s: Seq<char>) -> Seq<char>
    decreases s.len(),
{
    if s.len() >= 2 && s[0] == '0' && s[1] == 'x' {
        trim_start_0x(s.subrange(2, s.len() as int))
    } else {
        s
    }
}

/// An X11 window id: decimal, else hexadecimal with `0x` prefixes removed.
pub open spec fn xid_spec(s: Seq<char>) -> Option<u64> {
    match parse_unsigned(s, u64::MAX as int) {
        Some(v) => Some(v as u64),
        None => match parse_hex_spec(trim_start_0x(s)) {
            Some(v) => Some(v as u64),
            None => None,
        },
    }
}

/// The X11 window id that `xdotool getactivewindow` printed.
pub fn parse_xid(s: &str) -> (r: Option<u64>)
    ensures
        r == xid_spec(s@),
{
    let c = chars_of(s);
    match parse_u64(c.as_slice()) {
        Some(v) => return Some(v),
        None => {},
    }
    let mut i: usize = 0;
    assert(c@.subrange(0, c@.len() as int) =~= c@);
    while i + 1 < c.len() && c[i] == '0' && c[i + 1] == 'x'
        invariant
            i <= c@.len(),
            i % 2 == 0,
            trim_start_0x(s@) == trim_start_0x(c@.subrange(i as int, c@.len() as int)),
            c@ == s@,
        decreases c@.len() - i,
    {
        let ghost r = c@.subrange(i as int, c@.len() as int);
        assert(r.subrange(2, r.len() as int) =~= c@.subrange(i + 2, c@.len() as int));
        i = i + 2;
    }
    proof {
        let r = c@.subrange(i as int, c@.len() as int);
        assert(trim_start_0x(r) == r);
    }
    let rest = copy_range(c.as_slice(), i, c.len());
    parse_hex_u64(rest.as_slice())
}


/// The text that a new recording continues from: when the panel keeps the
/// text already there (window mode with the text focused), that text with
/// a separating space added unless it is empty or ends in one; else
/// nothing.
pub open spec fn base_for_new_recording_spec(existing: Seq<char>, keep: bool) -> Seq<char> {
    if !keep {
        seq![]
    } else if existing.len() > 0 && existing.last() != ' ' {
        existing.push(' ')
    } else {
        existing
    }
}

/// The base text of a new recording; the panel shows it until the first
/// segment arrives.
pub fn base_for_new_recording(existing: &str, keep: bool) -> (out: String)
    ensures
        out@ == base_for_new_recording_spec(existing@, keep),
{
    if !keep {
        return String::new();
    }
    let mut v = chars_of(existing);
    if v.len() > 0 && v[v.len() - 1] != ' ' {
        v.push(' ');
    }
    string_from(v.as_slice())
}

/// The panel text for a live transcript: the base text, then the
/// transcript.
pub fn transcript_text(base: &str, transcript: &str) -> (out: String)
    ensures
        out@ == base@ + transcript@,
{
    let mut v = chars_of(base);
    extend_chars(&mut v, chars_of(transcript).as_slice());
    string_from(v.as_slice())
}

/// The panel text after a streamed segment: the text, then
/// [`space_join`] of text and segment.
pub fn append_segment_text(text: &str, seg: &str) -> (out: String)
    ensures
        out@ == text@ + space_join_spec(text@, seg@),
{
    let joined = space_join(text, seg);
    let mut v = chars_of(text);
    extend_chars(&mut v, chars_of(joined.as_str()).as_slice());
    string_from(v.as_slice())
}

/// The recording timer `MM:SS` after `secs` seconds (minutes grow past 99).
pub open spec fn timer_text_spec(secs: nat) -> Seq<char> {
    zero_pad(decimal(secs / 60), 2) + seq![':'] + zero_pad(decimal(secs % 60), 2)
}

/// The recording timer after `secs` seconds.
pub fn timer_text(secs: u64) -> (out: String)
    ensures
        out@ == timer_text_spec(secs as nat),
        out@ == zero_pad(decimal((secs / 60) as nat), 2) + seq![':'] + zero_pad(
            decimal((secs % 60) as nat),
            2,
        ),
{
    let mut v = format_u64_padded(secs / 60, 2);
    v.push(':');
    extend_chars(&mut v, format_u64_padded(secs % 60, 2).as_slice());
    string_from(v.as_slice())
}

/// The panel shows "processing" for at least this long.
pub const MIN_PROCESSING_MS: u64 = 600;

/// How long the processing state still has to show.
pub open spec fn remaining_processing_spec(elapsed_ms: Option<u64>) -> nat {
    match elapsed_ms {
        Some(e) => if e <= MIN_PROCESSING_MS {
            (MIN_PROCESSING_MS - e) as nat
        } else {
            0
        },
        None => 0,
    }
}

/// Law: the processing state shows for at least 600 ms in all: what is
/// left and what has passed add up to 600 ms until then, and nothing is
/// left afterwards or when processing never started.
pub proof fn lemma_processing_shows_600ms(elapsed_ms: Option<u64>)
    ensures
        elapsed_ms is Some && elapsed_ms->0 <= 600 ==> remaining_processing_spec(elapsed_ms)
            + elapsed_ms->0 == 600,
        elapsed_ms is Some && elapsed_ms->0 > 600 ==> remaining_processing_spec(elapsed_ms) == 0,
        elapsed_ms is None ==> remaining_processing_spec(elapsed_ms) == 0,
{
}

/// How long the processing state still has to show after `elapsed_ms`
/// milliseconds of processing (nothing when processing never started).
pub fn remaining_processing_ms(elapsed_ms: Option<u64>) -> (ms: u64)
    ensures
        ms == remaining_processing_spec(elapsed_ms),
        ms == match elapsed_ms {
            Some(e) => if e <= MIN_PROCESSING_MS {
                (MIN_PROCESSING_MS - e) as u64
            } else {
                0
            },
            None => 0,
        },
{
    match elapsed_ms {
        Some(e) => if e <= MIN_PROCESSING_MS {
            MIN_PROCESSING_MS - e
        } else {
            0
        },
        None => 0,
    }
}

// ───────────────────────────── status and phases ─────────────────────────────

/// What the panel's status line shows.
#[derive(Debug, Clone, Copy, PartialEq, Eq, Structural)]
pub enum PanelStatus {
    Recording,
    PushToTalk,
    Processing,
    Idle,
}

impl PanelStatus {
    /// The text of the status line.
    pub fn label(self) -> (s: &'static str)
        ensures
            s@ == match self {
                PanelStatus::Recording => "● Aufnahme"@,
                PanelStatus::PushToTalk => "● Push-to-Talk"@,
                PanelStatus::Processing => "⏳ Verarbeitung…"@,
                PanelStatus::Idle => "○ Bereit"@,
            },
    {
        match self {
            PanelStatus::Recording => "● Aufnahme",
            PanelStatus::PushToTalk => "● Push-to-Talk",
            PanelStatus::Processing => "⏳ Verarbeitung…",
            PanelStatus::Idle => "○ Bereit",
        }
    }

    /// The style class of the status line; the others are removed.
    pub fn css_class(self) -> (s: &'static str)
        ensures
            s@ == match self {
                PanelStatus::Recording => "status-rec"@,
                PanelStatus::PushToTalk => "status-ptt"@,
                PanelStatus::Processing => "status-proc"@,
                PanelStatus::Idle => "status-idle"@,
            },
    {
        match self {
            PanelStatus::Recording => "status-rec",
            PanelStatus::PushToTalk => "status-ptt",
            PanelStatus::Processing => "status-proc",
            PanelStatus::Idle => "status-idle",
        }
    }
}

/// The phase of the compact (icon mode) panel.
#[derive(Debug, Clone, Copy, PartialEq, Eq, Structural)]
pub enum PillPhase {
    Recording,
    RecordingPtt,
    Processing,
    Done,
}

/// The phase after push-to-talk turns on or off: on means push-to-talk;
/// off returns from push-to-talk to recording and leaves any other phase.
pub fn pill_phase_after_ptt(phase: PillPhase, active: bool) -> (p: PillPhase)
    ensures
        p == if active {
            PillPhase::RecordingPtt
        } else if phase == PillPhase::RecordingPtt {
            PillPhase::Recording
        } else {
            phase
        },
{
    if active {
        PillPhase::RecordingPtt
    } else {
        match phase {
            PillPhase::RecordingPtt => PillPhase::Recording,
            _ => phase,
        }
    }
}

/// The status line while push-to-talk is on or off during a recording.
pub fn status_for_ptt(active: bool) -> (s: PanelStatus)
    ensures
        s == if active {
            PanelStatus::PushToTalk
        } else {
            PanelStatus::Recording
        },
{
    if active {
        PanelStatus::PushToTalk
    } else {
        PanelStatus::Recording
    }
}

/// How the panel lays itself out in a mode.
pub struct ModeLayout {
    pub window_layout_visible: bool,
    pub pill_visible: bool,
    pub default_size: (i32, i32),
    /// The pill starts over in the recording phase.
    pub reset_pill: bool,
}

/// The layout of a mode: the full window at 480 × 260, or the pill at
/// 150 × 40.
pub fn mode_layout(mode: PanelMode) -> (l: ModeLayout)
    ensures
        mode == PanelMode::Window ==> l.window_layout_visible && !l.pill_visible && l.default_size == (480i32, 260i32) && !l.reset_pill,
        mode == PanelMode::Icon ==> !l.window_layout_visible && l.pill_visible && l.default_size == (150i32, 40i32) && l.reset_pill,
{
    match mode {
        PanelMode::Window => ModeLayout { window_layout_visible: true, pill_visible: false, default_size: (480, 260), reset_pill: false },
        PanelMode::Icon => ModeLayout { window_layout_visible: false, pill_visible: true, default_size: (150, 40), reset_pill: true },
    }
}

/// The layout after switching from `current` to `requested`: nothing when
/// the mode does not change.
pub fn apply_mode(current: PanelMode, requested: PanelMode) -> (l: Option<ModeLayout>)
    ensures
        current == requested ==> l is None,
        current != requested ==> (l matches Some(m) && m.pill_visible == (requested == PanelMode::Icon)
            && m.window_layout_visible == (requested == PanelMode::Window)),
{
    if current == requested {
        None
    } else {
        Some(mode_layout(requested))
    }
}

// ───────────────────────────── finishing ─────────────────────────────

/// The toast after a transcription.
pub fn toast_text(auto_paste: bool) -> (s: &'static str)
    ensures
        s@ == if auto_paste {
            "✓ Eingefügt"@
        } else {
            "✓ In Zwischenablage kopiert"@
        },
{
    if auto_paste {
        "✓ Eingefügt"
    } else {
        "✓ In Zwischenablage kopiert"
    }
}

/// What the panel does when a transcription ends.
pub struct FinishPlan {
    /// Hide the pill after the minimum processing time (empty result in
    /// icon mode).
    pub dismiss_pill: bool,
    /// The toast shown, if any.
    pub toast: Option<&'static str>,
    /// Paste into the previous window (else only copy), when there is text.
    pub paste: bool,
    pub copy: bool,
    /// Play the done animation of the pill.
    pub done_animation: bool,
    /// Record the text in the history.
    pub save_to_history: bool,
    /// The armed auto-paste is used up.
    pub disarm_auto_paste: bool,
}

/// The end of a transcription with the text `text_empty` tells about, in
/// `mode`, with auto-paste armed or not.  An empty result only dismisses
/// the pill (in icon mode); a text is pasted or copied, shown in a toast,
/// animated in icon mode and saved to the history.
pub fn finish_plan(text_empty: bool, mode: PanelMode, auto_paste: bool) -> (p: FinishPlan)
    ensures
        text_empty ==> p.dismiss_pill == (mode == PanelMode::Icon) && p.toast is None && !p.paste && !p.copy
            && !p.done_animation && !p.save_to_history && !p.disarm_auto_paste,
        !text_empty ==> !p.dismiss_pill && (p.toast matches Some(t) && t@ == (if auto_paste {
            "✓ Eingefügt"@
        } else {
            "✓ In Zwischenablage kopiert"@
        })) && p.paste == auto_paste && p.copy == !auto_paste && p.done_animation == (mode == PanelMode::Icon)
            && p.save_to_history && p.disarm_auto_paste,
{
    let icon = match mode {
        PanelMode::Icon => true,
        PanelMode::Window => false,
    };
    if text_empty {
        FinishPlan { dismiss_pill: icon, toast: None, paste: false, copy: false, done_animation: false, save_to_history: false, disarm_auto_paste: false }
    } else {
        FinishPlan {
            dismiss_pill: false,
            toast: Some(toast_text(auto_paste)),
            paste: auto_paste,
            copy: !auto_paste,
            done_animation: icon,
            save_to_history: true,
            disarm_auto_paste: true,
        }
    }
}

/// The clipboard text put back after an auto-paste: what it held before,
/// or nothing.
pub fn restored_clipboard(previous: Option<String>) -> (s: String)
    ensures
        s@ == match previous {
            Some(t) => t@,
            None => Seq::<char>::empty(),
        },
{
    match previous {
        Some(t) => t,
        None => String::new(),
    }
}

/// The history entry of a finished transcription.
pub fn transcription_entry(text: &str, timestamp: String, config: &Config) -> (e: HistoryEntry)
    ensures
        e.text@ == text@,
        e.timestamp@ == timestamp@,
        e.model@ == config.model@,
        e.language@ == config.language@,
{
    HistoryEntry {
        text: string_from(chars_of(text).as_slice()),
        timestamp,
        model: string_from(chars_of(config.model.as_str()).as_slice()),
        language: string_from(chars_of(config.language.as_str()).as_slice()),
    }
}

/// A lowercased class that contains the name of one of the terminal
/// emulators that paste with Ctrl+Shift+V.
pub open spec fn names_known_terminal(lc: Seq<char>) -> bool {
    ||| contains_sub(lc, "gnome-terminal"@)
    ||| contains_sub(lc, "konsole"@)
    ||| contains_sub(lc, "xterm"@)
    ||| contains_sub(lc, "alacritty"@)
    ||| contains_sub(lc, "kitty"@)
    ||| contains_sub(lc, "urxvt"@)
    ||| contains_sub(lc, "rxvt"@)
    ||| contains_sub(lc, "terminator"@)
    ||| contains_sub(lc, "tilix"@)
    ||| contains_sub(lc, "foot"@)
    ||| contains_sub(lc, "wezterm"@)
    ||| contains_sub(lc, "guake"@)
    ||| contains_sub(lc, "yakuake"@)
    ||| contains_sub(lc, "termite"@)
    ||| contains_sub(lc, "xfce4-terminal"@)
    ||| contains_sub(lc, "mate-terminal"@)
    ||| contains_sub(lc, "lxterminal"@)
    ||| contains_sub(lc, "deepin-terminal"@)
    ||| contains_sub(lc, "qterminal"@)
    ||| contains_sub(lc, "blackbox"@)
    ||| contains_sub(lc, "ptyxis"@)
    ||| contains_sub(lc, "ghostty"@)
}

/// Law: a window is treated as a terminal exactly when its lowercased class
/// contains the name of one of these terminal emulators: gnome-terminal,
/// konsole, xterm, alacritty, kitty, urxvt, rxvt, terminator, tilix, foot,
/// wezterm, guake, yakuake, termite, xfce4-terminal, mate-terminal,
/// lxterminal, deepin-terminal, qterminal, blackbox, ptyxis and ghostty.
/// Such a window gets the paste key Ctrl+Shift+V; every other window, and
/// a window of unknown class, gets Ctrl+V.
pub proof fn lemma_paste_key_for_terminals(class: Seq<char>)
    ensures
        terminal_class_lower(lowercase(class)) <==> names_known_terminal(lowercase(class)),
        names_known_terminal(lowercase(class)) ==> paste_key_spec(Some(class)) == "ctrl+shift+v"@,
        !names_known_terminal(lowercase(class)) ==> paste_key_spec(Some(class)) == "ctrl+v"@,
        paste_key_spec(None) == "ctrl+v"@,
{
    let lc = lowercase(class);
    assert(terminal_names()[0] == "gnome-terminal"@);
    assert(terminal_names()[1] == "konsole"@);
    assert(terminal_names()[2] == "xterm"@);
    assert(terminal_names()[3] == "alacritty"@);
    assert(terminal_names()[4] == "kitty"@);
    assert(terminal_names()[5] == "urxvt"@);
    assert(terminal_names()[6] == "rxvt"@);
    assert(terminal_names()[7] == "terminator"@);
    assert(terminal_names()[8] == "tilix"@);
    assert(terminal_names()[9] == "foot"@);
    assert(terminal_names()[10] == "wezterm"@);
    assert(terminal_names()[11] == "guake"@);
    assert(terminal_names()[12] == "yakuake"@);
    assert(terminal_names()[13] == "termite"@);
    assert(terminal_names()[14] == "xfce4-terminal"@);
    assert(terminal_names()[15] == "mate-terminal"@);
    assert(terminal_names()[16] == "lxterminal"@);
    assert(terminal_names()[17] == "deepin-terminal"@);
    assert(terminal_names()[18] == "qterminal"@);
    assert(terminal_names()[19] == "blackbox"@);
    assert(terminal_names()[20] == "ptyxis"@);
    assert(terminal_names()[21] == "ghostty"@);
    if names_known_terminal(lc) {
        if contains_sub(lc, "gnome-terminal"@) {
            assert(contains_sub(lc, terminal_names()[0]));
        }
        if contains_sub(lc, "konsole"@) {
            assert(contains_sub(lc, terminal_names()[1]));
        }
        if contains_sub(lc, "xterm"@) {
            assert(contains_sub(lc, terminal_names()[2]));
        }
        if contains_sub(lc, "alacritty"@) {
            assert(contains_sub(lc, terminal_names()[3]));
        }
        if contains_sub(lc, "kitty"@) {
            assert(contains_sub(lc, terminal_names()[4]));
        }
        if contains_sub(lc, "urxvt"@) {
            assert(contains_sub(lc, terminal_names()[5]));
        }
        if contains_sub(lc, "rxvt"@) {
            assert(contains_sub(lc, terminal_names()[6]));
        }
        if contains_sub(lc, "terminator"@) {
            assert(contains_sub(lc, terminal_names()[7]));
        }
        if contains_sub(lc, "tilix"@) {
            assert(contains_sub(lc, terminal_names()[8]));
        }
        if contains_sub(lc, "foot"@) {
            assert(contains_sub(lc, terminal_names()[9]));
        }
        if contains_sub(lc, "wezterm"@) {
            assert(contains_sub(lc, terminal_names()[10]));
        }
        if contains_sub(lc, "guake"@) {
            assert(contains_sub(lc, terminal_names()[11]));
        }
        if contains_sub(lc, "yakuake"@) {
            assert(contains_sub(lc, terminal_names()[12]));
        }
        if contains_sub(lc, "termite"@) {
            assert(contains_sub(lc, terminal_names()[13]));
        }
        if contains_sub(lc, "xfce4-terminal"@) {
            assert(contains_sub(lc, terminal_names()[14]));
        }
        if contains_sub(lc, "mate-terminal"@) {
            assert(contains_sub(lc, terminal_names()[15]));
        }
        if contains_sub(lc, "lxterminal"@) {
            assert(contains_sub(lc, terminal_names()[16]));
        }
        if contains_sub(lc, "deepin-terminal"@) {
            assert(contains_sub(lc, terminal_names()[17]));
        }
        if contains_sub(lc, "qterminal"@) {
            assert(contains_sub(lc, terminal_names()[18]));
        }
        if contains_sub(lc, "blackbox"@) {
            assert(contains_sub(lc, terminal_names()[19]));
        }
        if contains_sub(lc, "ptyxis"@) {
            assert(contains_sub(lc, terminal_names()[20]));
        }
        if contains_sub(lc, "ghostty"@) {
            assert(contains_sub(lc, terminal_names()[21]));
        }
    }
}

/// Law: below 100 minutes the timer reads `MM:SS`: two digits worth the
/// whole minutes, a colon, and two digits worth the seconds left over.
pub proof fn lemma_timer_text(secs: nat)
    requires
        secs < 6000,
    ensures
        timer_text_spec(secs).len() == 5,
        timer_text_spec(secs)[2] == ':',
        all_digits(timer_text_spec(secs).take(2)),
        digits_value(timer_text_spec(secs).take(2)) == secs / 60,
        all_digits(timer_text_spec(secs).subrange(3, 5)),
        digits_value(timer_text_spec(secs).subrange(3, 5)) == secs % 60,
{
    lemma_two_digits(secs / 60);
    lemma_two_digits(secs % 60);
    let t = timer_text_spec(secs);
    assert(t.take(2) =~= zero_pad(decimal(secs / 60), 2));
    assert(t.subrange(3, 5) =~= zero_pad(decimal(secs % 60), 2));
}

/// Law: appending a segment keeps the text, ends with the segment, and
/// adds at most one space; after it the old text and the segment are
/// separated by a space whenever both are non-empty.
pub proof fn lemma_segment_spacing(existing: Seq<char>, seg: Seq<char>)
    ensures
        ({
            let r = existing + space_join_spec(existing, seg);
            &&& r.take(existing.len() as int) == existing
            &&& r.subrange(r.len() - seg.len(), r.len() as int) == seg
            &&& r.len() <= existing.len() + seg.len() + 1
            &&& (existing.len() > 0 && seg.len() > 0 ==> r[existing.len() - 1] == ' ' || r[existing.len() as int] == ' ')
            &&& (existing.len() == 0 || existing.last() == ' ' ==> r == existing + seg)
        }),
{
    let r = existing + space_join_spec(existing, seg);
    assert(r.take(existing.len() as int) =~= existing);
    assert(r.subrange(r.len() - seg.len(), r.len() as int) =~= seg);
}

/// Law: a new recording starts from nothing unless the text is kept; a
/// kept text stays as it is, followed by exactly one separating space
/// unless it is empty or already ends in one.
pub proof fn lemma_new_recording_base(existing: Seq<char>, keep: bool)
    ensures
        !keep ==> base_for_new_recording_spec(existing, keep).len() == 0,
        keep ==> base_for_new_recording_spec(existing, keep).take(existing.len() as int) == existing,
        keep && existing.len() > 0 && existing.last() != ' ' ==> base_for_new_recording_spec(
            existing,
            keep,
        ) == existing + seq![' '],
        keep && (existing.len() == 0 || existing.last() == ' ') ==> base_for_new_recording_spec(
            existing,
            keep,
        ) == existing,
{
    if keep {
        assert(base_for_new_recording_spec(existing, keep).take(existing.len() as int) =~= existing);
        assert(existing.push(' ') =~= existing + seq![' ']);
    }
}

} // verus!
