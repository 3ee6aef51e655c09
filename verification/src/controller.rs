//! The dictation state machine: what a press and a release of the global
//! shortcut do, in toggle mode and in push-to-talk mode, and what the
//! segments of a transcription do to the panel.  The application performs
//! the actions (starting and stopping the recorder, timers, the panel) and
//! reports back.
use vstd::prelude::*;

verus! {

/// The settings that shortcut handling reads.
#[derive(Debug, Clone, Copy)]
pub struct ShortcutSettings {
    pub push_to_talk_enabled: bool,
    pub push_to_talk_threshold_ms: u32,
    pub auto_paste_toggle: bool,
    pub auto_paste_ptt: bool,
}

/// A push-to-talk timer: after `delay_ms` milliseconds, report hold `hold`.
#[derive(Debug, Clone, Copy, PartialEq, Eq, Structural)]
pub struct PttTimer {
    pub hold: u64,
    pub delay_ms: u32,
}

/// What a press of the shortcut asks for.
#[derive(Debug, Clone, Copy, PartialEq, Eq, Structural)]
pub enum PressAction {
    /// A second press ends the recording (toggle mode).
    StopRecording { auto_paste: bool },
    /// Start recording; with push-to-talk on, call
    /// [`DictationController::on_threshold_elapsed`] when the timer fires.
    StartRecording { ptt_timer: Option<PttTimer> },
    /// No input device to record from.
    NoDevice,
}

/// What a release of the shortcut asks for.
#[derive(Debug, Clone, Copy, PartialEq, Eq, Structural)]
pub enum ReleaseAction {
    /// A held push-to-talk press ends the recording.
    StopRecording { auto_paste: bool },
    /// Nothing: a short press keeps the recording running.
    Nothing,
}

/// The controller's state.
#[derive(Debug, Clone, Copy, PartialEq, Eq, Structural)]
pub struct DictationState {
    /// A recording runs.
    pub recording: bool,
    /// Counts presses and releases; a push-to-talk timer only acts when the
    /// hold it was set for is still the current one.
    pub hold_id: u64,
    /// The current press has been held past the push-to-talk threshold.
    pub ptt_active: bool,
}

pub open spec fn next_hold(h: u64) -> u64 {
    if h == u64::MAX {
        0
    } else {
        (h + 1) as u64
    }
}

/// A press of the shortcut.
pub open spec fn press_spec(st: DictationState, has_device: bool, s: ShortcutSettings) -> (DictationState, PressAction) {
    let hold = next_hold(st.hold_id);
    if st.recording {
        (
            DictationState { recording: false, hold_id: hold, ptt_active: false },
            PressAction::StopRecording { auto_paste: s.auto_paste_toggle },
        )
    } else if has_device {
        (
            DictationState { recording: false, hold_id: hold, ptt_active: false },
            PressAction::StartRecording {
                ptt_timer: if s.push_to_talk_enabled {
                    Some(PttTimer { hold, delay_ms: s.push_to_talk_threshold_ms })
                } else {
                    None
                },
            },
        )
    } else {
        (DictationState { recording: false, hold_id: hold, ptt_active: false }, PressAction::NoDevice)
    }
}

/// The recorder started.
pub open spec fn started_spec(st: DictationState) -> DictationState {
    DictationState { recording: true, ..st }
}

/// A push-to-talk timer set for hold `hold` fired; the panel switches to
/// push-to-talk when the answer is `true`.
pub open spec fn threshold_spec(st: DictationState, hold: u64) -> (DictationState, bool) {
    if st.hold_id == hold && st.recording {
        (DictationState { ptt_active: true, ..st }, true)
    } else {
        (st, false)
    }
}

/// A release of the shortcut.
pub open spec fn release_spec(st: DictationState, s: ShortcutSettings) -> (DictationState, ReleaseAction) {
    let hold = next_hold(st.hold_id);
    if st.ptt_active && st.recording {
        (
            DictationState { recording: false, hold_id: hold, ptt_active: false },
            ReleaseAction::StopRecording { auto_paste: s.auto_paste_ptt },
        )
    } else {
        (DictationState { recording: st.recording, hold_id: hold, ptt_active: false }, ReleaseAction::Nothing)
    }
}

/// Push-to-talk is only active during a recording.
pub open spec fn dictation_inv(st: DictationState) -> bool {
    st.ptt_active ==> st.recording
}

/// Decides what presses and releases of the shortcut do.
pub struct DictationController {
    state: DictationState,
}

impl DictationController {
    pub closed spec fn view_state(&self) -> DictationState {
        self.state
    }

    /// Idle: no recording, no hold.
    pub fn new() -> (c: Self)
        ensures
            c.view_state() == (DictationState { recording: false, hold_id: 0, ptt_active: false }),
    {
        DictationController { state: DictationState { recording: false, hold_id: 0, ptt_active: false } }
    }

    /// Whether a recording runs.
    pub fn is_recording(&self) -> (r: bool)
        ensures
            r == self.view_state().recording,
    {
        self.state.recording
    }

    /// Whether the current press is push-to-talk.
    pub fn ptt_active(&self) -> (r: bool)
        ensures
            r == self.view_state().ptt_active,
    {
        self.state.ptt_active
    }

    fn advance_hold(&mut self)
        ensures
            final(self).view_state() == (DictationState {
                hold_id: next_hold(old(self).view_state().hold_id),
                ..old(self).view_state()
            }),
    {
        self.state.hold_id = self.state.hold_id.wrapping_add(1);
    }

    /// A press of the shortcut: it starts a new hold; during a recording it
    /// stops it (toggle), else it starts one when there is a device.
    pub fn on_press(&mut self, has_device: bool, s: &ShortcutSettings) -> (a: PressAction)
        ensures
            (final(self).view_state(), a) == press_spec(old(self).view_state(), has_device, *s),
    {
        self.advance_hold();
        self.state.ptt_active = false;
        if self.state.recording {
            self.state.recording = false;
            PressAction::StopRecording { auto_paste: s.auto_paste_toggle }
        } else if has_device {
            let timer = if s.push_to_talk_enabled {
                Some(PttTimer { hold: self.state.hold_id, delay_ms: s.push_to_talk_threshold_ms })
            } else {
                None
            };
            PressAction::StartRecording { ptt_timer: timer }
        } else {
            PressAction::NoDevice
        }
    }

    /// The recorder started after a `StartRecording`.
    pub fn recording_started(&mut self)
        ensures
            final(self).view_state() == started_spec(old(self).view_state()),
    {
        self.state.recording = true;
    }

    /// The push-to-talk timer of hold `hold` fired; `true` when the press
    /// is still held and the recording runs, which makes it push-to-talk.
    pub fn on_threshold_elapsed(&mut self, hold: u64) -> (active: bool)
        ensures
            (final(self).view_state(), active) == threshold_spec(old(self).view_state(), hold),
    {
        if self.state.hold_id == hold && self.state.recording {
            self.state.ptt_active = true;
            true
        } else {
            false
        }
    }

    /// A release of the shortcut: it ends the hold; a push-to-talk hold
    /// stops the recording.
    pub fn on_release(&mut self, s: &ShortcutSettings) -> (a: ReleaseAction)
        ensures
            (final(self).view_state(), a) == release_spec(old(self).view_state(), *s),
    {
        self.advance_hold();
        if self.state.ptt_active && self.state.recording {
            self.state.ptt_active = false;
            self.state.recording = false;
            ReleaseAction::StopRecording { auto_paste: s.auto_paste_ptt }
        } else {
            self.state.ptt_active = false;
            ReleaseAction::Nothing
        }
    }
}

/// Law: every step keeps push-to-talk confined to a running recording,
/// and a release always ends push-to-talk.
pub proof fn lemma_dictation_steps_keep_inv(
    st: DictationState,
    has_device: bool,
    s: ShortcutSettings,
    hold: u64,
)
    requires
        dictation_inv(st),
    ensures
        dictation_inv(press_spec(st, has_device, s).0),
        dictation_inv(started_spec(st)),
        dictation_inv(threshold_spec(st, hold).0),
        dictation_inv(release_spec(st, s).0),
        !release_spec(st, s).0.ptt_active,
{
}

/// Law: what a press does, for every state and every setting.  During a
/// recording a press stops it, and the transcript is pasted exactly when
/// the toggle auto-paste setting is on, whatever the push-to-talk setting;
/// without a recording a press starts one when there is a device, with a
/// push-to-talk timer for the new hold exactly when push-to-talk is on,
/// and reports the missing device otherwise.  No press leaves a recording
/// marked as running or a press marked as push-to-talk.
pub proof fn lemma_press_effect(st: DictationState, has_device: bool, s: ShortcutSettings)
    ensures
        st.recording ==> press_spec(st, has_device, s).1 == (PressAction::StopRecording {
            auto_paste: s.auto_paste_toggle,
        }),
        !st.recording && has_device && s.push_to_talk_enabled ==> press_spec(st, has_device, s).1
            == (PressAction::StartRecording {
            ptt_timer: Some(
                PttTimer {
                    hold: press_spec(st, has_device, s).0.hold_id,
                    delay_ms: s.push_to_talk_threshold_ms,
                },
            ),
        }),
        !st.recording && has_device && !s.push_to_talk_enabled ==> press_spec(st, has_device, s).1
            == (PressAction::StartRecording { ptt_timer: None }),
        !st.recording && !has_device ==> press_spec(st, has_device, s).1 == PressAction::NoDevice,
        !press_spec(st, has_device, s).0.recording,
        !press_spec(st, has_device, s).0.ptt_active,
        press_spec(st, has_device, s).0.hold_id != st.hold_id,
{
}

/// Law: what a release does, for every state and every setting: it stops
/// the recording, pasting exactly when the push-to-talk auto-paste setting
/// is on, when and only when the press was held into push-to-talk during a
/// recording; otherwise a running recording keeps running.
pub proof fn lemma_release_effect(st: DictationState, s: ShortcutSettings)
    ensures
        st.ptt_active && st.recording ==> release_spec(st, s).1 == (ReleaseAction::StopRecording {
            auto_paste: s.auto_paste_ptt,
        }) && !release_spec(st, s).0.recording,
        !(st.ptt_active && st.recording) ==> release_spec(st, s).1 == ReleaseAction::Nothing
            && release_spec(st, s).0.recording == st.recording,
{
}

/// Law: a timer of an earlier hold never turns a later press into
/// push-to-talk: after a press starts a recording and the key is released
/// before its timer fires, the timer does nothing and the recording keeps
/// running (toggle mode).
pub proof fn lemma_short_press_toggles(st: DictationState, s: ShortcutSettings)
    requires
        !st.recording,
        s.push_to_talk_enabled,
    ensures
        ({
            let (pressed, action) = press_spec(st, true, s);
            let started = started_spec(pressed);
            let (released, release_action) = release_spec(started, s);
            let hold = match action {
                PressAction::StartRecording { ptt_timer: Some(t) } => t.hold,
                _ => 0,
            };
            let (after, fired) = threshold_spec(released, hold);
            &&& action matches PressAction::StartRecording { ptt_timer: Some(_) }
            &&& release_action == ReleaseAction::Nothing
            &&& !fired
            &&& after.recording
            &&& press_spec(after, true, s).1 == PressAction::StopRecording {
                auto_paste: s.auto_paste_toggle,
            }
        }),
{
}

/// Law: a press held past the threshold is push-to-talk: its release stops
/// the recording, with the auto-paste setting of push-to-talk.
pub proof fn lemma_long_press_is_push_to_talk(st: DictationState, s: ShortcutSettings)
    requires
        !st.recording,
        s.push_to_talk_enabled,
    ensures
        ({
            let (pressed, action) = press_spec(st, true, s);
            let started = started_spec(pressed);
            let hold = match action {
                PressAction::StartRecording { ptt_timer: Some(t) } => t.hold,
                _ => 0,
            };
            let (held, fired) = threshold_spec(started, hold);
            let (released, release_action) = release_spec(held, s);
            &&& fired
            &&& release_action == ReleaseAction::StopRecording { auto_paste: s.auto_paste_ptt }
            &&& !released.recording
        }),
{
}

// ───────────────────────────── segments ─────────────────────────────

/// What arrives from the transcription thread.
pub enum SegmentMessage {
    /// A segment of text.
    Segment(String),
    /// The transcription failed.
    Failed(String),
    /// The thread finished: no more segments.
    Finished,
    /// Nothing yet.
    Empty,
}

/// What the panel does for one message.
pub enum SegmentAction {
    /// The first segment replaces the live preview.
    SetTranscript(String),
    /// Later segments are appended.
    AppendSegment(String),
    /// The transcription failed: finish with no text.
    FinishEmpty,
    /// Finish with the text the panel holds.
    FinishWithPanelText,
    /// Poll again later.
    Wait,
}

/// Routes the segments of one transcription to the panel.
pub struct SegmentFeed {
    first: bool,
}

impl SegmentFeed {
    pub closed spec fn expects_first(&self) -> bool {
        self.first
    }

    /// A feed that waits for the first segment.
    pub fn new() -> (f: Self)
        ensures
            f.expects_first(),
    {
        SegmentFeed { first: true }
    }

    /// One message: the first segment sets the transcript, later ones are
    /// appended; failure and the end of the thread finish the dictation.
    pub fn on_message(&mut self, msg: SegmentMessage) -> (a: SegmentAction)
        ensures
            match msg {
                SegmentMessage::Segment(seg) => if old(self).expects_first() {
                    a matches SegmentAction::SetTranscript(t) && t == seg && !final(self).expects_first()
                } else {
                    a matches SegmentAction::AppendSegment(t) && t == seg && !final(self).expects_first()
                },
                SegmentMessage::Failed(_) => a is FinishEmpty,
                SegmentMessage::Finished => a is FinishWithPanelText,
                SegmentMessage::Empty => a is Wait && final(self).expects_first() == old(
                    self,
                ).expects_first(),
            },
    {
        match msg {
            SegmentMessage::Segment(seg) => {
                if self.first {
                    self.first = false;
                    SegmentAction::SetTranscript(seg)
                } else {
                    SegmentAction::AppendSegment(seg)
                }
            },
            SegmentMessage::Failed(_) => SegmentAction::FinishEmpty,
            SegmentMessage::Finished => SegmentAction::FinishWithPanelText,
            SegmentMessage::Empty => SegmentAction::Wait,
        }
    }
}

// ───────────────────────────── live preview ─────────────────────────────

/// Whether the live preview transcribes the recording again: `count`
/// samples are recorded, `last_len` were at the previous preview, and a new
/// preview needs at least three seconds of new audio at `sample_rate`
/// frames per second of `channels` samples.
pub fn preview_due(count: usize, last_len: usize, sample_rate: u32, channels: u16) -> (r: bool)
    ensures
        r == (count as int >= last_len as int + sample_rate as int * channels as int * 3),
{
    let sr: u64 = sample_rate as u64;
    let ch: u64 = channels as u64;
    assert(sr * ch <= 0xffff_ffff * 0xffff) by (nonlinear_arith)
        requires
            sr <= 0xffff_ffff,
            ch <= 0xffff,
    ;
    let per_second: u64 = sr * ch;
    let min_new: u128 = (per_second as u128) * 3;
    (count as u128) >= (last_len as u128) + min_new
}

} // verus!
