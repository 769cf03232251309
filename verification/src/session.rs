//! The decisions of the hotkey daemon, as a state machine.
//!
//! The daemon holds the hotkey (F8) to record: a press starts a recording, the
//! release stops it and has it transcribed. X11 reports a held key as a stream
//! of release/press pairs with equal timestamps (autorepeat); such a pair must
//! neither stop nor restart a recording. The caller polls X11, runs the
//! programs, and hands each event here; the session says what to do next.

use vstd::prelude::*;
use crate::HOTKEY_KEYCODE;

verus! {

/// A key event as the daemon sees it: a press or a release of a keycode at an
/// X11 timestamp, or any other event.
#[derive(Debug, Clone, Copy, PartialEq, Eq, Structural)]
pub enum KeyEvent {
    Press { keycode: u8, time: u32 },
    Release { keycode: u8, time: u32 },
    Other,
}

/// What the daemon does next.
#[derive(Debug, Clone, Copy, PartialEq, Eq, Structural)]
pub enum SessionAction {
    /// No event was pending: wait a little and poll again.
    Wait,
    /// The event does not concern the hotkey.
    Ignore,
    /// Start the recorder.
    StartRecording,
    /// The hotkey was pressed while recording: warn, keep recording.
    DuplicatePress,
    /// The hotkey was released: poll the next event and hand it to
    /// `on_release_followup` with this release's keycode and time.
    CheckAutorepeat { keycode: u8, time: u32 },
    /// The release and the next event are an autorepeat pair: both are dropped.
    SkipAutorepeat,
    /// Stop the recorder, then transcribe and inject the text. The polled next
    /// event, if any, is still to be handled.
    FinishRecording,
    /// The hotkey was released while not recording: warn. The polled next
    /// event, if any, is still to be handled.
    ReleaseWithoutRecording,
}

/// An event is about the hotkey when it presses or releases the hotkey's keycode.
pub open spec fn is_hotkey(event: KeyEvent) -> bool {
    match event {
        KeyEvent::Press { keycode, .. } => keycode == HOTKEY_KEYCODE,
        KeyEvent::Release { keycode, .. } => keycode == HOTKEY_KEYCODE,
        KeyEvent::Other => false,
    }
}

/// The state after an event and the action it calls for, from whether a
/// recording is running.
pub open spec fn event_step(recording: bool, event: Option<KeyEvent>) -> (bool, SessionAction) {
    match event {
        None => (recording, SessionAction::Wait),
        Some(KeyEvent::Press { keycode, time }) => {
            if keycode != HOTKEY_KEYCODE {
                (recording, SessionAction::Ignore)
            } else if recording {
                (true, SessionAction::DuplicatePress)
            } else {
                (true, SessionAction::StartRecording)
            }
        },
        Some(KeyEvent::Release { keycode, time }) => {
            if keycode != HOTKEY_KEYCODE {
                (recording, SessionAction::Ignore)
            } else {
                (recording, SessionAction::CheckAutorepeat { keycode, time })
            }
        },
        Some(KeyEvent::Other) => (recording, SessionAction::Ignore),
    }
}

/// Whether `next` presses the released key at the same timestamp as its release.
pub open spec fn is_autorepeat(keycode: u8, time: u32, next: Option<KeyEvent>) -> bool {
    match next {
        Some(KeyEvent::Press { keycode: k, time: t }) => k == keycode && t == time,
        _ => false,
    }
}

/// The state and action once the event after a hotkey release is known.
pub open spec fn followup_step(recording: bool, keycode: u8, time: u32, next: Option<KeyEvent>) -> (
    bool,
    SessionAction,
) {
    if is_autorepeat(keycode, time, next) {
        (recording, SessionAction::SkipAutorepeat)
    } else if recording {
        (false, SessionAction::FinishRecording)
    } else {
        (false, SessionAction::ReleaseWithoutRecording)
    }
}

/// The number of hotkey events among `events`.
pub open spec fn hotkey_count(events: Seq<KeyEvent>) -> nat
    decreases events.len(),
{
    if events.len() == 0 {
        0
    } else {
        hotkey_count(events.drop_last()) + (if is_hotkey(events.last()) {
            1nat
        } else {
            0nat
        })
    }
}

/// The daemon's state: whether a recording is running.
pub struct HotkeySession {
    recording: bool,
}

impl View for HotkeySession {
    type V = bool;

    /// Whether a recording is running.
    closed spec fn view(&self) -> bool {
        self.recording
    }
}

impl HotkeySession {
    /// A session with no recording running.
    pub fn new() -> (s: Self)
        ensures
            !s@,
    {
        HotkeySession { recording: false }
    }

    /// Whether a recording is running.
    pub fn is_recording(&self) -> (r: bool)
        ensures
            r == self@,
    {
        self.recording
    }

    /// Takes the result of polling X11 (`None` when nothing was pending).
    pub fn on_event(&mut self, event: Option<KeyEvent>) -> (a: SessionAction)
        ensures
            (final(self)@, a) == event_step(old(self)@, event),
    {
        match event {
            None => SessionAction::Wait,
            Some(KeyEvent::Press { keycode, time }) => {
                if keycode != HOTKEY_KEYCODE {
                    SessionAction::Ignore
                } else if self.recording {
                    SessionAction::DuplicatePress
                } else {
                    self.recording = true;
                    SessionAction::StartRecording
                }
            },
            Some(KeyEvent::Release { keycode, time }) => {
                if keycode != HOTKEY_KEYCODE {
                    SessionAction::Ignore
                } else {
                    SessionAction::CheckAutorepeat { keycode, time }
                }
            },
            Some(KeyEvent::Other) => SessionAction::Ignore,
        }
    }

    /// Takes the event polled after a hotkey release (`None` when nothing was
    /// pending): an autorepeat pair is dropped; otherwise the release ends the
    /// recording, if one runs.
    pub fn on_release_followup(&mut self, keycode: u8, time: u32, next: Option<KeyEvent>) -> (a:
        SessionAction)
        ensures
            (final(self)@, a) == followup_step(old(self)@, keycode, time, next),
    {
        if is_autorepeat_pair(keycode, time, next) {
            SessionAction::SkipAutorepeat
        } else if self.recording {
            self.recording = false;
            SessionAction::FinishRecording
        } else {
            SessionAction::ReleaseWithoutRecording
        }
    }
}

/// Whether `next` presses the released key at the release's timestamp.
pub fn is_autorepeat_pair(keycode: u8, time: u32, next: Option<KeyEvent>) -> (r: bool)
    ensures
        r == is_autorepeat(keycode, time, next),
{
    match next {
        Some(KeyEvent::Press { keycode: k, time: t }) => k == keycode && t == time,
        _ => false,
    }
}

/// Whether an event presses or releases the hotkey.
pub fn is_hotkey_event(event: KeyEvent) -> (r: bool)
    ensures
        r == is_hotkey(event),
{
    match event {
        KeyEvent::Press { keycode, .. } => keycode == HOTKEY_KEYCODE,
        KeyEvent::Release { keycode, .. } => keycode == HOTKEY_KEYCODE,
        KeyEvent::Other => false,
    }
}

/// How many of the events drained after a recording stops are hotkey events
/// (the autorepeat queued while the key was held).
pub fn count_hotkey_events(events: &Vec<KeyEvent>) -> (r: usize)
    ensures
        r == hotkey_count(events@),
{
    let mut count: usize = 0;
    let mut i: usize = 0;
    while i < events.len()
        invariant
            i <= events.len(),
            count == hotkey_count(events@.take(i as int)),
            count <= i,
        decreases events.len() - i,
    {
        assert(events@.take(i + 1).drop_last() =~= events@.take(i as int));
        if is_hotkey_event(events[i]) {
            count += 1;
        }
        i += 1;
    }
    assert(events@.take(events.len() as int) =~= events@);
    count
}

/// Holding the hotkey from idle and letting it go (with no autorepeat press
/// after the release) starts one recording, then finishes it, and leaves the
/// daemon idle again.
pub proof fn lemma_press_release_round_trip(press_time: u32, release_time: u32, next: Option<KeyEvent>)
    requires
        !is_autorepeat(HOTKEY_KEYCODE, release_time, next),
    ensures
        ({
            let (s1, a1) = event_step(false, Some(KeyEvent::Press { keycode: HOTKEY_KEYCODE, time: press_time }));
            let (s2, a2) = event_step(s1, Some(KeyEvent::Release { keycode: HOTKEY_KEYCODE, time: release_time }));
            let (s3, a3) = followup_step(s2, HOTKEY_KEYCODE, release_time, next);
            &&& a1 == SessionAction::StartRecording
            &&& a2 == (SessionAction::CheckAutorepeat { keycode: HOTKEY_KEYCODE, time: release_time })
            &&& a3 == SessionAction::FinishRecording
            &&& !s3
        }),
{
}

/// A recording is started only from idle: no event starts a second recorder
/// while one runs.
pub proof fn lemma_no_second_recorder(recording: bool, event: Option<KeyEvent>)
    ensures
        event_step(recording, event).1 == SessionAction::StartRecording ==> !recording && event_step(recording, event).0,
        recording ==> event_step(recording, event).0,
{
}

/// An autorepeat release/press pair changes nothing: the recording goes on.
pub proof fn lemma_autorepeat_keeps_recording(recording: bool, time: u32)
    ensures
        followup_step(recording, HOTKEY_KEYCODE, time, Some(KeyEvent::Press { keycode: HOTKEY_KEYCODE, time }))
            == (recording, SessionAction::SkipAutorepeat),
{
}

/// Events that do not concern the hotkey leave the state as it was.
pub proof fn lemma_other_events_keep_state(recording: bool, event: KeyEvent)
    requires
        !is_hotkey(event),
    ensures
        event_step(recording, Some(event)) == (recording, SessionAction::Ignore),
{
}

/// A recording ends only through a release of the hotkey that is not part of
/// an autorepeat pair.
pub proof fn lemma_recording_ends_only_on_real_release(
    recording: bool,
    keycode: u8,
    time: u32,
    next: Option<KeyEvent>,
)
    requires
        recording,
        !followup_step(recording, keycode, time, next).0,
    ensures
        !is_autorepeat(keycode, time, next),
        followup_step(recording, keycode, time, next).1 == SessionAction::FinishRecording,
{
}

/// A step of finishing a recording once the hotkey is released.
#[derive(Debug, Clone, Copy, PartialEq, Eq, Structural)]
pub enum FinishStep {
    /// Stop the recorder and move its file to the final path.
    StopRecorder,
    /// Drain the events queued while the key was held.
    DrainQueue,
    /// Delete old recordings beyond the history limit from the recording's
    /// directory (nothing to do when the path has no directory).
    PruneRecordings,
    /// Have the recording transcribed.
    Transcribe,
    /// Write the transcript beside the recording.
    WriteTranscript,
    /// Paste the transcript into the focused window.
    InjectText,
}

/// What follows a step of finishing a recording.
#[derive(Debug, Clone, Copy, PartialEq, Eq, Structural)]
pub enum FinishDecision {
    /// Run this step next.
    Run(FinishStep),
    /// The recording is finished; go back to listening.
    Done,
    /// The transcription failed: report it and go back to listening.
    TranscriptionFailed,
    /// The step failed: the daemon stops with its error.
    Abort,
}

/// The order of the steps, and the error policy: a failed transcription is
/// reported and the daemon goes on; any other failed step stops the daemon.
pub open spec fn finish_next(step: FinishStep, succeeded: bool) -> FinishDecision {
    if !succeeded {
        if step == FinishStep::Transcribe {
            FinishDecision::TranscriptionFailed
        } else {
            FinishDecision::Abort
        }
    } else {
        match step {
            FinishStep::StopRecorder => FinishDecision::Run(FinishStep::DrainQueue),
            FinishStep::DrainQueue => FinishDecision::Run(FinishStep::PruneRecordings),
            FinishStep::PruneRecordings => FinishDecision::Run(FinishStep::Transcribe),
            FinishStep::Transcribe => FinishDecision::Run(FinishStep::WriteTranscript),
            FinishStep::WriteTranscript => FinishDecision::Run(FinishStep::InjectText),
            FinishStep::InjectText => FinishDecision::Done,
        }
    }
}

/// The first step of finishing a recording: stopping the recorder.
pub fn first_finish_step() -> (s: FinishStep)
    ensures
        s == FinishStep::StopRecorder,
{
    FinishStep::StopRecorder
}

/// What follows `step`, given whether it succeeded.
pub fn after_finish_step(step: FinishStep, succeeded: bool) -> (d: FinishDecision)
    ensures
        d == finish_next(step, succeeded),
{
    if !succeeded {
        return match step {
            FinishStep::Transcribe => FinishDecision::TranscriptionFailed,
            _ => FinishDecision::Abort,
        };
    }
    match step {
        FinishStep::StopRecorder => FinishDecision::Run(FinishStep::DrainQueue),
        FinishStep::DrainQueue => FinishDecision::Run(FinishStep::PruneRecordings),
        FinishStep::PruneRecordings => FinishDecision::Run(FinishStep::Transcribe),
        FinishStep::Transcribe => FinishDecision::Run(FinishStep::WriteTranscript),
        FinishStep::WriteTranscript => FinishDecision::Run(FinishStep::InjectText),
        FinishStep::InjectText => FinishDecision::Done,
    }
}

/// When every step succeeds, finishing a recording stops the recorder, drains
/// the queue, prunes, transcribes, writes the transcript and pastes it, in
/// that order, and then the daemon listens again.
pub proof fn lemma_finish_order()
    ensures
        finish_next(FinishStep::StopRecorder, true) == FinishDecision::Run(FinishStep::DrainQueue),
        finish_next(FinishStep::DrainQueue, true) == FinishDecision::Run(FinishStep::PruneRecordings),
        finish_next(FinishStep::PruneRecordings, true) == FinishDecision::Run(FinishStep::Transcribe),
        finish_next(FinishStep::Transcribe, true) == FinishDecision::Run(FinishStep::WriteTranscript),
        finish_next(FinishStep::WriteTranscript, true) == FinishDecision::Run(FinishStep::InjectText),
        finish_next(FinishStep::InjectText, true) == FinishDecision::Done,
{
}

/// Text is pasted only once the transcription has succeeded and its transcript
/// has been written: the only way to the paste step is a written transcript,
/// and the only way to writing it is a successful transcription.
pub proof fn lemma_paste_only_after_transcript(step: FinishStep, succeeded: bool)
    ensures
        finish_next(step, succeeded) == FinishDecision::Run(FinishStep::InjectText) ==> step
            == FinishStep::WriteTranscript && succeeded,
        finish_next(step, succeeded) == FinishDecision::Run(FinishStep::WriteTranscript) ==> step
            == FinishStep::Transcribe && succeeded,
{
}

/// A failed transcription never stops the daemon; a failure of any other step
/// always does.
pub proof fn lemma_finish_error_policy(step: FinishStep)
    ensures
        step == FinishStep::Transcribe ==> finish_next(step, false) == FinishDecision::TranscriptionFailed,
        step != FinishStep::Transcribe ==> finish_next(step, false) == FinishDecision::Abort,
{
}

} // verus!
