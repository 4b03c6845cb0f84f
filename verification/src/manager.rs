//! The recording manager's decisions.
//!
//! The manager owns the microphone stream, the recorder and, in meeting
//! mode, the system-audio loopback capture. Its state and its decisions are
//! transitions of [`AudioRecordingManager`]; each operation is a sequence of
//! steps, between which the caller does the work with devices, threads,
//! files and the clock that the previous step asked for, and hands the
//! outcome to the next.

use vstd::prelude::*;
use vstd::string::StringExecFns;
use crate::clock::{ClockReading, seconds_between, elapsed_seconds};
use crate::mixer::{mix_samples, mixed_len, sample_at};
use crate::transcript::{
    MeetingSegment, transcript_file_name, transcript_document, transcript_file_name_text,
    transcript_text,
};

verus! {

/// Samples per second of the audio handed to transcription.
pub const WHISPER_SAMPLE_RATE: usize = 16000;

/// The length short recordings are padded to (1.25 s).
pub const PADDED_RECORDING_LEN: usize = 20000;

/// Whether a recording is in progress, and for which shortcut binding.
#[derive(Clone, Debug)]
pub enum RecordingState {
    Idle,
    Recording { binding_id: String },
}

/// Whether the microphone stream stays open between recordings.
#[derive(Clone, Copy, Debug, PartialEq, Eq)]
pub enum MicrophoneMode {
    AlwaysOn,
    OnDemand,
}

/// Why the microphone stream could not be opened.
#[derive(Clone, Debug)]
pub enum StreamError {
    /// No device is configured and none is present at all.
    NoInputDevice,
    /// Creating the recorder (with its voice detector) failed; the message
    /// says why.
    RecorderCreation(String),
    /// The recorder could not open the device.
    RecorderOpen(String),
}

impl StreamError {
    /// The message reported for this error.
    pub fn message(&self) -> (msg: String)
        ensures
            msg@ == (match *self {
                StreamError::NoInputDevice => "No input device found"@,
                StreamError::RecorderCreation(e) => e@,
                StreamError::RecorderOpen(e) => "Failed to open recorder: "@ + e@,
            }),
    {
        match self {
            StreamError::NoInputDevice => String::from_str("No input device found"),
            StreamError::RecorderCreation(e) => e.clone(),
            StreamError::RecorderOpen(e) => {
                let mut s = String::from_str("Failed to open recorder: ");
                s.append(e.as_str());
                s
            },
        }
    }
}

/// Why a recording could not start.
#[derive(Clone, Debug)]
pub enum RecordingError {
    AlreadyRecording,
    RecorderUnavailable,
    /// Opening the microphone stream failed.
    Stream(StreamError),
}

impl RecordingError {
    /// The message reported for this error.
    pub fn message(&self) -> (msg: String)
        ensures
            msg@ == (match *self {
                RecordingError::AlreadyRecording => "Already recording"@,
                RecordingError::RecorderUnavailable => "Recorder not available"@,
                RecordingError::Stream(StreamError::NoInputDevice) => "No input device found"@,
                RecordingError::Stream(StreamError::RecorderCreation(e)) => e@,
                RecordingError::Stream(StreamError::RecorderOpen(e)) => "Failed to open recorder: "@ + e@,
            }),
    {
        match self {
            RecordingError::AlreadyRecording => String::from_str("Already recording"),
            RecordingError::RecorderUnavailable => String::from_str("Recorder not available"),
            RecordingError::Stream(e) => e.message(),
        }
    }
}

/// What closing the microphone stream asks of the caller, in this order.
#[derive(Clone, Copy, Debug, PartialEq, Eq)]
pub struct StreamClose {
    /// Unmute the system output (it was muted for the recording).
    pub unmute: bool,
    /// Stop the recorder (a recording was still running).
    pub stop_recorder: bool,
    /// Close the recorder's device.
    pub close_recorder: bool,
}

/// The next step of opening the microphone stream.
#[derive(Clone, Debug)]
pub enum StreamOpenStep {
    /// Create the recorder, then report with `after_recorder_created`.
    CreateRecorder,
    /// Open the recorder on the chosen device, then report with
    /// `after_recorder_open`.
    OpenRecorder,
    /// Opening failed.
    Failed(StreamError),
}

/// What the caller does once a recording has stopped or been cancelled.
#[derive(Clone, Copy, Debug, PartialEq, Eq)]
pub enum StreamFollowUp {
    /// The stream stays open.
    KeepOpen,
    /// Close the stream now, as `StreamClose` says.
    CloseNow(StreamClose),
    /// Close the stream after the idle timeout, if `lazy_close_due` still
    /// holds for this generation then.
    CloseLater(u64),
}

/// What a change of microphone mode asks of the caller.
#[derive(Clone, Copy, Debug, PartialEq, Eq)]
pub enum ModeSwitch {
    /// The mode has changed; close the stream as `StreamClose` says.
    Switched(StreamClose),
    /// Open the stream first; on success, call `complete_update_mode`.
    OpenStreamFirst,
}

/// What cancelling a recording asks of the caller.
#[derive(Clone, Copy, Debug, PartialEq, Eq)]
pub struct CancelPlan {
    /// Stop the recorder and discard what it recorded.
    pub stop_recorder: bool,
    /// Stop the loopback capture and discard what it captured.
    pub stop_loopback: bool,
}

/// The transcript file written when a meeting ends.
#[derive(Clone, Debug)]
pub struct MeetingTranscript {
    pub file_name: String,
    pub content: String,
}

/// The first step of starting meeting mode.
#[derive(Clone, Copy, Debug, PartialEq, Eq)]
pub enum MeetingStartStep {
    /// Meeting mode is on: nothing to do.
    AlreadyOn,
    /// A stop is still under way: start once it has finished.
    StopUnderWay,
    /// Go on starting.
    Start,
}

/// What ending meeting mode asks of the caller before the transcript is
/// read: always to close the chunk channel and wait for the transcription
/// worker to drain it; and as these say.
#[derive(Clone, Copy, Debug, PartialEq, Eq)]
pub struct MeetingShutdown {
    /// Close the loopback capture.
    pub close_loopback: bool,
    /// Take the chunk sender back from the recorder.
    pub detach_recorder_sender: bool,
}

/// What a stopped meeting leaves on disk.
#[derive(Clone, Debug)]
pub enum MeetingOutcome {
    /// Save this transcript.
    Save(MeetingTranscript),
    /// No segment was transcribed: remove this file (the header written
    /// when the meeting started), if there is one.
    Discard(Option<String>),
}

/// The state of the recording manager.
#[derive(Clone, Debug)]
pub struct AudioRecordingManager {
    pub state: RecordingState,
    pub mode: MicrophoneMode,
    /// The microphone stream is open.
    pub is_open: bool,
    /// The recorder is recording.
    pub is_recording: bool,
    /// The system output was muted for the current recording.
    pub did_mute: bool,
    /// Bumped to cancel a pending lazy close of the stream.
    pub close_generation: u64,
    /// The recorder has been created.
    pub has_recorder: bool,
    pub meeting_mode: bool,
    /// Meeting mode has been stopped and the transcription worker is
    /// draining its queue.
    pub meeting_draining: bool,
    /// The loopback capture of system audio is open.
    pub has_loopback: bool,
    pub meeting_segments: Vec<MeetingSegment>,
    pub meeting_start_time: Option<ClockReading>,
}

/// Opening the stream fails for want of a device exactly when none is
/// configured (and found) and none is present at all.
pub open spec fn spec_input_device_missing(selected_device_found: bool, any_input_device: bool) -> bool {
    !selected_device_found && !any_input_device
}

/// The generation after one more bump (the counter wraps).
pub open spec fn next_generation(g: u64) -> u64 {
    if g == u64::MAX {
        0
    } else {
        (g + 1) as u64
    }
}

/// What closing the stream asks, from the state before it.
pub open spec fn stream_close_of(m: AudioRecordingManager) -> StreamClose {
    if m.is_open {
        StreamClose {
            unmute: m.did_mute,
            stop_recorder: m.has_recorder && m.is_recording,
            close_recorder: m.has_recorder,
        }
    } else {
        StreamClose { unmute: false, stop_recorder: false, close_recorder: false }
    }
}

/// The state after closing the stream.
pub open spec fn after_stream_close(m: AudioRecordingManager) -> AudioRecordingManager {
    if m.is_open {
        AudioRecordingManager {
            is_open: false,
            did_mute: false,
            is_recording: if m.has_recorder {
                false
            } else {
                m.is_recording
            },
            ..m
        }
    } else {
        m
    }
}

/// Stopping with `binding_id` ends the recording: one is running, and it
/// was started by that binding.
pub open spec fn stops_recording(m: AudioRecordingManager, binding_id: Seq<char>) -> bool {
    m.state matches RecordingState::Recording { binding_id: active } && active@ == binding_id
}

/// The state once the recorder started recording for `binding_id`.
pub open spec fn started_recording(m: AudioRecordingManager, binding_id: String) -> AudioRecordingManager {
    AudioRecordingManager {
        is_recording: true,
        state: RecordingState::Recording { binding_id },
        ..m
    }
}

/// A lazy close scheduled for `generation` would close the stream now.
pub open spec fn lazy_close_pending(m: AudioRecordingManager, generation: u64) -> bool {
    m.close_generation == generation && m.state is Idle
}

/// The state after a bump of the close generation.
pub open spec fn bumped(m: AudioRecordingManager) -> AudioRecordingManager {
    AudioRecordingManager { close_generation: next_generation(m.close_generation), ..m }
}

/// Applying the mute setting mutes the output now.
pub open spec fn mutes_now(m: AudioRecordingManager, mute_while_recording: bool) -> bool {
    !m.meeting_mode && mute_while_recording && m.is_open
}

/// The state after applying the mute setting.
pub open spec fn after_apply_mute(m: AudioRecordingManager, mute_while_recording: bool) -> AudioRecordingManager {
    if mutes_now(m, mute_while_recording) {
        AudioRecordingManager { did_mute: true, ..m }
    } else {
        m
    }
}

/// The state after removing the mute.
pub open spec fn after_remove_mute(m: AudioRecordingManager) -> AudioRecordingManager {
    AudioRecordingManager { did_mute: false, ..m }
}

/// A short recording padded to 1.25 s of `silence`: recordings that are
/// empty or at least a second long are kept as they are.
pub open spec fn padded_recording<T>(samples: Seq<T>, silence: T) -> Seq<T> {
    if 0 < samples.len() < WHISPER_SAMPLE_RATE {
        samples + Seq::new((PADDED_RECORDING_LEN - samples.len()) as nat, |i: int| silence)
    } else {
        samples
    }
}

/// A recording is stopped by the binding that started it, and by no other.
pub proof fn lemma_only_starting_binding_stops(
    m: AudioRecordingManager,
    binding_id: String,
    other: Seq<char>,
)
    ensures
        stops_recording(started_recording(m, binding_id), other) == (binding_id@ == other),
{
}

/// When no recording runs, stopping stops nothing.
pub proof fn lemma_idle_stops_nothing(m: AudioRecordingManager, binding_id: Seq<char>)
    requires
        m.state is Idle,
    ensures
        !stops_recording(m, binding_id),
{
}

/// A lazy close never closes the stream under a running recording, and one
/// scheduled before a recording started (which bumps the generation in
/// on-demand mode) stays cancelled after that recording ends. Changing the
/// mode or the device bumps the generation the same way.
pub proof fn lemma_recording_cancels_lazy_close(
    m: AudioRecordingManager,
    binding_id: String,
    generation: u64,
)
    ensures
        !lazy_close_pending(started_recording(m, binding_id), generation),
        !lazy_close_pending(bumped(m), m.close_generation),
        !lazy_close_pending(
            AudioRecordingManager {
                state: RecordingState::Idle,
                ..started_recording(bumped(m), binding_id)
            },
            m.close_generation,
        ),
{
}

/// Removing the mute undoes applying it: the output is unmuted exactly
/// when it was muted, and the manager is as before.
pub proof fn lemma_mute_round_trip(m: AudioRecordingManager, mute_while_recording: bool)
    requires
        !m.did_mute,
    ensures
        after_apply_mute(m, mute_while_recording).did_mute == mutes_now(m, mute_while_recording),
        after_remove_mute(after_apply_mute(m, mute_while_recording)) == m,
{
}

/// Closing the stream twice is closing it once: the second close asks for
/// nothing. A closed stream leaves no mute behind.
pub proof fn lemma_stream_close_idempotent(m: AudioRecordingManager)
    ensures
        after_stream_close(after_stream_close(m)) == after_stream_close(m),
        stream_close_of(after_stream_close(m)) == (StreamClose {
            unmute: false,
            stop_recorder: false,
            close_recorder: false,
        }),
        m.is_open ==> !after_stream_close(m).did_mute && !after_stream_close(m).is_open,
{
}

/// Padding keeps every recording as its prefix: one of at least a second
/// (16000 samples), or an empty one, comes back unchanged; a shorter one
/// comes back 20000 samples long, its own samples first, then silence.
pub proof fn lemma_padding_keeps_recording<T>(samples: Seq<T>, silence: T)
    ensures
        ({
            let out = padded_recording(samples, silence);
            &&& out.len() >= samples.len()
            &&& out.subrange(0, samples.len() as int) == samples
            &&& (samples.len() >= 16000 || samples.len() == 0) ==> out == samples
            &&& 0 < samples.len() < 16000 ==> {
                &&& out.len() == 20000
                &&& forall|i: int| samples.len() <= i < 20000 ==> out[i] == silence
            }
        }),
{
    let out = padded_recording(samples, silence);
    assert(out.subrange(0, samples.len() as int) =~= samples);
}

/// Applying the mute setting mutes exactly when the setting is on, the
/// stream is open and no meeting runs, whatever the microphone mode; it
/// records the mute, and changes nothing else.
pub proof fn lemma_mute_rule(m: AudioRecordingManager, mute_while_recording: bool, mode: MicrophoneMode)
    ensures
        mutes_now(m, mute_while_recording) == (mute_while_recording && m.is_open
            && !m.meeting_mode),
        mutes_now(m, mute_while_recording) == mutes_now(
            AudioRecordingManager { mode, ..m },
            mute_while_recording,
        ),
        after_apply_mute(m, mute_while_recording).did_mute == (m.did_mute || mutes_now(
            m,
            mute_while_recording,
        )),
        after_apply_mute(m, mute_while_recording) == (AudioRecordingManager {
            did_mute: after_apply_mute(m, mute_while_recording).did_mute,
            ..m
        }),
{
}

/// Closing an open stream unmutes exactly when the recording muted, stops
/// the recorder exactly when it exists and is recording, closes it exactly
/// when it exists, and leaves the stream closed, unmuted and, when there is
/// a recorder, not recording. Closing a closed stream does nothing.
pub proof fn lemma_stream_close_rule(m: AudioRecordingManager)
    ensures
        m.is_open ==> {
            let c = stream_close_of(m);
            let after = after_stream_close(m);
            &&& c.unmute == m.did_mute
            &&& c.stop_recorder == (m.has_recorder && m.is_recording)
            &&& c.close_recorder == m.has_recorder
            &&& !after.is_open
            &&& !after.did_mute
            &&& m.has_recorder ==> !after.is_recording
            &&& !m.has_recorder ==> after.is_recording == m.is_recording
            &&& after.state == m.state && after.mode == m.mode && after.has_recorder
                == m.has_recorder
        },
        !m.is_open ==> after_stream_close(m) == m && !stream_close_of(m).unmute
            && !stream_close_of(m).stop_recorder && !stream_close_of(m).close_recorder,
{
}

/// Padding is done once: a padded recording is not padded again.
pub proof fn lemma_padding_idempotent<T>(samples: Seq<T>, silence: T)
    ensures
        padded_recording(padded_recording(samples, silence), silence) == padded_recording(
            samples,
            silence,
        ),
        0 < samples.len() < WHISPER_SAMPLE_RATE ==> padded_recording(samples, silence).len()
            == PADDED_RECORDING_LEN,
{
}

/// The calls that bear on meeting mode.
pub enum MeetingCall {
    /// `meeting_mode_started`: a start of meeting mode succeeded.
    Started,
    /// `begin_stop_meeting_mode`.
    Stopped,
    /// Any other transition of the manager.
    Other,
}

/// What the contracts say of meeting mode across one call:
/// `meeting_mode_started` turns it on, `begin_stop_meeting_mode` turns it
/// off, and every other transition keeps it as it was.
pub open spec fn meeting_step(
    before: AudioRecordingManager,
    call: MeetingCall,
    after: AudioRecordingManager,
) -> bool {
    match call {
        MeetingCall::Started => after.meeting_mode,
        MeetingCall::Stopped => !after.meeting_mode,
        MeetingCall::Other => after.meeting_mode == before.meeting_mode,
    }
}

/// Some start of meeting mode succeeded and no stop came after it.
pub open spec fn started_since_last_stop(calls: Seq<MeetingCall>) -> bool
    decreases calls.len(),
{
    if calls.len() == 0 {
        false
    } else {
        match calls.last() {
            MeetingCall::Started => true,
            MeetingCall::Stopped => false,
            MeetingCall::Other => started_since_last_stop(calls.drop_last()),
        }
    }
}

/// Meeting mode is on exactly when a start succeeded and no stop followed:
/// over any run of calls from a manager with meeting mode off (as `new`
/// makes it), each call acting on meeting mode as its contract says.
pub proof fn lemma_meeting_mode_tracks_calls(
    states: Seq<AudioRecordingManager>,
    calls: Seq<MeetingCall>,
)
    requires
        states.len() == calls.len() + 1,
        !states[0].meeting_mode,
        forall|i: int| 0 <= i < calls.len() ==> meeting_step(states[i], #[trigger] calls[i], states[i + 1]),
    ensures
        states.last().meeting_mode == started_since_last_stop(calls),
    decreases calls.len(),
{
    if calls.len() > 0 {
        let n = calls.len() - 1;
        lemma_meeting_mode_tracks_calls(states.drop_last(), calls.drop_last());
        assert(meeting_step(states[n], calls[n], states[n + 1]));
        assert(states.drop_last().last() == states[n]);
    }
}

/// Whether opening the stream fails for want of an input device.
pub fn input_device_missing(selected_device_found: bool, any_input_device: bool) -> (missing: bool)
    ensures
        missing == spec_input_device_missing(selected_device_found, any_input_device),
{
    !selected_device_found && !any_input_device
}

/// Pads a short recording so that transcription gets at least 1.25 s.
pub fn pad_short_recording<T: Copy>(samples: Vec<T>, silence: T) -> (out: Vec<T>)
    ensures
        out@ == padded_recording(samples@, silence),
{
    let n = samples.len();
    if n < WHISPER_SAMPLE_RATE && n > 0 {
        let mut padded = samples;
        let ghost orig = padded@;
        while padded.len() < PADDED_RECORDING_LEN
            invariant
                n <= padded.len() <= PADDED_RECORDING_LEN,
                orig.len() == n,
                padded@ == orig + Seq::new((padded.len() - n) as nat, |i: int| silence),
            decreases PADDED_RECORDING_LEN - padded.len(),
        {
            padded.push(silence);
            assert(padded@ =~= orig + Seq::new((padded.len() - n) as nat, |i: int| silence));
        }
        assert(padded@ =~= padded_recording(orig, silence));
        padded
    } else {
        samples
    }
}

/// The audio of a stopped meeting recording: the microphone's, mixed with
/// the system audio when the loopback capture gave any.
pub fn mix_meeting_audio<T: Copy, F: Fn(T, T) -> T>(
    mic: Vec<T>,
    loopback: Vec<T>,
    silence: T,
    mix: F,
) -> (out: Vec<T>)
    requires
        forall|x: T, y: T| call_requires(mix, (x, y)),
    ensures
        loopback@.len() == 0 ==> out@ == mic@,
        loopback@.len() > 0 ==> {
            &&& out@.len() == mixed_len(mic@.len(), loopback@.len())
            &&& forall|i: int|
                0 <= i < out@.len() ==> call_ensures(
                    mix,
                    (sample_at(mic@, i, silence), sample_at(loopback@, i, silence)),
                    #[trigger] out@[i],
                )
        },
{
    if loopback.len() > 0 {
        mix_samples(mic.as_slice(), loopback.as_slice(), silence, mix)
    } else {
        mic
    }
}

impl AudioRecordingManager {
    /// The manager's own invariant: the output is muted only while the
    /// stream is open, and meeting mode is never on while a stop of it is
    /// still under way. Every step keeps it.
    pub open spec fn wf(self) -> bool {
        &&& self.did_mute ==> self.is_open
        &&& !(self.meeting_mode && self.meeting_draining)
    }

    /// A manager with nothing open; `always_on_microphone` picks the mode.
    /// The flag returned says whether to open the stream right away (in
    /// always-on mode): the manager then fails exactly when opening fails.
    pub fn new(always_on_microphone: bool) -> (r: (Self, bool))
        ensures
            r.1 == always_on_microphone,
            r.0.wf(),
            ({
                let m = r.0;
                &&& m.state is Idle
                &&& m.mode == (if always_on_microphone {
                    MicrophoneMode::AlwaysOn
                } else {
                    MicrophoneMode::OnDemand
                })
                &&& !m.is_open
                &&& !m.is_recording
                &&& !m.did_mute
                &&& m.close_generation == 0
                &&& !m.has_recorder
                &&& !m.meeting_mode
                &&& !m.meeting_draining
                &&& !m.has_loopback
                &&& m.meeting_segments@.len() == 0
                &&& m.meeting_start_time is None
            }),
    {
        (
            AudioRecordingManager {
                state: RecordingState::Idle,
                mode: if always_on_microphone {
                    MicrophoneMode::AlwaysOn
                } else {
                    MicrophoneMode::OnDemand
                },
                is_open: false,
                is_recording: false,
                did_mute: false,
                close_generation: 0,
                has_recorder: false,
                meeting_mode: false,
                meeting_draining: false,
                has_loopback: false,
                meeting_segments: Vec::new(),
                meeting_start_time: None,
            },
            always_on_microphone,
        )
    }

    /// A recording is in progress.
    pub fn is_recording(&self) -> (r: bool)
        ensures
            r == (self.state is Recording),
    {
        match self.state {
            RecordingState::Recording { .. } => true,
            RecordingState::Idle => false,
        }
    }

    /// Meeting mode is on.
    pub fn is_meeting_mode(&self) -> (r: bool)
        ensures
            r == self.meeting_mode,
    {
        self.meeting_mode
    }

    fn bump_generation(&mut self)
        ensures
            *final(self) == (AudioRecordingManager {
                close_generation: next_generation(old(self).close_generation),
                ..*old(self)
            }),
    {
        self.close_generation = self.close_generation.wrapping_add(1);
    }

    /* ---------- the microphone stream ---------- */

    /// First step of opening the microphone stream. Returns false when it is
    /// already open (nothing to do); otherwise the caller goes on choosing
    /// the device, and no mute is carried over.
    pub fn begin_microphone_stream(&mut self) -> (open_needed: bool)
        requires
            old(self).wf(),
        ensures
            final(self).wf(),
            open_needed == !old(self).is_open,
            *final(self) == (if open_needed {
                AudioRecordingManager { did_mute: false, ..*old(self) }
            } else {
                *old(self)
            }),
    {
        if self.is_open {
            return false;
        }
        self.did_mute = false;
        true
    }

    /// Second step: whether a device was configured and found, and (asked
    /// only when none was) whether any input device is present at all.
    pub fn after_device_check(&self, selected_device_found: bool, any_input_device: bool) -> (step:
        StreamOpenStep)
        ensures
            spec_input_device_missing(selected_device_found, any_input_device) ==> step matches StreamOpenStep::Failed(StreamError::NoInputDevice),
            !spec_input_device_missing(selected_device_found, any_input_device) ==> (if self.has_recorder {
                step is OpenRecorder
            } else {
                step is CreateRecorder
            }),
    {
        if input_device_missing(selected_device_found, any_input_device) {
            StreamOpenStep::Failed(StreamError::NoInputDevice)
        } else if self.has_recorder {
            StreamOpenStep::OpenRecorder
        } else {
            StreamOpenStep::CreateRecorder
        }
    }

    /// Whether the recorder still has to be created (loading the voice
    /// detector ahead of the first recording).
    pub fn needs_recorder(&self) -> (r: bool)
        ensures
            r == !self.has_recorder,
    {
        !self.has_recorder
    }

    /// Reports the outcome of creating the recorder.
    pub fn after_recorder_created(&mut self, created: Result<(), String>) -> (step: StreamOpenStep)
        requires
            old(self).wf(),
        ensures
            final(self).wf(),
            created is Ok ==> step is OpenRecorder && *final(self) == (AudioRecordingManager {
                has_recorder: true,
                ..*old(self)
            }),
            created matches Err(e) ==> step == StreamOpenStep::Failed(StreamError::RecorderCreation(e))
                && *final(self) == *old(self),
    {
        match created {
            Ok(()) => {
                self.has_recorder = true;
                StreamOpenStep::OpenRecorder
            },
            Err(e) => StreamOpenStep::Failed(StreamError::RecorderCreation(e)),
        }
    }

    /// Last step: reports the outcome of opening the recorder's device.
    pub fn after_recorder_open(&mut self, opened: Result<(), String>) -> (r: Result<(), StreamError>)
        requires
            old(self).wf(),
        ensures
            final(self).wf(),
            opened is Ok ==> r is Ok && *final(self) == (AudioRecordingManager {
                is_open: true,
                ..*old(self)
            }),
            opened matches Err(e) ==> r == Err::<(), StreamError>(StreamError::RecorderOpen(e))
                && *final(self) == *old(self),
    {
        match opened {
            Ok(()) => {
                self.is_open = true;
                Ok(())
            },
            Err(e) => Err(StreamError::RecorderOpen(e)),
        }
    }

    /// Closes the microphone stream: unmutes if the recording muted, stops a
    /// recording still running, closes the recorder. Nothing when closed.
    pub fn stop_microphone_stream(&mut self) -> (close: StreamClose)
        requires
            old(self).wf(),
        ensures
            final(self).wf(),
            close == stream_close_of(*old(self)),
            *final(self) == after_stream_close(*old(self)),
    {
        if !self.is_open {
            return StreamClose { unmute: false, stop_recorder: false, close_recorder: false };
        }
        let unmute = self.did_mute;
        self.did_mute = false;
        let mut stop_recorder = false;
        let mut close_recorder = false;
        if self.has_recorder {
            if self.is_recording {
                stop_recorder = true;
                self.is_recording = false;
            }
            close_recorder = true;
        }
        self.is_open = false;
        StreamClose { unmute, stop_recorder, close_recorder }
    }

    /// Whether a lazy close scheduled for `generation` is still due: nothing
    /// bumped the generation since, and no recording is in progress.
    pub fn lazy_close_due(&self, generation: u64) -> (due: bool)
        ensures
            due == lazy_close_pending(*self, generation),
    {
        self.close_generation == generation && match self.state {
            RecordingState::Idle => true,
            RecordingState::Recording { .. } => false,
        }
    }

    /* ---------- muting ---------- */

    /// Mutes the system output while recording, if the setting asks for it
    /// and the stream is open. Never in meeting mode, where muting would
    /// silence the loopback capture. Returns whether to mute now.
    pub fn apply_mute(&mut self, mute_while_recording: bool) -> (mute: bool)
        requires
            old(self).wf(),
        ensures
            final(self).wf(),
            mute == mutes_now(*old(self), mute_while_recording),
            *final(self) == after_apply_mute(*old(self), mute_while_recording),
    {
        if self.meeting_mode {
            return false;
        }
        if mute_while_recording && self.is_open {
            self.did_mute = true;
            true
        } else {
            false
        }
    }

    /// Removes the mute if this manager applied it. Returns whether to
    /// unmute now.
    pub fn remove_mute(&mut self) -> (unmute: bool)
        requires
            old(self).wf(),
        ensures
            final(self).wf(),
            unmute == old(self).did_mute,
            *final(self) == after_remove_mute(*old(self)),
    {
        let unmute = self.did_mute;
        self.did_mute = false;
        unmute
    }

    /* ---------- mode switching ---------- */

    /// Switches the microphone mode. Leaving always-on closes the stream
    /// unless a recording is running; entering always-on opens the stream
    /// first and changes the mode only once it is open. Either change
    /// cancels a pending lazy close.
    pub fn begin_update_mode(&mut self, new_mode: MicrophoneMode) -> (switch: ModeSwitch)
        requires
            old(self).wf(),
        ensures
            final(self).wf(),
            old(self).mode == MicrophoneMode::AlwaysOn && new_mode == MicrophoneMode::OnDemand ==> (
            if old(self).state is Idle {
                let bumped = AudioRecordingManager {
                    close_generation: next_generation(old(self).close_generation),
                    ..*old(self)
                };
                &&& switch == ModeSwitch::Switched(stream_close_of(bumped))
                &&& *final(self) == (AudioRecordingManager {
                    mode: new_mode,
                    ..after_stream_close(bumped)
                })
            } else {
                &&& switch == ModeSwitch::Switched(
                    StreamClose { unmute: false, stop_recorder: false, close_recorder: false },
                )
                &&& *final(self) == (AudioRecordingManager { mode: new_mode, ..*old(self) })
            }),
            old(self).mode == MicrophoneMode::OnDemand && new_mode == MicrophoneMode::AlwaysOn ==> {
                &&& switch == ModeSwitch::OpenStreamFirst
                &&& *final(self) == (AudioRecordingManager {
                    close_generation: next_generation(old(self).close_generation),
                    ..*old(self)
                })
            },
            old(self).mode == new_mode ==> {
                &&& switch == ModeSwitch::Switched(
                    StreamClose { unmute: false, stop_recorder: false, close_recorder: false },
                )
                &&& *final(self) == *old(self)
            },
    {
        match (self.mode, new_mode) {
            (MicrophoneMode::AlwaysOn, MicrophoneMode::OnDemand) => {
                let mut close = StreamClose {
                    unmute: false,
                    stop_recorder: false,
                    close_recorder: false,
                };
                if !self.is_recording() {
                    self.bump_generation();
                    close = self.stop_microphone_stream();
                }
                self.mode = new_mode;
                ModeSwitch::Switched(close)
            },
            (MicrophoneMode::OnDemand, MicrophoneMode::AlwaysOn) => {
                self.bump_generation();
                ModeSwitch::OpenStreamFirst
            },
            _ => {
                self.mode = new_mode;
                ModeSwitch::Switched(
                    StreamClose { unmute: false, stop_recorder: false, close_recorder: false },
                )
            },
        }
    }

    /// Completes a switch that had to open the stream first.
    pub fn complete_update_mode(&mut self, new_mode: MicrophoneMode)
        requires
            old(self).wf(),
        ensures
            final(self).wf(),
            *final(self) == (AudioRecordingManager { mode: new_mode, ..*old(self) }),
    {
        self.mode = new_mode;
    }

    /// A newly selected device takes effect by reopening an open stream:
    /// returns how to close it (the caller then opens it again), or none
    /// when the stream is closed.
    pub fn begin_update_selected_device(&mut self) -> (close: Option<StreamClose>)
        requires
            old(self).wf(),
        ensures
            final(self).wf(),
            old(self).is_open ==> {
                let bumped = AudioRecordingManager {
                    close_generation: next_generation(old(self).close_generation),
                    ..*old(self)
                };
                &&& close == Some(stream_close_of(bumped))
                &&& *final(self) == after_stream_close(bumped)
            },
            !old(self).is_open ==> close is None && *final(self) == *old(self),
    {
        if self.is_open {
            self.bump_generation();
            Some(self.stop_microphone_stream())
        } else {
            None
        }
    }

    /* ---------- recording ---------- */

    /// First step of starting a recording. Fails when one is running; in
    /// on-demand mode it cancels a pending lazy close and returns true: the
    /// caller opens the stream before going on.
    pub fn begin_start_recording(&mut self) -> (r: Result<bool, RecordingError>)
        requires
            old(self).wf(),
        ensures
            final(self).wf(),
            old(self).state is Recording ==> (r matches Err(RecordingError::AlreadyRecording))
                && *final(self) == *old(self),
            old(self).state is Idle && old(self).mode == MicrophoneMode::OnDemand ==> r == Ok::<
                bool,
                RecordingError,
            >(true) && *final(self) == bumped(*old(self)),
            old(self).state is Idle && old(self).mode == MicrophoneMode::AlwaysOn ==> r == Ok::<
                bool,
                RecordingError,
            >(false) && *final(self) == *old(self),
    {
        if self.is_recording() {
            return Err(RecordingError::AlreadyRecording);
        }
        match self.mode {
            MicrophoneMode::OnDemand => {
                self.bump_generation();
                Ok(true)
            },
            MicrophoneMode::AlwaysOn => Ok(false),
        }
    }

    /// Last step of starting a recording: whether the recorder started
    /// (asked only when it exists). On success the recording belongs to
    /// `binding_id`, and the result says whether to start the loopback
    /// capture too (meeting mode).
    pub fn finish_start_recording(&mut self, binding_id: String, recorder_started: bool) -> (r:
        Result<bool, RecordingError>)
        requires
            old(self).wf(),
        ensures
            final(self).wf(),
            old(self).has_recorder && recorder_started ==> {
                &&& r == Ok::<bool, RecordingError>(old(self).meeting_mode && old(self).has_loopback)
                &&& *final(self) == started_recording(*old(self), binding_id)
            },
            !(old(self).has_recorder && recorder_started) ==> (r matches Err(
                RecordingError::RecorderUnavailable,
            )) && *final(self) == *old(self),
    {
        if self.has_recorder && recorder_started {
            self.is_recording = true;
            self.state = RecordingState::Recording { binding_id };
            Ok(self.meeting_mode && self.has_loopback)
        } else {
            Err(RecordingError::RecorderUnavailable)
        }
    }

    /// First step of stopping a recording: only the binding that started it
    /// stops it. Returns whether it stopped; the caller then collects the
    /// audio (from the loopback capture too when `loopback_to_stop` says so)
    /// and calls `finish_recording`.
    pub fn begin_stop_recording(&mut self, binding_id: &str) -> (stopped: bool)
        requires
            old(self).wf(),
        ensures
            final(self).wf(),
            stopped == stops_recording(*old(self), binding_id@),
            stopped ==> *final(self) == (AudioRecordingManager {
                state: RecordingState::Idle,
                ..*old(self)
            }),
            !stopped ==> *final(self) == *old(self),
    {
        let wanted = binding_id.to_owned();
        let stopped = match &self.state {
            RecordingState::Recording { binding_id: active } => active.eq(&wanted),
            RecordingState::Idle => false,
        };
        if stopped {
            self.state = RecordingState::Idle;
        }
        stopped
    }

    /// Whether stopping or cancelling a recording also stops the loopback
    /// capture.
    pub fn loopback_to_stop(&self) -> (r: bool)
        ensures
            r == (self.meeting_mode && self.has_loopback),
    {
        self.meeting_mode && self.has_loopback
    }

    /// First step of cancelling a recording: none when there is nothing to
    /// cancel; otherwise what to stop, the audio being discarded.
    pub fn begin_cancel_recording(&mut self) -> (plan: Option<CancelPlan>)
        requires
            old(self).wf(),
        ensures
            final(self).wf(),
            old(self).state is Idle ==> plan is None && *final(self) == *old(self),
            old(self).state is Recording ==> {
                &&& plan == Some(
                    CancelPlan {
                        stop_recorder: old(self).has_recorder,
                        stop_loopback: old(self).meeting_mode && old(self).has_loopback,
                    },
                )
                &&& *final(self) == (AudioRecordingManager {
                    state: RecordingState::Idle,
                    ..*old(self)
                })
            },
    {
        if !self.is_recording() {
            return None;
        }
        self.state = RecordingState::Idle;
        Some(
            CancelPlan {
                stop_recorder: self.has_recorder,
                stop_loopback: self.meeting_mode && self.has_loopback,
            },
        )
    }

    /// Last step of stopping or cancelling a recording. In on-demand mode
    /// the stream closes: at once, or after the idle timeout when
    /// `lazy_stream_close` is set.
    pub fn finish_recording(&mut self, lazy_stream_close: bool) -> (follow_up: StreamFollowUp)
        requires
            old(self).wf(),
        ensures
            final(self).wf(),
            ({
                let stopped = AudioRecordingManager { is_recording: false, ..*old(self) };
                if old(self).mode == MicrophoneMode::AlwaysOn {
                    follow_up == StreamFollowUp::KeepOpen && *final(self) == stopped
                } else if lazy_stream_close {
                    &&& follow_up == StreamFollowUp::CloseLater(
                        next_generation(old(self).close_generation),
                    )
                    &&& *final(self) == (AudioRecordingManager {
                        close_generation: next_generation(old(self).close_generation),
                        ..stopped
                    })
                } else {
                    &&& follow_up == StreamFollowUp::CloseNow(stream_close_of(stopped))
                    &&& *final(self) == after_stream_close(stopped)
                }
            }),
    {
        self.is_recording = false;
        match self.mode {
            MicrophoneMode::AlwaysOn => StreamFollowUp::KeepOpen,
            MicrophoneMode::OnDemand => {
                if lazy_stream_close {
                    self.bump_generation();
                    StreamFollowUp::CloseLater(self.close_generation)
                } else {
                    StreamFollowUp::CloseNow(self.stop_microphone_stream())
                }
            },
        }
    }

    /* ---------- meeting mode ---------- */

    /// First step of starting meeting mode: nothing to do when it is already
    /// on; a stop still under way has to finish first; otherwise the caller
    /// opens the loopback capture and calls `begin_meeting_mode`.
    pub fn meeting_start_step(&self) -> (step: MeetingStartStep)
        ensures
            self.meeting_mode ==> step == MeetingStartStep::AlreadyOn,
            !self.meeting_mode && self.meeting_draining ==> step == MeetingStartStep::StopUnderWay,
            !self.meeting_mode && !self.meeting_draining ==> step == MeetingStartStep::Start,
    {
        if self.meeting_mode {
            MeetingStartStep::AlreadyOn
        } else if self.meeting_draining {
            MeetingStartStep::StopUnderWay
        } else {
            MeetingStartStep::Start
        }
    }

    /// Starts a meeting session at `start`: the loopback capture is open or
    /// not as `loopback_opened` says (the meeting then records the
    /// microphone only), and no segment is held. Meeting mode itself turns
    /// on with `meeting_mode_started`, once the transcript file exists.
    pub fn begin_meeting_mode(&mut self, loopback_opened: bool, start: ClockReading)
        requires
            old(self).wf(),
            !old(self).meeting_mode,
            !old(self).meeting_draining,
        ensures
            final(self).wf(),
            *final(self) == (AudioRecordingManager {
                has_loopback: loopback_opened,
                meeting_segments: final(self).meeting_segments,
                meeting_start_time: Some(start),
                ..*old(self)
            }),
            final(self).meeting_segments@.len() == 0,
    {
        self.has_loopback = loopback_opened;
        self.meeting_segments = Vec::new();
        self.meeting_start_time = Some(start);
    }

    /// Meeting mode is on.
    pub fn meeting_mode_started(&mut self)
        requires
            old(self).wf(),
            !old(self).meeting_draining,
        ensures
            final(self).wf(),
            *final(self) == (AudioRecordingManager { meeting_mode: true, ..*old(self) }),
    {
        self.meeting_mode = true;
    }

    /// Keeps a segment the meeting's transcription worker produced (also
    /// while the worker drains its queue after a stop began).
    pub fn record_transcribed_segment(&mut self, at: ClockReading, text: String)
        requires
            old(self).wf(),
        ensures
            final(self).wf(),
            *final(self) == (AudioRecordingManager {
                meeting_segments: final(self).meeting_segments,
                ..*old(self)
            }),
            final(self).meeting_segments@ == old(self).meeting_segments@.push(
                MeetingSegment { at, text },
            ),
    {
        self.meeting_segments.push(MeetingSegment { at, text });
    }

    /// Adds a segment to the meeting, if meeting mode is on.
    pub fn add_meeting_segment(&mut self, text: String, at: ClockReading)
        requires
            old(self).wf(),
        ensures
            final(self).wf(),
            old(self).meeting_mode ==> *final(self) == (AudioRecordingManager {
                meeting_segments: final(self).meeting_segments,
                ..*old(self)
            }) && final(self).meeting_segments@ == old(self).meeting_segments@.push(
                MeetingSegment { at, text },
            ),
            !old(self).meeting_mode ==> *final(self) == *old(self),
    {
        if !self.meeting_mode {
            return;
        }
        self.meeting_segments.push(MeetingSegment { at, text });
    }

    /// First step of stopping meeting mode: none when it is off (nothing to
    /// do). Otherwise meeting mode ends, and the caller closes the loopback
    /// capture, takes the chunk sender from the recorder, closes the chunk
    /// channel and waits for the transcription worker to drain it, then
    /// calls `finish_stop_meeting_mode`.
    pub fn begin_stop_meeting_mode(&mut self) -> (shutdown: Option<MeetingShutdown>)
        requires
            old(self).wf(),
        ensures
            final(self).wf(),
            !old(self).meeting_mode ==> shutdown is None && *final(self) == *old(self),
            old(self).meeting_mode ==> {
                &&& shutdown == Some(
                    MeetingShutdown {
                        close_loopback: old(self).has_loopback,
                        detach_recorder_sender: old(self).has_recorder,
                    },
                )
                &&& *final(self) == (AudioRecordingManager {
                    meeting_mode: false,
                    meeting_draining: true,
                    has_loopback: false,
                    ..*old(self)
                })
            },
    {
        if !self.meeting_mode {
            return None;
        }
        self.meeting_mode = false;
        self.meeting_draining = true;
        let close_loopback = self.has_loopback;
        self.has_loopback = false;
        Some(MeetingShutdown { close_loopback, detach_recorder_sender: self.has_recorder })
    }

    /// Last step of stopping meeting mode, once the worker has drained, at
    /// `now`: the transcript of all segments, timed from the session's start
    /// (from `now` if none was kept), to save; or, for a meeting without
    /// segments, the file the session started (holding only its header) to
    /// remove, so that no file is left. Nothing when no stop is under way.
    pub fn finish_stop_meeting_mode(&mut self, now: ClockReading) -> (out: Option<MeetingOutcome>)
        requires
            old(self).wf(),
        ensures
            final(self).wf(),
            !old(self).meeting_draining ==> out is None && *final(self) == *old(self),
            old(self).meeting_draining ==> {
                &&& *final(self) == (AudioRecordingManager {
                    meeting_draining: false,
                    meeting_segments: final(self).meeting_segments,
                    meeting_start_time: None,
                    ..*old(self)
                })
                &&& final(self).meeting_segments@.len() == 0
                &&& (old(self).meeting_segments@.len() == 0 ==> {
                    &&& out matches Some(MeetingOutcome::Discard(f))
                    &&& match old(self).meeting_start_time {
                        Some(t) => (f matches Some(name) && name@ == transcript_file_name_text(t)),
                        None => f is None,
                    }
                })
                &&& (old(self).meeting_segments@.len() > 0 ==> {
                    let start = match old(self).meeting_start_time {
                        Some(t) => t,
                        None => now,
                    };
                    &&& out matches Some(MeetingOutcome::Save(t))
                    &&& t.file_name@ == transcript_file_name_text(start)
                    &&& t.content@ == transcript_text(
                        start,
                        elapsed_seconds(start, now),
                        old(self).meeting_segments@,
                    )
                })
            },
    {
        if !self.meeting_draining {
            return None;
        }
        self.meeting_draining = false;
        let mut segments: Vec<MeetingSegment> = Vec::new();
        std::mem::swap(&mut segments, &mut self.meeting_segments);
        let start_time = self.meeting_start_time.take();
        if segments.len() == 0 {
            let header_file = match start_time {
                Some(t) => Some(transcript_file_name(&t)),
                None => None,
            };
            return Some(MeetingOutcome::Discard(header_file));
        }
        let start = match start_time {
            Some(t) => t,
            None => now,
        };
        let elapsed = seconds_between(&start, &now);
        let transcript = MeetingTranscript {
            file_name: transcript_file_name(&start),
            content: transcript_document(&start, elapsed, &segments),
        };
        Some(MeetingOutcome::Save(transcript))
    }
}

} // verus!
