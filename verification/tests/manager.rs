use handy_audio::clock::ClockReading;
use handy_audio::manager::{
    input_device_missing, mix_meeting_audio, pad_short_recording, AudioRecordingManager,
    CancelPlan, MeetingOutcome, MeetingShutdown, MeetingStartStep, MicrophoneMode, ModeSwitch, RecordingError, RecordingState, StreamClose,
    StreamError, StreamFollowUp, StreamOpenStep, PADDED_RECORDING_LEN, WHISPER_SAMPLE_RATE,
};

const NO_CLOSE: StreamClose = StreamClose { unmute: false, stop_recorder: false, close_recorder: false };

fn reading(hour: u32, minute: u32, second: u32, unix_seconds: i64) -> ClockReading {
    ClockReading::new(2026, 5, 18, hour, minute, second, unix_seconds, 0).unwrap()
}

/// Runs the steps of opening the stream with a device present and every
/// outside step succeeding.
fn open_stream(m: &mut AudioRecordingManager) -> Result<(), StreamError> {
    if !m.begin_microphone_stream() {
        return Ok(());
    }
    let mut step = m.after_device_check(true, true);
    loop {
        match step {
            StreamOpenStep::CreateRecorder => step = m.after_recorder_created(Ok(())),
            StreamOpenStep::OpenRecorder => return m.after_recorder_open(Ok(())),
            StreamOpenStep::Failed(e) => return Err(e),
        }
    }
}

#[test]
fn new_manager_picks_mode_from_setting() {
    assert!(AudioRecordingManager::new(true).1);
    assert!(!AudioRecordingManager::new(false).1);
    let m = AudioRecordingManager::new(true).0;
    assert_eq!(m.mode, MicrophoneMode::AlwaysOn);
    assert!(!m.is_open);
    assert!(!m.is_recording());
    let m = AudioRecordingManager::new(false).0;
    assert_eq!(m.mode, MicrophoneMode::OnDemand);
    assert!(!m.is_meeting_mode());
}

#[test]
fn no_device_fails_only_when_none_exists() {
    assert!(input_device_missing(false, false));
    assert!(!input_device_missing(false, true));
    assert!(!input_device_missing(true, false));
    let mut m = AudioRecordingManager::new(false).0;
    assert!(m.begin_microphone_stream());
    assert!(matches!(m.after_device_check(false, false), StreamOpenStep::Failed(StreamError::NoInputDevice)));
    assert!(!m.is_open);
}

#[test]
fn recorder_errors_leave_stream_closed() {
    let mut m = AudioRecordingManager::new(false).0;
    assert!(m.begin_microphone_stream());
    assert!(matches!(m.after_device_check(true, false), StreamOpenStep::CreateRecorder));
    match m.after_recorder_created(Err("no model".to_string())) {
        StreamOpenStep::Failed(StreamError::RecorderCreation(e)) => assert_eq!(e, "no model"),
        _ => panic!("expected a creation failure"),
    }
    assert!(!m.has_recorder);
    assert!(matches!(m.after_recorder_created(Ok(())), StreamOpenStep::OpenRecorder));
    match m.after_recorder_open(Err("busy".to_string())) {
        Err(StreamError::RecorderOpen(e)) => assert_eq!(e, "busy"),
        _ => panic!("expected an open failure"),
    }
    assert!(!m.is_open);
    assert!(m.has_recorder);
}

#[test]
fn opening_an_open_stream_does_nothing() {
    let mut m = AudioRecordingManager::new(false).0;
    assert!(open_stream(&mut m).is_ok());
    assert!(m.is_open);
    assert!(!m.needs_recorder());
    assert!(!m.begin_microphone_stream());
    assert!(m.is_open);
}

#[test]
fn start_then_stop_with_same_binding() {
    let mut m = AudioRecordingManager::new(false).0;
    assert_eq!(m.begin_start_recording().unwrap(), true);
    assert_eq!(m.close_generation, 1);
    assert!(open_stream(&mut m).is_ok());
    assert_eq!(m.finish_start_recording("transcribe".to_string(), true).unwrap(), false);
    assert!(m.is_recording());
    assert!(m.is_recording);
    assert!(matches!(m.begin_start_recording(), Err(RecordingError::AlreadyRecording)));
    assert!(!m.begin_stop_recording("other"));
    assert!(m.is_recording());
    assert!(m.begin_stop_recording("transcribe"));
    assert!(matches!(m.state, RecordingState::Idle));
    match m.finish_recording(false) {
        StreamFollowUp::CloseNow(c) => {
            assert_eq!(c, StreamClose { unmute: false, stop_recorder: false, close_recorder: true })
        }
        other => panic!("unexpected follow-up {:?}", other),
    }
    assert!(!m.is_open);
    assert!(!m.is_recording);
}

#[test]
fn stop_without_recording_returns_nothing() {
    let mut m = AudioRecordingManager::new(true).0;
    assert!(!m.begin_stop_recording("transcribe"));
    assert!(m.begin_cancel_recording().is_none());
}

#[test]
fn recorder_must_start_for_recording() {
    let mut m = AudioRecordingManager::new(true).0;
    assert_eq!(m.begin_start_recording().unwrap(), false);
    assert!(matches!(
        m.finish_start_recording("a".to_string(), true),
        Err(RecordingError::RecorderUnavailable)
    ));
    assert!(open_stream(&mut m).is_ok());
    assert!(matches!(
        m.finish_start_recording("a".to_string(), false),
        Err(RecordingError::RecorderUnavailable)
    ));
    assert!(!m.is_recording());
}

#[test]
fn lazy_close_is_cancelled_by_a_new_recording() {
    let mut m = AudioRecordingManager::new(false).0;
    m.begin_start_recording().unwrap();
    open_stream(&mut m).unwrap();
    m.finish_start_recording("a".to_string(), true).unwrap();
    assert!(m.begin_stop_recording("a"));
    let generation = match m.finish_recording(true) {
        StreamFollowUp::CloseLater(g) => g,
        other => panic!("unexpected follow-up {:?}", other),
    };
    assert!(m.is_open);
    assert!(m.lazy_close_due(generation));
    m.begin_start_recording().unwrap();
    assert!(!m.lazy_close_due(generation));
    m.finish_start_recording("b".to_string(), true).unwrap();
    assert!(m.begin_stop_recording("b"));
    assert!(!m.lazy_close_due(generation));
}

#[test]
fn always_on_keeps_stream_after_recording() {
    let mut m = AudioRecordingManager::new(true).0;
    open_stream(&mut m).unwrap();
    m.begin_start_recording().unwrap();
    m.finish_start_recording("a".to_string(), true).unwrap();
    let plan = m.begin_cancel_recording().unwrap();
    assert_eq!(plan, CancelPlan { stop_recorder: true, stop_loopback: false });
    assert_eq!(m.finish_recording(true), StreamFollowUp::KeepOpen);
    assert!(m.is_open);
    assert!(!m.is_recording);
}

#[test]
fn mute_applies_only_with_open_stream_outside_meetings() {
    let mut m = AudioRecordingManager::new(true).0;
    assert!(!m.apply_mute(true));
    open_stream(&mut m).unwrap();
    assert!(!m.apply_mute(false));
    assert!(m.apply_mute(true));
    assert!(m.did_mute);
    assert!(m.remove_mute());
    assert!(!m.remove_mute());
    m.begin_meeting_mode(false, reading(9, 0, 0, 1_000));
    m.meeting_mode_started();
    assert!(!m.apply_mute(true));
    assert!(!m.did_mute);
}

#[test]
fn closing_stream_unmutes_and_is_idempotent() {
    let mut m = AudioRecordingManager::new(true).0;
    open_stream(&mut m).unwrap();
    assert!(m.apply_mute(true));
    let close = m.stop_microphone_stream();
    assert_eq!(close, StreamClose { unmute: true, stop_recorder: false, close_recorder: true });
    assert!(!m.did_mute);
    assert_eq!(m.stop_microphone_stream(), NO_CLOSE);
}

#[test]
fn mode_switches() {
    let mut m = AudioRecordingManager::new(false).0;
    assert_eq!(m.begin_update_mode(MicrophoneMode::AlwaysOn), ModeSwitch::OpenStreamFirst);
    assert_eq!(m.mode, MicrophoneMode::OnDemand);
    open_stream(&mut m).unwrap();
    m.complete_update_mode(MicrophoneMode::AlwaysOn);
    assert_eq!(m.mode, MicrophoneMode::AlwaysOn);
    match m.begin_update_mode(MicrophoneMode::OnDemand) {
        ModeSwitch::Switched(c) => assert!(c.close_recorder),
        other => panic!("unexpected switch {:?}", other),
    }
    assert_eq!(m.mode, MicrophoneMode::OnDemand);
    assert!(!m.is_open);
    assert_eq!(m.begin_update_mode(MicrophoneMode::OnDemand), ModeSwitch::Switched(NO_CLOSE));
}

#[test]
fn leaving_always_on_while_recording_keeps_stream() {
    let mut m = AudioRecordingManager::new(true).0;
    open_stream(&mut m).unwrap();
    m.begin_start_recording().unwrap();
    m.finish_start_recording("a".to_string(), true).unwrap();
    assert_eq!(m.begin_update_mode(MicrophoneMode::OnDemand), ModeSwitch::Switched(NO_CLOSE));
    assert!(m.is_open);
    assert_eq!(m.mode, MicrophoneMode::OnDemand);
}

#[test]
fn selected_device_reopens_only_open_stream() {
    let mut m = AudioRecordingManager::new(false).0;
    assert!(m.begin_update_selected_device().is_none());
    open_stream(&mut m).unwrap();
    let close = m.begin_update_selected_device().unwrap();
    assert!(close.close_recorder);
    assert!(!m.is_open);
}

#[test]
fn meeting_recording_starts_loopback() {
    let mut m = AudioRecordingManager::new(true).0;
    open_stream(&mut m).unwrap();
    m.begin_meeting_mode(true, reading(9, 0, 0, 1_000));
    m.meeting_mode_started();
    m.begin_start_recording().unwrap();
    assert_eq!(m.finish_start_recording("a".to_string(), true).unwrap(), true);
    assert!(m.loopback_to_stop());
}

#[test]
fn meeting_without_segments_writes_nothing() {
    let mut m = AudioRecordingManager::new(true).0;
    assert!(m.begin_stop_meeting_mode().is_none());
    assert!(m.finish_stop_meeting_mode(reading(9, 0, 0, 1_000)).is_none());
    assert_eq!(m.meeting_start_step(), MeetingStartStep::Start);
    m.begin_meeting_mode(true, reading(9, 0, 0, 1_000));
    m.meeting_mode_started();
    assert_eq!(m.meeting_start_step(), MeetingStartStep::AlreadyOn);
    let shutdown = m.begin_stop_meeting_mode().unwrap();
    assert_eq!(shutdown, MeetingShutdown { close_loopback: true, detach_recorder_sender: false });
    assert!(!m.is_meeting_mode());
    assert!(!m.has_loopback);
    assert_eq!(m.meeting_start_step(), MeetingStartStep::StopUnderWay);
    match m.finish_stop_meeting_mode(reading(9, 30, 0, 2_800)) {
        Some(MeetingOutcome::Discard(Some(name))) => assert_eq!(name, "meeting_2026-05-18_09-00-00.txt"),
        other => panic!("unexpected outcome {:?}", other),
    }
    assert_eq!(m.meeting_start_step(), MeetingStartStep::Start);
    assert!(m.meeting_start_time.is_none());
}

#[test]
fn meeting_transcript_holds_segments_and_duration() {
    let mut m = AudioRecordingManager::new(true).0;
    m.add_meeting_segment("ignored".to_string(), reading(8, 0, 0, 0));
    assert!(m.meeting_segments.is_empty());
    m.begin_meeting_mode(false, reading(14, 30, 0, 1_000_000));
    m.meeting_mode_started();
    m.record_transcribed_segment(reading(14, 30, 5, 1_000_005), "Hello everyone".to_string());
    m.add_meeting_segment("Thanks for joining".to_string(), reading(14, 30, 12, 1_000_012));
    m.begin_stop_meeting_mode().unwrap();
    m.record_transcribed_segment(reading(14, 30, 20, 1_000_020), "Drained late".to_string());
    m.add_meeting_segment("after the stop".to_string(), reading(14, 30, 21, 1_000_021));
    let t = match m.finish_stop_meeting_mode(reading(15, 12, 17, 1_002_537)) {
        Some(MeetingOutcome::Save(t)) => t,
        other => panic!("unexpected outcome {:?}", other),
    };
    assert_eq!(t.file_name, "meeting_2026-05-18_14-30-00.txt");
    assert_eq!(
        t.content,
        "Meeting: 2026-05-18 14:30\nDuration: 00:42:17\n\n[14:30:05] Hello everyone\n[14:30:12] Thanks for joining\n[14:30:20] Drained late\n"
    );
    assert!(m.meeting_segments.is_empty());
    assert!(m.meeting_start_time.is_none());
}

#[test]
fn short_recordings_are_padded() {
    let out = pad_short_recording(vec![0.5f32; 100], 0.0);
    assert_eq!(out.len(), PADDED_RECORDING_LEN);
    assert_eq!(out[99], 0.5);
    assert_eq!(out[100], 0.0);
    let out = pad_short_recording(vec![0.5f32; WHISPER_SAMPLE_RATE], 0.0);
    assert_eq!(out.len(), WHISPER_SAMPLE_RATE);
    let out: Vec<f32> = pad_short_recording(Vec::new(), 0.0);
    assert!(out.is_empty());
}

#[test]
fn meeting_audio_mixes_only_with_loopback_audio() {
    let mic = vec![0.5f32, 0.5];
    let out = mix_meeting_audio(mic.clone(), Vec::new(), 0.0f32, |x: f32, y: f32| (x + y).clamp(-1.0, 1.0));
    assert_eq!(out, mic);
    let out = mix_meeting_audio(mic, vec![0.75f32], 0.0f32, |x: f32, y: f32| (x + y).clamp(-1.0, 1.0));
    assert_eq!(out, vec![1.0, 0.5]);
}

#[test]
fn invalid_readings_do_not_exist() {
    assert!(ClockReading::new(2026, 2, 29, 0, 0, 0, 0, 0).is_none());
    assert!(ClockReading::new(2024, 2, 29, 0, 0, 0, 0, 0).is_some());
    assert!(ClockReading::new(2026, 13, 1, 0, 0, 0, 0, 0).is_none());
    assert!(ClockReading::new(2026, 1, 1, 24, 0, 0, 0, 0).is_none());
    assert!(ClockReading::new(2026, 1, 1, 0, 0, 0, 0, 1_000_000_000).is_none());
    assert!(ClockReading::new(300_000, 1, 1, 0, 0, 0, 0, 0).is_none());
}
