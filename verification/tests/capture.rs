use handy_audio::devices::{effective_microphone_name, find_device};
use handy_audio::manager::{RecordingError, StreamError};
use handy_audio::loopback::{stop_if_open, CaptureSession, CommandStep, LoopbackCommand, LoopbackLink};
use handy_audio::mute::{linux_mute_commands, macos_mute_command, macos_mute_script, next_mute_command};

#[test]
fn capture_keeps_audio_only_between_start_and_stop() {
    let mut s: CaptureSession<f32> = CaptureSession::new();
    assert!(!s.keeps_packet(10));
    s.start();
    assert!(s.keeps_packet(10));
    assert!(!s.keeps_packet(0));
    s.push_frame(&[0.1, 0.2]);
    s.push_frame(&[0.3]);
    let kept = s.stop(vec![0.4]);
    assert_eq!(kept, vec![0.1, 0.2, 0.3, 0.4]);
    assert!(!s.recording);
    assert!(s.buffer.is_empty());
    assert!(s.stop(Vec::new()).is_empty());
}

#[test]
fn restarting_capture_drops_earlier_audio() {
    let mut s: CaptureSession<i16> = CaptureSession::new();
    s.start();
    s.push_frame(&[1, 2, 3]);
    s.start();
    s.push_frame(&[4]);
    assert_eq!(s.stop(Vec::new()), vec![4]);
}

#[test]
fn mute_commands_on_linux() {
    let cmds = linux_mute_commands(true);
    assert_eq!(cmds.len(), 3);
    assert_eq!(cmds[0].program, "wpctl");
    assert_eq!(cmds[0].args, vec!["set-mute", "@DEFAULT_AUDIO_SINK@", "1"]);
    assert_eq!(cmds[1].program, "pactl");
    assert_eq!(cmds[1].args, vec!["set-sink-mute", "@DEFAULT_SINK@", "1"]);
    assert_eq!(cmds[2].program, "amixer");
    assert_eq!(cmds[2].args, vec!["set", "Master", "mute"]);
    let cmds = linux_mute_commands(false);
    assert_eq!(cmds[0].args[2], "0");
    assert_eq!(cmds[2].args[2], "unmute");
}

#[test]
fn mute_script_on_macos() {
    assert_eq!(macos_mute_script(true), "set volume output muted true");
    assert_eq!(macos_mute_script(false), "set volume output muted false");
}

#[test]
fn clamshell_microphone_wins_when_lid_closed() {
    let clam = Some("Dock Mic".to_string());
    let sel = Some("USB Mic".to_string());
    assert_eq!(effective_microphone_name(Some(true), &clam, &sel), clam);
    assert_eq!(effective_microphone_name(Some(false), &clam, &sel), sel);
    assert_eq!(effective_microphone_name(None, &clam, &sel), sel);
    assert_eq!(effective_microphone_name(Some(true), &None, &sel), sel);
    assert_eq!(effective_microphone_name(Some(true), &None, &None), None);
    let names = vec!["Built-in".to_string(), "USB Mic".to_string(), "USB Mic".to_string()];
    assert_eq!(find_device(&names, &"USB Mic".to_string()), Some(1));
    assert_eq!(find_device(&names, &"Nope".to_string()), None);
}

#[test]
fn error_messages() {
    assert_eq!(RecordingError::AlreadyRecording.message(), "Already recording");
    assert_eq!(RecordingError::RecorderUnavailable.message(), "Recorder not available");
    assert_eq!(StreamError::NoInputDevice.message(), "No input device found");
    assert_eq!(
        RecordingError::Stream(StreamError::RecorderOpen("busy".to_string())).message(),
        "Failed to open recorder: busy"
    );
    assert_eq!(StreamError::RecorderCreation("Failed to create SileroVad: x".to_string()).message(), "Failed to create SileroVad: x");
}

#[test]
fn loopback_recorder_new_does_not_panic() {
    let rec = LoopbackLink::new();
    assert!(!rec.worker_running);
    assert!(rec.open_needed());
}

#[test]
fn stop_without_open_returns_empty() {
    let rec = LoopbackLink::new();
    assert!(!rec.forwards_commands());
    let result: Vec<f32> = stop_if_open(Ok(Vec::new()));
    assert!(result.is_empty());
}

#[test]
fn loopback_worker_lifecycle() {
    let mut link = LoopbackLink::new();
    assert!(link.worker_ready(Err("denied".to_string())).is_err());
    assert!(link.open_needed());
    assert!(link.worker_ready(Ok(())).is_ok());
    assert!(!link.open_needed());
    assert!(link.forwards_commands());
    assert_eq!(stop_if_open(Ok(vec![1.0f32, 2.0])), vec![1.0, 2.0]);
    assert!(stop_if_open::<f32>(Err("worker gone".to_string())).is_empty());
    assert!(link.close());
    assert!(!link.close());
}

#[test]
fn capture_commands() {
    let mut s: CaptureSession<f32> = CaptureSession::new();
    assert_eq!(s.on_command(LoopbackCommand::Start), CommandStep::Continue);
    assert!(s.recording);
    s.push_frame(&[0.5]);
    assert_eq!(s.on_command(LoopbackCommand::Stop), CommandStep::FlushAndReply);
    assert_eq!(s.stop(vec![0.25]), vec![0.5, 0.25]);
    assert_eq!(s.on_command(LoopbackCommand::Shutdown), CommandStep::Exit);
}

#[test]
fn linux_muting_stops_at_first_success() {
    assert_eq!(next_mute_command(0, false), Some(0));
    assert_eq!(next_mute_command(1, false), Some(1));
    assert_eq!(next_mute_command(2, true), None);
    assert_eq!(next_mute_command(2, false), Some(2));
    assert_eq!(next_mute_command(3, false), None);
}

#[test]
fn macos_mute_is_one_osascript() {
    let cmd = macos_mute_command(true);
    assert_eq!(cmd.program, "osascript");
    assert_eq!(cmd.args, vec!["-e", "set volume output muted true"]);
    assert_eq!(macos_mute_command(false).args[1], "set volume output muted false");
}
