//! How the system output gets muted and unmuted on Linux and macOS.
//!
//! Running the commands is the caller's work; which commands run, with which
//! arguments, in which order and when to stop, is decided here. Windows mutes
//! through COM, which the caller does.

use vstd::prelude::*;

verus! {

/// One command to run.
#[derive(Clone, Debug)]
pub struct MuteCommand {
    pub program: &'static str,
    pub args: Vec<&'static str>,
}

/// The `set-mute` value of the PipeWire and PulseAudio tools.
pub open spec fn mute_flag(mute: bool) -> &'static str {
    if mute {
        "1"
    } else {
        "0"
    }
}

/// Linux: the commands to try in order, stopping at the first that
/// succeeds — PipeWire (`wpctl`), then PulseAudio (`pactl`), then ALSA
/// (`amixer`, whose outcome is not checked).
pub fn linux_mute_commands(mute: bool) -> (cmds: Vec<MuteCommand>)
    ensures
        cmds@.len() == 3,
        cmds@[0].program == "wpctl",
        cmds@[0].args@ == seq!["set-mute", "@DEFAULT_AUDIO_SINK@", mute_flag(mute)],
        cmds@[1].program == "pactl",
        cmds@[1].args@ == seq!["set-sink-mute", "@DEFAULT_SINK@", mute_flag(mute)],
        cmds@[2].program == "amixer",
        cmds@[2].args@ == seq![
            "set",
            "Master",
            if mute {
                "mute"
            } else {
                "unmute"
            },
        ],
{
    let flag: &'static str = if mute {
        "1"
    } else {
        "0"
    };
    let amixer_state: &'static str = if mute {
        "mute"
    } else {
        "unmute"
    };
    let mut wpctl_args: Vec<&'static str> = Vec::new();
    wpctl_args.push("set-mute");
    wpctl_args.push("@DEFAULT_AUDIO_SINK@");
    wpctl_args.push(flag);
    let mut pactl_args: Vec<&'static str> = Vec::new();
    pactl_args.push("set-sink-mute");
    pactl_args.push("@DEFAULT_SINK@");
    pactl_args.push(flag);
    let mut amixer_args: Vec<&'static str> = Vec::new();
    amixer_args.push("set");
    amixer_args.push("Master");
    amixer_args.push(amixer_state);
    let mut cmds: Vec<MuteCommand> = Vec::new();
    cmds.push(MuteCommand { program: "wpctl", args: wpctl_args });
    cmds.push(MuteCommand { program: "pactl", args: pactl_args });
    cmds.push(MuteCommand { program: "amixer", args: amixer_args });
    assert(cmds@[0].args@ =~= seq!["set-mute", "@DEFAULT_AUDIO_SINK@", mute_flag(mute)]);
    assert(cmds@[1].args@ =~= seq!["set-sink-mute", "@DEFAULT_SINK@", mute_flag(mute)]);
    cmds
}

/// Linux: the command to run next, given how many of the
/// `linux_mute_commands` were run and whether the last one succeeded (false
/// before the first). Running stops after the first success, and after the
/// third command whatever its outcome.
pub fn next_mute_command(tried: usize, last_succeeded: bool) -> (next: Option<usize>)
    ensures
        next == (if last_succeeded || tried >= 3 {
            None::<usize>
        } else {
            Some(tried)
        }),
{
    if last_succeeded || tried >= 3 {
        None
    } else {
        Some(tried)
    }
}

/// macOS: the one command to run, `osascript -e` with the script.
pub fn macos_mute_command(mute: bool) -> (cmd: MuteCommand)
    ensures
        cmd.program == "osascript",
        cmd.args@ == seq![
            "-e",
            if mute {
                "set volume output muted true"
            } else {
                "set volume output muted false"
            },
        ],
{
    let mut args: Vec<&'static str> = Vec::new();
    args.push("-e");
    args.push(macos_mute_script(mute));
    let cmd = MuteCommand { program: "osascript", args };
    assert(cmd.args@ =~= seq![
        "-e",
        if mute {
            "set volume output muted true"
        } else {
            "set volume output muted false"
        },
    ]);
    cmd
}

/// macOS: the AppleScript handed to `osascript -e`.
pub fn macos_mute_script(mute: bool) -> (script: &'static str)
    ensures
        script == (if mute {
            "set volume output muted true"
        } else {
            "set volume output muted false"
        }),
{
    if mute {
        "set volume output muted true"
    } else {
        "set volume output muted false"
    }
}

} // verus!
