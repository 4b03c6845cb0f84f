//! The command handling of the system-audio (loopback) capture worker.
//!
//! The worker captures packets continuously; it keeps what it resamples only
//! between a `Start` and the next `Stop`, and hands that back on `Stop`.

use vstd::prelude::*;

verus! {

/// The commands the capture worker takes.
#[derive(Clone, Copy, Debug, PartialEq, Eq)]
pub enum LoopbackCommand {
    /// Begin keeping captured audio, dropping anything kept before.
    Start,
    /// Stop keeping audio and hand back what was kept.
    Stop,
    /// End the worker.
    Shutdown,
}

/// What the capture worker does after taking a command.
#[derive(Clone, Copy, Debug, PartialEq, Eq)]
pub enum CommandStep {
    /// Go on capturing.
    Continue,
    /// Flush the resampler into `stop`, and send back what it returns.
    FlushAndReply,
    /// End the worker.
    Exit,
}

/// Whether the loopback capture worker runs, as its owner sees it.
#[derive(Clone, Copy, Debug)]
pub struct LoopbackLink {
    pub worker_running: bool,
}

/// What a stop hands back from the worker's reply: the audio, or nothing
/// when the worker could not be reached.
pub fn stop_if_open<T>(reply: Result<Vec<T>, String>) -> (out: Vec<T>)
    ensures
        reply matches Ok(v) ==> out == v,
        reply is Err ==> out@.len() == 0,
{
    match reply {
        Ok(v) => v,
        Err(_) => Vec::new(),
    }
}

impl LoopbackLink {
    /// No worker yet.
    pub fn new() -> (l: Self)
        ensures
            !l.worker_running,
    {
        LoopbackLink { worker_running: false }
    }

    /// Opening starts a worker only when none runs.
    pub fn open_needed(&self) -> (needed: bool)
        ensures
            needed == !self.worker_running,
    {
        !self.worker_running
    }

    /// Reports how the new worker's capture initialised.
    pub fn worker_ready(&mut self, init: Result<(), String>) -> (r: Result<(), String>)
        ensures
            r == init,
            final(self).worker_running == (init is Ok || old(self).worker_running),
    {
        if init.is_ok() {
            self.worker_running = true;
        }
        init
    }

    /// Commands go to the worker only while it runs; a stop without a
    /// worker hands back no audio.
    pub fn forwards_commands(&self) -> (r: bool)
        ensures
            r == self.worker_running,
    {
        self.worker_running
    }

    /// Closing: returns whether a worker has to be shut down and joined.
    pub fn close(&mut self) -> (had_worker: bool)
        ensures
            had_worker == old(self).worker_running,
            !final(self).worker_running,
    {
        let had_worker = self.worker_running;
        self.worker_running = false;
        had_worker
    }
}

/// What the capture worker keeps between commands.
#[derive(Clone, Debug)]
pub struct CaptureSession<T> {
    /// Captured audio is being kept.
    pub recording: bool,
    /// The audio kept since the last `Start`, resampled.
    pub buffer: Vec<T>,
}

impl<T: Copy> CaptureSession<T> {
    /// A worker that keeps nothing yet.
    pub fn new() -> (s: Self)
        ensures
            !s.recording,
            s.buffer@.len() == 0,
    {
        CaptureSession { recording: false, buffer: Vec::new() }
    }

    /// `Start`: keep captured audio from now on, from an empty buffer.
    pub fn start(&mut self)
        ensures
            final(self).recording,
            final(self).buffer@.len() == 0,
    {
        self.recording = true;
        self.buffer.clear();
    }

    /// `Stop`: stop keeping audio and hand back what was kept, followed by
    /// `flushed` (what the resampler still held).
    pub fn stop(&mut self, flushed: Vec<T>) -> (kept: Vec<T>)
        ensures
            !final(self).recording,
            final(self).buffer@.len() == 0,
            kept@ == old(self).buffer@ + flushed@,
    {
        self.recording = false;
        let mut flushed = flushed;
        self.buffer.append(&mut flushed);
        let mut kept: Vec<T> = Vec::new();
        std::mem::swap(&mut kept, &mut self.buffer);
        kept
    }

    /// Takes a command: `Start` starts keeping audio; `Stop` asks for the
    /// flush and the reply (through `stop`); `Shutdown` ends the worker.
    pub fn on_command(&mut self, cmd: LoopbackCommand) -> (step: CommandStep)
        ensures
            cmd == LoopbackCommand::Start ==> step == CommandStep::Continue && final(self).recording
                && final(self).buffer@.len() == 0,
            cmd == LoopbackCommand::Stop ==> step == CommandStep::FlushAndReply && *final(self)
                == *old(self),
            cmd == LoopbackCommand::Shutdown ==> step == CommandStep::Exit && *final(self)
                == *old(self),
    {
        match cmd {
            LoopbackCommand::Start => {
                self.start();
                CommandStep::Continue
            },
            LoopbackCommand::Stop => CommandStep::FlushAndReply,
            LoopbackCommand::Shutdown => CommandStep::Exit,
        }
    }

    /// Whether a packet of `num_frames` frames is kept.
    pub fn keeps_packet(&self, num_frames: u32) -> (keep: bool)
        ensures
            keep == (self.recording && num_frames > 0),
    {
        self.recording && num_frames > 0
    }

    /// Keeps one resampled frame.
    pub fn push_frame(&mut self, frame: &[T])
        ensures
            final(self).recording == old(self).recording,
            final(self).buffer@ == old(self).buffer@ + frame@,
    {
        let mut i: usize = 0;
        let ghost start = self.buffer@;
        while i < frame.len()
            invariant
                i <= frame@.len(),
                self.recording == old(self).recording,
                self.buffer@ == start + frame@.take(i as int),
            decreases frame@.len() - i,
        {
            self.buffer.push(frame[i]);
            i = i + 1;
            assert(self.buffer@ =~= start + frame@.take(i as int));
        }
        assert(frame@.take(frame@.len() as int) =~= frame@);
    }
}

} // verus!
