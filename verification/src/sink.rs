//! Data sink: owns one stream writer per registered channel group and gates
//! every incoming sample on the recording flag.
//!
//! Ingestion pushes timestamped samples continuously; only samples that
//! arrive while a recording window is open are retained. Stopping a window
//! materializes a [`Run`] holding exactly the samples accepted since the
//! matching start, each stamped inside the window.
//!
//! Timestamps are ticks of the process's monotonic clock, so every call
//! hands the sink a timestamp no older than the one it saw last.

use vstd::prelude::*;

verus! {

/// One timestamped sample: the index of the stream writer it was pushed to,
/// its arrival time, and one 32-bit word per channel (the IEEE-754 bit
/// pattern of each channel's value, in channel order).
#[derive(Clone, Debug, PartialEq)]
pub struct Sample {
    pub stream: usize,
    pub time: u64,
    pub values: Vec<u32>,
}

/// The channel group one stream writer is bound to: the owning device's
/// name and its ordered channel list. The list's length is the arity every
/// sample pushed to this writer must have.
#[derive(Clone, Debug, PartialEq)]
pub struct ChannelGroup {
    pub name: String,
    pub channels: Vec<String>,
}

/// The telemetry recorded in one start/stop window. Immutable once built.
#[derive(Clone, Debug, PartialEq)]
pub struct Run {
    pub start: u64,
    pub stop: u64,
    pub samples: Vec<Sample>,
}

/// Owns all stream writers and the recording gate.
pub struct DataSink {
    pub streams: Vec<ChannelGroup>,
    pub recording: bool,
    pub start_time: u64,
    pub clock: u64,
    pub buffer: Vec<Sample>,
}

impl DataSink {
    /// Well-formedness: the buffer only ever holds samples accepted during
    /// the currently open window — stamped between the window's start and
    /// the last observed clock tick, bound to an existing stream, and of
    /// that stream's arity. Outside a window the buffer is empty.
    pub open spec fn wf(self) -> bool {
        &&& (self.recording ==> self.start_time <= self.clock)
        &&& (!self.recording ==> self.buffer@.len() == 0)
        &&& forall|i: int|
            0 <= i < self.buffer@.len() ==> {
                &&& (#[trigger] self.buffer@[i]).stream < self.streams@.len()
                &&& self.buffer@[i].values@.len() == self.streams@[
                    self.buffer@[i].stream as int
                ].channels@.len()
                &&& self.start_time <= self.buffer@[i].time
                &&& self.buffer@[i].time <= self.clock
            }
    }

    /// An empty sink with no writers, in discard mode.
    pub fn new() -> (s: DataSink)
        ensures
            s.wf(),
            !s.recording,
            s.streams@.len() == 0,
            s.buffer@.len() == 0,
            s.clock == 0,
    {
        DataSink {
            streams: Vec::new(),
            recording: false,
            start_time: 0,
            clock: 0,
            buffer: Vec::new(),
        }
    }

    /// Registers one channel group and hands back the index of its stream
    /// writer. Registration happens while the sink is still being built,
    /// before any window is opened.
    pub fn register_stream(&mut self, name: String, channels: Vec<String>) -> (idx: usize)
        requires
            old(self).wf(),
            !old(self).recording,
            old(self).streams@.len() < usize::MAX,
        ensures
            final(self).wf(),
            !final(self).recording,
            idx == old(self).streams@.len(),
            final(self).streams@ == old(self).streams@.push(ChannelGroup { name, channels }),
            final(self).buffer@ == old(self).buffer@,
            final(self).clock == old(self).clock,
            final(self).start_time == old(self).start_time,
    {
        let idx = self.streams.len();
        self.streams.push(ChannelGroup { name, channels });
        idx
    }

    /// Opens a recording window at the given time: from now on, pushed
    /// samples are retained. At most one window is open at a time.
    pub fn start_recording(&mut self, now: u64)
        requires
            old(self).wf(),
            !old(self).recording,
            now >= old(self).clock,
        ensures
            final(self).wf(),
            final(self).recording,
            final(self).start_time == now,
            final(self).clock == now,
            final(self).buffer@.len() == 0,
            final(self).streams == old(self).streams,
    {
        self.recording = true;
        self.start_time = now;
        self.clock = now;
    }

    /// Pushes one sample to the given stream writer. Retained exactly when
    /// a window is open; a no-op (beyond observing the clock) otherwise.
    pub fn add(&mut self, stream: usize, now: u64, values: Vec<u32>)
        requires
            old(self).wf(),
            now >= old(self).clock,
            stream < old(self).streams@.len(),
            values@.len() == old(self).streams@[stream as int].channels@.len(),
        ensures
            final(self).wf(),
            final(self).clock == now,
            final(self).streams == old(self).streams,
            final(self).recording == old(self).recording,
            final(self).start_time == old(self).start_time,
            old(self).recording ==> final(self).buffer@ == old(self).buffer@.push(
                Sample { stream, time: now, values },
            ),
            !old(self).recording ==> final(self).buffer@ == old(self).buffer@,
    {
        self.clock = now;
        if self.recording {
            self.buffer.push(Sample { stream, time: now, values });
        }
    }

    /// Closes the open window at the given time and materializes the run:
    /// exactly the samples accepted since the matching start, every one
    /// stamped within the window. The sink returns to discard mode.
    pub fn stop_recording(&mut self, now: u64) -> (run: Run)
        requires
            old(self).wf(),
            old(self).recording,
            now >= old(self).clock,
        ensures
            final(self).wf(),
            !final(self).recording,
            final(self).buffer@.len() == 0,
            final(self).streams == old(self).streams,
            final(self).clock == now,
            run.start == old(self).start_time,
            run.stop == now,
            run.samples@ == old(self).buffer@,
            forall|i: int|
                0 <= i < run.samples@.len() ==> run.start <= (#[trigger] run.samples@[i]).time
                    <= run.stop,
    {
        self.recording = false;
        self.clock = now;
        let mut samples: Vec<Sample> = Vec::new();
        core::mem::swap(&mut samples, &mut self.buffer);
        Run { start: self.start_time, stop: now, samples }
    }
}

} // verus!
