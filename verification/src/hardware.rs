//! Hardware registry: the three singleton hardware kinds, the capability
//! trait they share, the auxiliary-device model with its stream-writer
//! slot, and the per-frame ingestion step of a device's telemetry task.
//!
//! The registry holds zero-or-one instance of each singleton kind plus a
//! dynamic list of auxiliary devices whose names are unique.

use vstd::prelude::*;

use crate::codec::MAGIC;
use crate::codec::STATE_CODE;
use crate::codec::Message;
use crate::codec::decode;
use crate::codec::payload_words;
use crate::sink::DataSink;

verus! {

/// The three singleton hardware kinds an instruction can require.
#[derive(Clone, Copy, Debug, PartialEq, Eq, Structural)]
pub enum HardwareKind {
    RobotArm,
    LoadCell,
    WindShape,
}

impl HardwareKind {
    /// The name an error carries for a missing kind.
    pub open spec fn name_spec(self) -> Seq<char> {
        match self {
            HardwareKind::RobotArm => "RobotArm"@,
            HardwareKind::LoadCell => "LoadCell"@,
            HardwareKind::WindShape => "WindShape"@,
        }
    }

    /// The kind's name, for reporting which hardware was missing.
    pub fn name(&self) -> (s: String)
        ensures
            s@ == self.name_spec(),
    {
        match self {
            HardwareKind::RobotArm => String::from_str("RobotArm"),
            HardwareKind::LoadCell => String::from_str("LoadCell"),
            HardwareKind::WindShape => String::from_str("WindShape"),
        }
    }
}

/// The capability interface shared by every hardware kind. The lifecycle
/// hooks (start, stop, bias, clear-error) are best-effort calls performed
/// by the surrounding runtime; what the verified core needs of an agent is
/// which kind it is, so a missing agent can be reported by name.
pub trait HardwareAgent: Sized {
    /// The kind this agent controls.
    spec fn kind_spec() -> HardwareKind;

    /// The kind this agent controls.
    fn kind() -> (k: HardwareKind)
        ensures
            k == Self::kind_spec(),
    ;
}

/// The robot-arm agent.
#[derive(Clone, Copy, Debug, PartialEq, Eq, Structural)]
pub struct RobotArm {}

/// The load-cell agent.
#[derive(Clone, Copy, Debug, PartialEq, Eq, Structural)]
pub struct LoadCell {}

/// The wind-generation-device agent.
#[derive(Clone, Copy, Debug, PartialEq, Eq, Structural)]
pub struct WindShape {}

impl HardwareAgent for RobotArm {
    open spec fn kind_spec() -> HardwareKind {
        HardwareKind::RobotArm
    }

    fn kind() -> (k: HardwareKind) {
        HardwareKind::RobotArm
    }
}

impl HardwareAgent for LoadCell {
    open spec fn kind_spec() -> HardwareKind {
        HardwareKind::LoadCell
    }

    fn kind() -> (k: HardwareKind) {
        HardwareKind::LoadCell
    }
}

impl HardwareAgent for WindShape {
    open spec fn kind_spec() -> HardwareKind {
        HardwareKind::WindShape
    }

    fn kind() -> (k: HardwareKind) {
        HardwareKind::WindShape
    }
}

/// Static identity of one auxiliary device: its unique name and its
/// ordered channel list, whose length is the arity of every state frame
/// the device sends. Network addressing lives with the runtime that owns
/// the socket.
#[derive(Clone, Debug)]
pub struct DeviceConfig {
    pub name: String,
    pub channels: Vec<String>,
}

impl DeviceConfig {
    /// A state frame of this arity must fit in an addressable buffer.
    pub open spec fn wf(self) -> bool {
        4 * self.channels@.len() + 2 <= usize::MAX
    }
}

/// What one received datagram did to the sink.
#[derive(Clone, Copy, Debug, PartialEq, Eq, Structural)]
pub enum IngestOutcome {
    /// No stream writer is attached yet; the frame was discarded silently.
    Skipped,
    /// A well-formed state frame: its samples went to the stream writer.
    Forwarded,
    /// An error frame or a malformed frame: dropped, ingestion continues.
    Dropped,
}

/// One auxiliary device: its configuration and the stream-writer slot its
/// ingestion task reads. The slot is empty until registration completes
/// and is written exactly once, with the index of the writer the sink
/// bound to this device's channel group.
pub struct Device {
    pub config: DeviceConfig,
    pub stream: Option<usize>,
}

impl Device {
    pub open spec fn wf(self) -> bool {
        self.config.wf()
    }

    /// The stream slot, if attached, names a writer of this device's
    /// arity in the given sink.
    pub open spec fn attached_to(self, sink: DataSink) -> bool {
        match self.stream {
            Some(i) => i < sink.streams@.len() && sink.streams@[i as int].channels@.len()
                == self.config.channels@.len(),
            None => true,
        }
    }

    /// A freshly connected device: configured, with no writer attached.
    pub fn connect(config: DeviceConfig) -> (d: Device)
        requires
            config.wf(),
        ensures
            d.config == config,
            d.stream is None,
            d.wf(),
    {
        Device { config, stream: None }
    }

    /// A freshly connected device for a borrowed configuration.
    pub fn connect_from_config(config: &DeviceConfig) -> (d: Device)
        requires
            config.wf(),
        ensures
            d.config.name@ == config.name@,
            d.config.channels@ == config.channels@,
            d.stream is None,
            d.wf(),
    {
        let name = config.name.clone();
        let channels = config.channels.clone();
        proof {
            assert(channels@ =~= config.channels@);
        }
        Device::connect(DeviceConfig { name, channels })
    }

    /// The device's static configuration.
    pub fn config(&self) -> (c: &DeviceConfig)
        ensures
            c == &self.config,
    {
        &self.config
    }

    /// Registers this device's channel group with the sink under
    /// construction and retains the returned stream-writer index.
    pub fn register(&mut self, sink: &mut DataSink)
        requires
            old(self).wf(),
            old(sink).wf(),
            !old(sink).recording,
            old(sink).streams@.len() < usize::MAX,
        ensures
            final(self).wf(),
            final(self).config == old(self).config,
            final(self).stream == Some(old(sink).streams@.len() as usize),
            final(self).attached_to(*final(sink)),
            final(sink).wf(),
            !final(sink).recording,
            final(sink).streams@.len() == old(sink).streams@.len() + 1,
            final(sink).streams@.subrange(0, old(sink).streams@.len() as int) == old(
                sink,
            ).streams@,
            final(sink).streams@[old(sink).streams@.len() as int].name@ == old(
                self,
            ).config.name@,
            final(sink).streams@[old(sink).streams@.len() as int].channels@.len() == old(
                self,
            ).config.channels@.len(),
            final(sink).buffer@ == old(sink).buffer@,
            final(sink).clock == old(sink).clock,
    {
        let name = self.config.name.clone();
        let channels = self.config.channels.clone();
        proof {
            assert(channels@ =~= self.config.channels@);
        }
        let idx = sink.register_stream(name, channels);
        self.stream = Some(idx);
        proof {
            assert(final(sink).streams@.subrange(0, old(sink).streams@.len() as int) =~= old(
                sink,
            ).streams@);
        }
    }

    /// One iteration of the device's ingestion task, after a datagram has
    /// arrived and been timestamped. If no writer is attached yet the
    /// frame is discarded untouched; otherwise the frame is decoded with
    /// this device's arity, a state frame's words are forwarded to the
    /// writer, and an error frame or a malformed frame is dropped —
    /// ingestion never fails on a single bad frame.
    pub fn ingest(&self, sink: &mut DataSink, now: u64, buf: &Vec<u8>) -> (r: IngestOutcome)
        requires
            self.wf(),
            old(sink).wf(),
            now >= old(sink).clock,
            self.attached_to(*old(sink)),
        ensures
            final(sink).wf(),
            self.stream is None ==> (r == IngestOutcome::Skipped && *final(sink) == *old(sink)),
            self.stream is Some ==> ({
                let i = self.stream->Some_0;
                let n = self.config.channels@.len();
                if buf@.len() == 2 + 4 * n && buf@[0] == MAGIC && buf@[1] == STATE_CODE {
                    &&& r == IngestOutcome::Forwarded
                    &&& final(sink).clock == now
                    &&& final(sink).streams == old(sink).streams
                    &&& final(sink).recording == old(sink).recording
                    &&& final(sink).start_time == old(sink).start_time
                    &&& (old(sink).recording ==> {
                        &&& final(sink).buffer@.len() == old(sink).buffer@.len() + 1
                        &&& final(sink).buffer@.subrange(0, old(sink).buffer@.len() as int)
                            == old(sink).buffer@
                        &&& final(sink).buffer@.last().stream == i
                        &&& final(sink).buffer@.last().time == now
                        &&& final(sink).buffer@.last().values@ == payload_words(buf@, n)
                    })
                    &&& (!old(sink).recording ==> final(sink).buffer@ == old(sink).buffer@)
                } else {
                    r == IngestOutcome::Dropped && *final(sink) == *old(sink)
                }
            }),
    {
        match self.stream {
            None => IngestOutcome::Skipped,
            Some(i) => {
                match decode(buf, self.config.channels.len()) {
                    Ok(Message::State(values)) => {
                        proof {
                            assert(values@ == payload_words(
                                buf@,
                                self.config.channels@.len(),
                            ));
                        }
                        sink.add(i, now, values);
                        proof {
                            if old(sink).recording {
                                assert(sink.buffer@.subrange(
                                    0,
                                    old(sink).buffer@.len() as int,
                                ) =~= old(sink).buffer@);
                            }
                        }
                        IngestOutcome::Forwarded
                    },
                    _ => IngestOutcome::Dropped,
                }
            },
        }
    }
}

/// The typed hardware registry: zero-or-one instance of each singleton
/// kind, plus the dynamic list of auxiliary devices. Constructed once at
/// startup; slots of absent hardware stay empty.
pub struct HardwareContext {
    pub robot_arm: Option<RobotArm>,
    pub load_cell: Option<LoadCell>,
    pub wind_shape: Option<WindShape>,
    pub additional_devices: Vec<Device>,
}

impl HardwareContext {
    /// Every auxiliary device is well formed and device names are unique
    /// within the list.
    pub open spec fn wf(self) -> bool {
        &&& forall|i: int|
            0 <= i < self.additional_devices@.len() ==> (
            #[trigger] self.additional_devices@[i]).wf()
        &&& forall|i: int, j: int|
            0 <= i < j < self.additional_devices@.len()
                ==> (#[trigger] self.additional_devices@[i]).config.name@ != (
            #[trigger] self.additional_devices@[j]).config.name@
    }

    /// Whether some auxiliary device carries this name.
    pub open spec fn has_device(self, name: Seq<char>) -> bool {
        exists|i: int|
            0 <= i < self.additional_devices@.len() && (
            #[trigger] self.additional_devices@[i]).config.name@ == name
    }

    /// A registry with no hardware connected.
    pub fn empty() -> (c: HardwareContext)
        ensures
            c.wf(),
            c.robot_arm is None,
            c.load_cell is None,
            c.wind_shape is None,
            c.additional_devices@.len() == 0,
    {
        HardwareContext {
            robot_arm: None,
            load_cell: None,
            wind_shape: None,
            additional_devices: Vec::new(),
        }
    }

    /// Looks the named auxiliary device up by exact name match, returning
    /// the first match in list order.
    pub fn find_device(&self, name: &String) -> (r: Option<usize>)
        ensures
            r matches Some(i) ==> i < self.additional_devices@.len()
                && self.additional_devices@[i as int].config.name@ == name@
                && (forall|j: int|
                    0 <= j < i ==> (#[trigger] self.additional_devices@[j]).config.name@
                        != name@),
            r is Some <==> self.has_device(name@),
    {
        let mut i: usize = 0;
        while i < self.additional_devices.len()
            invariant
                i <= self.additional_devices@.len(),
                forall|j: int|
                    0 <= j < i ==> (#[trigger] self.additional_devices@[j]).config.name@
                        != name@,
            decreases self.additional_devices@.len() - i,
        {
            if self.additional_devices[i].config.name == *name {
                return Some(i);
            }
            i = i + 1;
        }
        None
    }
}

} // verus!
