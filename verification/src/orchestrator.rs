//! The top-level coordinator. Construction builds the data sink from the
//! hardware registry, registering one stream writer per auxiliary device.
//! Recording runs bracket instruction execution: the runtime opens a window
//! with `new_run`, drives an [`crate::exec::Executor`] over the sequence,
//! and closes the window with `save_run`, handing the materialized run to
//! the session for persistence.

use vstd::prelude::*;

use crate::exec::ExecError;
use crate::hardware::HardwareAgent;
use crate::hardware::HardwareContext;
use crate::sink::DataSink;
use crate::sink::Run;

verus! {

/// Requires a singleton agent to be present, failing with
/// `HardwareUnavailable` naming the agent's kind when its slot is empty.
pub fn require_agent<T: HardwareAgent>(module: &Option<T>) -> (r: Result<&T, ExecError>)
    ensures
        module is Some ==> (r matches Ok(a) && *a == module->Some_0),
        module is None ==> r == Err::<&T, ExecError>(
            ExecError::HardwareUnavailable(T::kind_spec()),
        ),
{
    match module {
        Some(a) => Ok(a),
        None => Err(ExecError::HardwareUnavailable(T::kind())),
    }
}

/// Owns the hardware registry and the data sink.
pub struct Orchestrator {
    pub context: HardwareContext,
    pub sink: DataSink,
}

impl Orchestrator {
    pub open spec fn wf(self) -> bool {
        &&& self.context.wf()
        &&& self.sink.wf()
        &&& forall|i: int|
            0 <= i < self.context.additional_devices@.len() ==> (
            #[trigger] self.context.additional_devices@[i]).attached_to(self.sink)
    }

    /// Builds the sink for the given registry: every auxiliary device's
    /// channel group is registered in registry order, and each device
    /// retains the index of its stream writer. Singleton slots are kept
    /// as handed in.
    pub fn try_new(context: HardwareContext) -> (o: Orchestrator)
        requires
            context.wf(),
        ensures
            o.wf(),
            !o.sink.recording,
            o.sink.buffer@.len() == 0,
            o.context.robot_arm == context.robot_arm,
            o.context.load_cell == context.load_cell,
            o.context.wind_shape == context.wind_shape,
            o.context.additional_devices@.len() == context.additional_devices@.len(),
            o.sink.streams@.len() == context.additional_devices@.len(),
            forall|i: int|
                0 <= i < context.additional_devices@.len() ==> {
                    &&& (#[trigger] o.context.additional_devices@[i]).config
                        == context.additional_devices@[i].config
                    &&& o.context.additional_devices@[i].stream == Some(i as usize)
                    &&& o.sink.streams@[i].name@
                        == context.additional_devices@[i].config.name@
                    &&& o.sink.streams@[i].channels@.len()
                        == context.additional_devices@[i].config.channels@.len()
                },
    {
        let mut context = context;
        let ghost orig = context;
        let mut sink = DataSink::new();
        let n = context.additional_devices.len();
        let mut i: usize = 0;
        while i < n
            invariant
                i <= n,
                n == context.additional_devices@.len(),
                n == orig.additional_devices@.len(),
                orig.wf(),
                context.robot_arm == orig.robot_arm,
                context.load_cell == orig.load_cell,
                context.wind_shape == orig.wind_shape,
                sink.wf(),
                !sink.recording,
                sink.buffer@.len() == 0,
                sink.streams@.len() == i,
                forall|j: int|
                    0 <= j < n ==> (#[trigger] context.additional_devices@[j]).config
                        == orig.additional_devices@[j].config,
                forall|j: int|
                    0 <= j < i ==> (#[trigger] context.additional_devices@[j]).stream == Some(
                        j as usize,
                    ),
                forall|j: int|
                    0 <= j < i ==> (#[trigger] sink.streams@[j]).name@
                        == orig.additional_devices@[j].config.name@,
                forall|j: int|
                    0 <= j < i ==> (#[trigger] sink.streams@[j]).channels@.len()
                        == orig.additional_devices@[j].config.channels@.len(),
            decreases n - i,
        {
            proof {
                assert(orig.additional_devices@[i as int].wf());
            }
            let ghost pre_sink = sink;
            let d = &mut context.additional_devices[i];
            d.register(&mut sink);
            proof {
                assert forall|j: int| 0 <= j < i as int implies (#[trigger] sink.streams@[j])
                    == pre_sink.streams@[j] by {
                    assert(sink.streams@.subrange(0, pre_sink.streams@.len() as int)[j]
                        == sink.streams@[j]);
                }
            }
            i = i + 1;
        }
        Orchestrator { context, sink }
    }

    /// The mutable hardware registry, for startup wiring.
    pub fn context(&mut self) -> (r: &mut HardwareContext)
        ensures
            *r == old(self).context,
            final(self).context == *final(r),
            final(self).sink == old(self).sink,
    {
        &mut self.context
    }

    /// Opens a recording window: from now on pushed samples are retained.
    pub fn new_run(&mut self, now: u64)
        requires
            old(self).wf(),
            !old(self).sink.recording,
            now >= old(self).sink.clock,
        ensures
            final(self).wf(),
            final(self).context == old(self).context,
            final(self).sink.recording,
            final(self).sink.start_time == now,
            final(self).sink.clock == now,
            final(self).sink.buffer@.len() == 0,
            final(self).sink.streams == old(self).sink.streams,
    {
        self.sink.start_recording(now);
    }

    /// Closes the open window and materializes the run — exactly the
    /// samples accepted since the matching `new_run`, each stamped within
    /// the window. The caller hands the run to the session.
    pub fn save_run(&mut self, now: u64) -> (run: Run)
        requires
            old(self).wf(),
            old(self).sink.recording,
            now >= old(self).sink.clock,
        ensures
            final(self).wf(),
            final(self).context == old(self).context,
            !final(self).sink.recording,
            final(self).sink.streams == old(self).sink.streams,
            run.start == old(self).sink.start_time,
            run.stop == now,
            run.samples@ == old(self).sink.buffer@,
            forall|i: int|
                0 <= i < run.samples@.len() ==> run.start <= (#[trigger] run.samples@[i]).time
                    <= run.stop,
    {
        self.sink.stop_recording(now)
    }
}

} // verus!
