//! Instruction executor: resolves each scripted instruction against the
//! hardware registry and drives the `Idle -> Executing -> (Idle | Aborted)`
//! state machine. Instructions run strictly in order; the first failure —
//! a missing target at resolution, or a hardware command acknowledged with
//! an error — aborts the remaining sequence.
//!
//! The executor decides; the surrounding runtime performs. Each step hands
//! back a [`Directive`] naming the agent and command to issue; the runtime
//! issues it, awaits the acknowledgment, and feeds the [`Outcome`] back in.

use vstd::prelude::*;

use crate::hardware::HardwareContext;
use crate::hardware::HardwareKind;
use crate::hardware::LoadCell;
use crate::hardware::RobotArm;
use crate::hardware::WindShape;

verus! {

/// A load-cell command, carried through to the agent unread.
#[derive(Clone, Copy, Debug, PartialEq, Eq, Structural)]
pub struct LoadCommand {
    pub op: u64,
}

/// A robot-arm command, carried through to the agent unread.
#[derive(Clone, Copy, Debug, PartialEq, Eq, Structural)]
pub struct RobotCommand {
    pub op: u64,
}

/// A wind-device command. A fan speed is the IEEE-754 bit pattern of the
/// 32-bit floating-point speed; the executor reads it only to decide
/// whether a safety warning is due.
#[derive(Clone, Copy, Debug, PartialEq, Eq, Structural)]
pub enum WindCommand {
    SetFanSpeed(u32),
    Other(u64),
}

/// One scripted instruction. Device parameters are the IEEE-754 bit
/// patterns of the 32-bit floating-point values handed to the device;
/// sleep durations are in milliseconds.
#[derive(Clone, Debug, PartialEq)]
pub enum Instruction {
    Device(String, Vec<u32>),
    Load(LoadCommand),
    Robot(RobotCommand),
    Wind(WindCommand),
    BiasAll,
    Sleep(u64),
    Reset,
}

/// Why an instruction sequence aborted.
#[derive(Clone, Debug, PartialEq)]
pub enum ExecError {
    /// A required singleton agent is absent.
    HardwareUnavailable(HardwareKind),
    /// No auxiliary device carries the named identity.
    DeviceNotFound(String),
    /// The agent acknowledged the command with an error.
    CommandFailure(String),
}

/// What the runtime must do next: issue one command to one agent, invoke a
/// best-effort hook on every present agent, or suspend the executor.
#[derive(Clone, Debug, PartialEq)]
pub enum Directive {
    /// Issue the raw parameters to the auxiliary device at this registry
    /// index.
    Device { device: usize, params: Vec<u32> },
    Load(LoadCommand),
    Robot(RobotCommand),
    /// Issue the wind command; when `warn` is set, a non-blocking audio
    /// cue is due first, because the command sets a positive fan speed.
    Wind { command: WindCommand, warn: bool },
    /// Invoke bias on every present agent, in registry order.
    BiasAll,
    /// Suspend the executor (only) for this many milliseconds.
    Sleep(u64),
    /// Invoke clear-error on every present agent, in registry order.
    Reset,
}

impl Directive {
    /// Whether the runtime awaits a fallible hardware acknowledgment for
    /// this directive. Lifecycle hooks and sleeps are best-effort and
    /// never fail the sequence.
    pub open spec fn fallible(self) -> bool {
        match self {
            Directive::Device { .. } => true,
            Directive::Load(_) => true,
            Directive::Robot(_) => true,
            Directive::Wind { .. } => true,
            Directive::BiasAll => false,
            Directive::Sleep(_) => false,
            Directive::Reset => false,
        }
    }
}

/// The hardware's answer to one issued command.
#[derive(Clone, Debug, PartialEq)]
pub enum Outcome {
    Success,
    Failure(String),
}

/// Whether the IEEE-754 single-precision value with this bit pattern is
/// strictly greater than zero: sign bit clear, not a zero, and not a NaN
/// (exponent bits all set with a nonzero fraction).
pub open spec fn f32_bits_positive_spec(bits: u32) -> bool {
    bits & 0x8000_0000 == 0 && bits != 0 && !(bits & 0x7F80_0000 == 0x7F80_0000 && bits
        & 0x007F_FFFF != 0)
}

/// Decides strict positivity of a 32-bit float from its bit pattern.
pub fn f32_bits_positive(bits: u32) -> (r: bool)
    ensures
        r == f32_bits_positive_spec(bits),
{
    bits & 0x8000_0000 == 0 && bits != 0 && !(bits & 0x7F80_0000 == 0x7F80_0000 && bits
        & 0x007F_FFFF != 0)
}

/// Whether issuing this wind command is preceded by the audio safety
/// warning: exactly when it sets a strictly positive fan speed.
pub open spec fn wind_warns(c: WindCommand) -> bool {
    match c {
        WindCommand::SetFanSpeed(bits) => f32_bits_positive_spec(bits),
        WindCommand::Other(_) => false,
    }
}

/// Whether the instruction's target is present in the registry. Bias-all,
/// sleep and reset need no particular target.
pub open spec fn resolution_ok(ctx: HardwareContext, ins: Instruction) -> bool {
    match ins {
        Instruction::Device(name, _) => ctx.has_device(name@),
        Instruction::Load(_) => ctx.load_cell is Some,
        Instruction::Robot(_) => ctx.robot_arm is Some,
        Instruction::Wind(_) => ctx.wind_shape is Some,
        Instruction::BiasAll => true,
        Instruction::Sleep(_) => true,
        Instruction::Reset => true,
    }
}

/// The directive a resolvable instruction resolves to.
pub open spec fn resolution_matches(ctx: HardwareContext, ins: Instruction, d: Directive) -> bool {
    match ins {
        Instruction::Device(name, params) => d matches Directive::Device { device, params: p }
            && device < ctx.additional_devices@.len()
            && ctx.additional_devices@[device as int].config.name@ == name@ && (forall|j: int|
            0 <= j < device ==> (#[trigger] ctx.additional_devices@[j]).config.name@ != name@)
            && p@ == params@,
        Instruction::Load(c) => d == Directive::Load(c),
        Instruction::Robot(c) => d == Directive::Robot(c),
        Instruction::Wind(c) => d == (Directive::Wind { command: c, warn: wind_warns(c) }),
        Instruction::BiasAll => d == Directive::BiasAll,
        Instruction::Sleep(ms) => d == Directive::Sleep(ms),
        Instruction::Reset => d == Directive::Reset,
    }
}

/// The error an unresolvable instruction fails with: the missing hardware
/// kind, or the unknown device name.
pub open spec fn resolution_error(ctx: HardwareContext, ins: Instruction, e: ExecError) -> bool {
    match ins {
        Instruction::Device(name, _) => e matches ExecError::DeviceNotFound(n) && n@ == name@,
        Instruction::Load(_) => e == ExecError::HardwareUnavailable(HardwareKind::LoadCell),
        Instruction::Robot(_) => e == ExecError::HardwareUnavailable(HardwareKind::RobotArm),
        Instruction::Wind(_) => e == ExecError::HardwareUnavailable(HardwareKind::WindShape),
        Instruction::BiasAll => false,
        Instruction::Sleep(_) => false,
        Instruction::Reset => false,
    }
}

/// Resolves one instruction against the registry: the directive to issue,
/// or the failure that aborts the sequence.
pub fn resolve(ctx: &HardwareContext, ins: &Instruction) -> (r: Result<Directive, ExecError>)
    ensures
        resolution_ok(*ctx, *ins) ==> (r matches Ok(d) && resolution_matches(*ctx, *ins, d)),
        !resolution_ok(*ctx, *ins) ==> (r matches Err(e) && resolution_error(*ctx, *ins, e)),
{
    match ins {
        Instruction::Device(name, params) => {
            match ctx.find_device(name) {
                Some(i) => Ok(Directive::Device { device: i, params: params.clone() }),
                None => Err(ExecError::DeviceNotFound(name.clone())),
            }
        },
        Instruction::Load(c) => {
            match crate::orchestrator::require_agent::<LoadCell>(&ctx.load_cell) {
                Ok(_) => Ok(Directive::Load(*c)),
                Err(e) => Err(e),
            }
        },
        Instruction::Robot(c) => {
            match crate::orchestrator::require_agent::<RobotArm>(&ctx.robot_arm) {
                Ok(_) => Ok(Directive::Robot(*c)),
                Err(e) => Err(e),
            }
        },
        Instruction::Wind(c) => {
            match crate::orchestrator::require_agent::<WindShape>(&ctx.wind_shape) {
                Ok(_) => {
                    let warn = match c {
                        WindCommand::SetFanSpeed(bits) => f32_bits_positive(*bits),
                        WindCommand::Other(_) => false,
                    };
                    Ok(Directive::Wind { command: *c, warn })
                },
                Err(e) => Err(e),
            }
        },
        Instruction::BiasAll => Ok(Directive::BiasAll),
        Instruction::Sleep(ms) => Ok(Directive::Sleep(*ms)),
        Instruction::Reset => Ok(Directive::Reset),
    }
}

/// Where the executor stands.
#[derive(Clone, Copy, Debug, PartialEq, Eq, Structural)]
pub enum Phase {
    /// Ready to take the next instruction.
    Ready,
    /// A fallible command was issued; awaiting its acknowledgment.
    Awaiting,
    /// Every instruction ran; the sequence succeeded.
    Done,
    /// An instruction failed; the rest of the sequence never runs.
    Aborted,
}

/// Executes one instruction sequence, strictly in order, failing fast.
pub struct Executor {
    pub instructions: Vec<Instruction>,
    pub pos: usize,
    pub phase: Phase,
}

impl Executor {
    pub open spec fn wf(self) -> bool {
        &&& self.pos <= self.instructions@.len()
        &&& (self.phase == Phase::Done ==> self.pos == self.instructions@.len())
    }

    /// Whether the executor accepts a `step` call.
    pub open spec fn can_step(self) -> bool {
        self.phase == Phase::Ready
    }

    /// Whether the executor accepts an `ack` call.
    pub open spec fn can_ack(self) -> bool {
        self.phase == Phase::Awaiting
    }

    /// Takes ownership of the sequence; instructions are consumed once.
    pub fn new(instructions: Vec<Instruction>) -> (e: Executor)
        ensures
            e.wf(),
            e.instructions == instructions,
            e.pos == 0,
            e.phase == Phase::Ready,
    {
        Executor { instructions, pos: 0, phase: Phase::Ready }
    }

    /// Resolves the next instruction. Returns the directive the runtime
    /// must perform, `None` once the sequence is exhausted, or the
    /// resolution failure — which aborts everything that follows.
    pub fn step(&mut self, ctx: &HardwareContext) -> (r: Result<Option<Directive>, ExecError>)
        requires
            old(self).wf(),
            old(self).can_step(),
        ensures
            final(self).wf(),
            final(self).instructions == old(self).instructions,
            old(self).pos == old(self).instructions@.len() ==> (r matches Ok(None)
                && final(self).phase == Phase::Done
                && final(self).pos == old(self).pos),
            old(self).pos < old(self).instructions@.len() ==> ({
                let ins = old(self).instructions@[old(self).pos as int];
                &&& (resolution_ok(*ctx, ins) ==> (r matches Ok(Some(d))
                    && resolution_matches(*ctx, ins, d)
                    && final(self).pos == old(self).pos + 1
                    && final(self).phase == (if d.fallible() {
                        Phase::Awaiting
                    } else {
                        Phase::Ready
                    })))
                &&& (!resolution_ok(*ctx, ins) ==> (r matches Err(e)
                    && resolution_error(*ctx, ins, e)
                    && final(self).phase == Phase::Aborted
                    && final(self).pos == old(self).pos))
            }),
    {
        if self.pos == self.instructions.len() {
            self.phase = Phase::Done;
            return Ok(None);
        }
        let r = resolve(ctx, &self.instructions[self.pos]);
        match r {
            Ok(d) => {
                self.pos = self.pos + 1;
                let fallible = match &d {
                    Directive::Device { .. } => true,
                    Directive::Load(_) => true,
                    Directive::Robot(_) => true,
                    Directive::Wind { .. } => true,
                    Directive::BiasAll => false,
                    Directive::Sleep(_) => false,
                    Directive::Reset => false,
                };
                self.phase = if fallible {
                    Phase::Awaiting
                } else {
                    Phase::Ready
                };
                Ok(Some(d))
            },
            Err(e) => {
                self.phase = Phase::Aborted;
                Err(e)
            },
        }
    }

    /// Feeds back the acknowledgment of the last issued command. A failure
    /// aborts the sequence and surfaces as that command's error.
    pub fn ack(&mut self, outcome: Outcome) -> (r: Result<(), ExecError>)
        requires
            old(self).wf(),
            old(self).can_ack(),
        ensures
            final(self).wf(),
            final(self).instructions == old(self).instructions,
            final(self).pos == old(self).pos,
            outcome is Success ==> r is Ok && final(self).phase == Phase::Ready,
            outcome matches Outcome::Failure(msg) ==> (r matches Err(
                ExecError::CommandFailure(m)) && m@ == msg@ && final(self).phase
                == Phase::Aborted),
    {
        match outcome {
            Outcome::Success => {
                self.phase = Phase::Ready;
                Ok(())
            },
            Outcome::Failure(msg) => {
                self.phase = Phase::Aborted;
                Err(ExecError::CommandFailure(msg))
            },
        }
    }
}

/// Law: an aborted executor is final. Once an instruction has failed,
/// neither a further step nor an acknowledgment is accepted, so no later
/// instruction of the same sequence is ever issued to its agent.
pub proof fn lemma_aborted_is_final(e: Executor)
    requires
        e.phase == Phase::Aborted,
    ensures
        !e.can_step(),
        !e.can_ack(),
{
}

/// Whether an instruction issues a fallible hardware command when it
/// resolves.
pub open spec fn instruction_fallible(ins: Instruction) -> bool {
    match ins {
        Instruction::Device(_, _) => true,
        Instruction::Load(_) => true,
        Instruction::Robot(_) => true,
        Instruction::Wind(_) => true,
        Instruction::BiasAll => false,
        Instruction::Sleep(_) => false,
        Instruction::Reset => false,
    }
}

/// Whether an instruction fails the sequence: its target is missing, or
/// its command is acknowledged with a failure.
pub open spec fn instruction_fails(ctx: HardwareContext, ins: Instruction, out: Outcome) -> bool {
    !resolution_ok(ctx, ins) || (instruction_fallible(ins) && out is Failure)
}

/// Executes a whole sequence against scripted hardware acknowledgments:
/// one outcome per instruction, read only where the instruction issues a
/// fallible command. Returns the directives issued, in instruction order,
/// and the failure that ended the run, if any.
///
/// The contract is the executor's fail-fast law in sequence form: on
/// success every instruction was issued; on failure the first failing
/// instruction ends the run — everything before it was issued, nothing
/// after it ever is.
pub fn execute(ctx: &HardwareContext, instructions: Vec<Instruction>, outcomes: &Vec<Outcome>) -> (r:
    (Vec<Directive>, Option<ExecError>))
    requires
        outcomes@.len() == instructions@.len(),
    ensures
        r.0@.len() <= instructions@.len(),
        forall|j: int|
            0 <= j < r.0@.len() ==> resolution_matches(*ctx, instructions@[j], #[trigger] r.0@[j]),
        r.1 is None <==> (forall|j: int|
            0 <= j < instructions@.len() ==> !instruction_fails(
                *ctx,
                #[trigger] instructions@[j],
                outcomes@[j],
            )),
        r.1 is None ==> r.0@.len() == instructions@.len(),
        r.1 matches Some(e) ==> (exists|k: int|
            0 <= k < instructions@.len() && #[trigger] instruction_fails(
                *ctx,
                instructions@[k],
                outcomes@[k],
            ) && (forall|j: int|
                0 <= j < k ==> !instruction_fails(
                    *ctx,
                    #[trigger] instructions@[j],
                    outcomes@[j],
                )) && (if resolution_ok(*ctx, instructions@[k]) {
                &&& r.0@.len() == k + 1
                &&& (outcomes@[k] matches Outcome::Failure(msg) && e matches
                    ExecError::CommandFailure(m) && m@ == msg@)
            } else {
                r.0@.len() == k && resolution_error(*ctx, instructions@[k], e)
            })),
{
    let mut executor = Executor::new(instructions);
    let mut issued: Vec<Directive> = Vec::new();
    loop
        invariant
            executor.wf(),
            executor.phase == Phase::Ready,
            executor.instructions@ == instructions@,
            outcomes@.len() == instructions@.len(),
            issued@.len() == executor.pos,
            forall|j: int|
                0 <= j < issued@.len() ==> resolution_matches(
                    *ctx,
                    instructions@[j],
                    #[trigger] issued@[j],
                ),
            forall|j: int|
                0 <= j < issued@.len() ==> !instruction_fails(
                    *ctx,
                    #[trigger] instructions@[j],
                    outcomes@[j],
                ),
        decreases instructions@.len() - executor.pos,
    {
        let idx = executor.pos;
        match executor.step(ctx) {
            Ok(None) => {
                return (issued, None);
            },
            Ok(Some(d)) => {
                let fallible = match &d {
                    Directive::Device { .. } => true,
                    Directive::Load(_) => true,
                    Directive::Robot(_) => true,
                    Directive::Wind { .. } => true,
                    Directive::BiasAll => false,
                    Directive::Sleep(_) => false,
                    Directive::Reset => false,
                };
                issued.push(d);
                if fallible {
                    match &outcomes[idx] {
                        Outcome::Success => {
                            let acked = executor.ack(Outcome::Success);
                            proof {
                                assert(acked is Ok);
                            }
                        },
                        Outcome::Failure(msg) => {
                            match executor.ack(Outcome::Failure(msg.clone())) {
                                Err(e) => {
                                    proof {
                                        assert(instruction_fails(
                                            *ctx,
                                            instructions@[idx as int],
                                            outcomes@[idx as int],
                                        ));
                                    }
                                    return (issued, Some(e));
                                },
                                Ok(_) => {
                                    proof {
                                        assert(false);
                                    }
                                    return (issued, None);
                                },
                            }
                        },
                    }
                }
            },
            Err(e) => {
                proof {
                    assert(instruction_fails(
                        *ctx,
                        instructions@[idx as int],
                        outcomes@[idx as int],
                    ));
                }
                return (issued, Some(e));
            },
        }
    }
}

} // verus!
