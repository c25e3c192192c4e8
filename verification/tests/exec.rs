use drone_lab::exec::{
    execute, resolve, Directive, ExecError, Executor, Instruction, LoadCommand, Outcome, Phase,
    RobotCommand, WindCommand,
};
use drone_lab::hardware::{
    Device, DeviceConfig, HardwareContext, HardwareKind, LoadCell, RobotArm, WindShape,
};
use drone_lab::orchestrator::require_agent;

fn context_with(
    robot: bool,
    load: bool,
    wind: bool,
    device_names: &[&str],
) -> HardwareContext {
    let mut ctx = HardwareContext::empty();
    if robot {
        ctx.robot_arm = Some(RobotArm {});
    }
    if load {
        ctx.load_cell = Some(LoadCell {});
    }
    if wind {
        ctx.wind_shape = Some(WindShape {});
    }
    for name in device_names {
        ctx.additional_devices.push(Device::connect(DeviceConfig {
            name: name.to_string(),
            channels: vec!["x".to_string(), "y".to_string()],
        }));
    }
    ctx
}

#[test]
fn missing_load_cell_fails_naming_load_cell() {
    let ctx = context_with(true, false, true, &["alpha"]);
    let mut e = Executor::new(vec![
        Instruction::Load(LoadCommand { op: 1 }),
        Instruction::Reset,
    ]);
    let r = e.step(&ctx);
    assert_eq!(r, Err(ExecError::HardwareUnavailable(HardwareKind::LoadCell)));
    assert_eq!(HardwareKind::LoadCell.name(), "LoadCell".to_string());
    // The failure aborts the sequence: the reset never runs.
    assert_eq!(e.phase, Phase::Aborted);
    assert_eq!(e.pos, 0);
}

#[test]
fn missing_device_fails_naming_it() {
    let ctx = context_with(true, true, true, &["alpha", "beta"]);
    let mut e = Executor::new(vec![Instruction::Device("missing".to_string(), vec![1, 2])]);
    let r = e.step(&ctx);
    assert_eq!(r, Err(ExecError::DeviceNotFound("missing".to_string())));
    assert_eq!(e.phase, Phase::Aborted);
}

#[test]
fn second_failure_aborts_and_third_is_never_issued() {
    let ctx = context_with(false, true, false, &[]);
    let instructions = vec![
        Instruction::Load(LoadCommand { op: 1 }),
        Instruction::Load(LoadCommand { op: 2 }),
        Instruction::Load(LoadCommand { op: 3 }),
    ];
    let mut e = Executor::new(instructions);
    let mut issued: Vec<Directive> = Vec::new();

    let first = e.step(&ctx).unwrap().unwrap();
    issued.push(first);
    assert_eq!(e.ack(Outcome::Success), Ok(()));

    let second = e.step(&ctx).unwrap().unwrap();
    issued.push(second);
    let r = e.ack(Outcome::Failure("actuator fault".to_string()));
    assert_eq!(r, Err(ExecError::CommandFailure("actuator fault".to_string())));

    // The executor is aborted: the third command was never handed out.
    assert_eq!(e.phase, Phase::Aborted);
    assert_eq!(
        issued,
        vec![
            Directive::Load(LoadCommand { op: 1 }),
            Directive::Load(LoadCommand { op: 2 }),
        ]
    );
}

#[test]
fn full_sequence_runs_in_order_to_done() {
    let ctx = context_with(true, true, true, &["alpha"]);
    let mut e = Executor::new(vec![
        Instruction::Robot(RobotCommand { op: 7 }),
        Instruction::BiasAll,
        Instruction::Sleep(50),
        Instruction::Device("alpha".to_string(), vec![10, 20]),
        Instruction::Reset,
    ]);
    let mut issued: Vec<Directive> = Vec::new();
    loop {
        match e.step(&ctx).unwrap() {
            Some(d) => {
                let fallible = matches!(
                    d,
                    Directive::Device { .. }
                        | Directive::Load(_)
                        | Directive::Robot(_)
                        | Directive::Wind { .. }
                );
                issued.push(d);
                if fallible {
                    e.ack(Outcome::Success).unwrap();
                }
            }
            None => break,
        }
    }
    assert_eq!(e.phase, Phase::Done);
    assert_eq!(
        issued,
        vec![
            Directive::Robot(RobotCommand { op: 7 }),
            Directive::BiasAll,
            Directive::Sleep(50),
            Directive::Device { device: 0, params: vec![10, 20] },
            Directive::Reset,
        ]
    );
}

#[test]
fn execute_stops_at_the_first_failing_outcome() {
    let ctx = context_with(false, true, false, &[]);
    let instructions = vec![
        Instruction::Load(LoadCommand { op: 1 }),
        Instruction::Load(LoadCommand { op: 2 }),
        Instruction::Load(LoadCommand { op: 3 }),
    ];
    let outcomes = vec![
        Outcome::Success,
        Outcome::Failure("actuator fault".to_string()),
        Outcome::Success,
    ];
    let (issued, err) = execute(&ctx, instructions, &outcomes);
    assert_eq!(
        issued,
        vec![
            Directive::Load(LoadCommand { op: 1 }),
            Directive::Load(LoadCommand { op: 2 }),
        ]
    );
    assert_eq!(err, Some(ExecError::CommandFailure("actuator fault".to_string())));
}

#[test]
fn execute_with_missing_hardware_issues_nothing() {
    let ctx = context_with(true, false, true, &[]);
    let instructions = vec![
        Instruction::Load(LoadCommand { op: 1 }),
        Instruction::Reset,
    ];
    let outcomes = vec![Outcome::Success, Outcome::Success];
    let (issued, err) = execute(&ctx, instructions, &outcomes);
    assert!(issued.is_empty());
    assert_eq!(err, Some(ExecError::HardwareUnavailable(HardwareKind::LoadCell)));
}

#[test]
fn execute_issues_every_instruction_on_success() {
    let ctx = context_with(true, true, true, &["alpha"]);
    let instructions = vec![
        Instruction::BiasAll,
        Instruction::Device("alpha".to_string(), vec![7]),
        Instruction::Sleep(5),
    ];
    let outcomes = vec![Outcome::Success, Outcome::Success, Outcome::Success];
    let (issued, err) = execute(&ctx, instructions, &outcomes);
    assert_eq!(err, None);
    assert_eq!(
        issued,
        vec![
            Directive::BiasAll,
            Directive::Device { device: 0, params: vec![7] },
            Directive::Sleep(5),
        ]
    );
}

#[test]
fn positive_fan_speed_warns() {
    let ctx = context_with(false, false, true, &[]);
    let cmd = Instruction::Wind(WindCommand::SetFanSpeed(2.5f32.to_bits()));
    let r = resolve(&ctx, &cmd);
    assert_eq!(
        r,
        Ok(Directive::Wind { command: WindCommand::SetFanSpeed(2.5f32.to_bits()), warn: true })
    );
}

#[test]
fn non_positive_fan_speeds_do_not_warn() {
    let ctx = context_with(false, false, true, &[]);
    for speed in [0.0f32, -0.0f32, -3.25f32, f32::NAN] {
        let cmd = Instruction::Wind(WindCommand::SetFanSpeed(speed.to_bits()));
        match resolve(&ctx, &cmd) {
            Ok(Directive::Wind { warn, .. }) => assert!(!warn, "{} must not warn", speed),
            other => panic!("expected a wind directive, got {:?}", other),
        }
    }
    // Positive infinity is a positive speed; subnormals are too.
    for speed in [f32::INFINITY, f32::MIN_POSITIVE / 2.0] {
        let cmd = Instruction::Wind(WindCommand::SetFanSpeed(speed.to_bits()));
        match resolve(&ctx, &cmd) {
            Ok(Directive::Wind { warn, .. }) => assert!(warn, "{} must warn", speed),
            other => panic!("expected a wind directive, got {:?}", other),
        }
    }
}

#[test]
fn require_agent_reports_each_kind() {
    let none_load: Option<LoadCell> = None;
    let none_robot: Option<RobotArm> = None;
    let none_wind: Option<WindShape> = None;
    assert_eq!(
        require_agent(&none_load),
        Err(ExecError::HardwareUnavailable(HardwareKind::LoadCell))
    );
    assert_eq!(
        require_agent(&none_robot),
        Err(ExecError::HardwareUnavailable(HardwareKind::RobotArm))
    );
    assert_eq!(
        require_agent(&none_wind),
        Err(ExecError::HardwareUnavailable(HardwareKind::WindShape))
    );
    let some_load: Option<LoadCell> = Some(LoadCell {});
    assert!(require_agent(&some_load).is_ok());
}

#[test]
fn device_lookup_is_by_exact_name() {
    let ctx = context_with(false, false, false, &["alpha", "beta"]);
    assert_eq!(ctx.find_device(&"beta".to_string()), Some(1));
    assert_eq!(ctx.find_device(&"alpha".to_string()), Some(0));
    assert_eq!(ctx.find_device(&"Alpha".to_string()), None);
    assert_eq!(ctx.find_device(&"alph".to_string()), None);
}
