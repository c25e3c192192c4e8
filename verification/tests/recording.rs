use drone_lab::hardware::{Device, DeviceConfig, HardwareContext, IngestOutcome};
use drone_lab::orchestrator::Orchestrator;
use drone_lab::sink::DataSink;

fn two_channel_device(name: &str) -> Device {
    Device::connect(DeviceConfig {
        name: name.to_string(),
        channels: vec!["fx".to_string(), "fy".to_string()],
    })
}

fn state_frame(floats: &[f32]) -> Vec<u8> {
    let mut frame = vec![0xDE, 0x00];
    for f in floats {
        frame.extend_from_slice(&f.to_bits().to_be_bytes());
    }
    frame
}

#[test]
fn connect_from_config_starts_detached() {
    let config = DeviceConfig {
        name: "alpha".to_string(),
        channels: vec!["a".to_string(), "b".to_string()],
    };
    let d = Device::connect_from_config(&config);
    assert_eq!(d.config().name, "alpha".to_string());
    assert_eq!(d.config().channels, vec!["a".to_string(), "b".to_string()]);
    assert_eq!(d.stream, None);
}

#[test]
fn samples_outside_the_window_do_not_appear() {
    let mut sink = DataSink::new();
    let s = sink.register_stream("dev".to_string(), vec!["a".to_string()]);

    // Pushed before the window opens: discarded.
    sink.add(s, 5, vec![111]);

    sink.start_recording(10);
    sink.add(s, 12, vec![222]);
    sink.add(s, 17, vec![333]);
    let run = sink.stop_recording(20);

    // Pushed after the window closed: discarded.
    sink.add(s, 25, vec![444]);

    assert_eq!(run.start, 10);
    assert_eq!(run.stop, 20);
    assert_eq!(run.samples.len(), 2);
    assert_eq!(run.samples[0].values, vec![222]);
    assert_eq!(run.samples[0].time, 12);
    assert_eq!(run.samples[1].values, vec![333]);
    assert_eq!(run.samples[1].time, 17);
    for sample in &run.samples {
        assert!(run.start <= sample.time && sample.time <= run.stop);
    }

    // A second window starts empty.
    sink.start_recording(30);
    let second = sink.stop_recording(31);
    assert!(second.samples.is_empty());
}

#[test]
fn unattached_device_discards_frames_silently() {
    let mut sink = DataSink::new();
    let device = two_channel_device("alpha");
    sink.start_recording(1);
    let r = device.ingest(&mut sink, 2, &state_frame(&[1.0, 2.0]));
    assert_eq!(r, IngestOutcome::Skipped);
    let run = sink.stop_recording(3);
    assert!(run.samples.is_empty());
}

#[test]
fn attached_device_forwards_state_frames_only() {
    let mut sink = DataSink::new();
    let mut device = two_channel_device("alpha");
    device.register(&mut sink);

    sink.start_recording(10);
    assert_eq!(
        device.ingest(&mut sink, 11, &state_frame(&[1.5, -2.0])),
        IngestOutcome::Forwarded
    );
    // An error frame is dropped; ingestion continues.
    assert_eq!(device.ingest(&mut sink, 12, &vec![0xDE, 0x01, 0x07]), IngestOutcome::Dropped);
    // A malformed frame is dropped too.
    assert_eq!(device.ingest(&mut sink, 13, &vec![0x00, 0x00]), IngestOutcome::Dropped);
    // A state frame of the wrong arity is dropped.
    assert_eq!(device.ingest(&mut sink, 14, &state_frame(&[9.0])), IngestOutcome::Dropped);
    assert_eq!(
        device.ingest(&mut sink, 15, &state_frame(&[3.25, 4.75])),
        IngestOutcome::Forwarded
    );
    let run = sink.stop_recording(20);

    assert_eq!(run.samples.len(), 2);
    assert_eq!(run.samples[0].time, 11);
    assert_eq!(
        run.samples[0].values,
        vec![1.5f32.to_bits(), (-2.0f32).to_bits()]
    );
    assert_eq!(run.samples[1].time, 15);
    assert_eq!(
        run.samples[1].values,
        vec![3.25f32.to_bits(), 4.75f32.to_bits()]
    );
}

#[test]
fn ingestion_while_not_recording_is_discarded() {
    let mut sink = DataSink::new();
    let mut device = two_channel_device("alpha");
    device.register(&mut sink);

    assert_eq!(
        device.ingest(&mut sink, 1, &state_frame(&[1.0, 2.0])),
        IngestOutcome::Forwarded
    );
    sink.start_recording(10);
    let run = sink.stop_recording(11);
    assert!(run.samples.is_empty());
}

#[test]
fn orchestrator_registers_every_device_in_order() {
    let mut ctx = HardwareContext::empty();
    ctx.additional_devices.push(two_channel_device("alpha"));
    ctx.additional_devices.push(Device::connect(DeviceConfig {
        name: "beta".to_string(),
        channels: vec!["p".to_string(), "q".to_string(), "r".to_string()],
    }));

    let o = Orchestrator::try_new(ctx);
    assert_eq!(o.sink.streams.len(), 2);
    assert_eq!(o.sink.streams[0].name, "alpha".to_string());
    assert_eq!(o.sink.streams[0].channels.len(), 2);
    assert_eq!(o.sink.streams[1].name, "beta".to_string());
    assert_eq!(o.sink.streams[1].channels.len(), 3);
    assert_eq!(o.context.additional_devices[0].stream, Some(0));
    assert_eq!(o.context.additional_devices[1].stream, Some(1));
}

#[test]
fn recorded_run_spans_exactly_the_window() {
    let mut ctx = HardwareContext::empty();
    ctx.additional_devices.push(two_channel_device("alpha"));
    let mut o = Orchestrator::try_new(ctx);

    let device = Device {
        config: DeviceConfig {
            name: "alpha".to_string(),
            channels: vec!["fx".to_string(), "fy".to_string()],
        },
        stream: o.context.additional_devices[0].stream,
    };
    device.ingest(&mut o.sink, 5, &state_frame(&[0.5, 0.25]));

    o.new_run(10);
    device.ingest(&mut o.sink, 11, &state_frame(&[1.0, 2.0]));
    device.ingest(&mut o.sink, 14, &state_frame(&[3.0, 4.0]));
    let run = o.save_run(20);

    device.ingest(&mut o.sink, 25, &state_frame(&[9.0, 9.0]));

    assert_eq!(run.start, 10);
    assert_eq!(run.stop, 20);
    assert_eq!(run.samples.len(), 2);
    for sample in &run.samples {
        assert!(run.start <= sample.time && sample.time <= run.stop);
    }
}
