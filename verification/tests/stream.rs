use std::sync::Arc;

use awedio::manager::BackendSource;
use awedio::manager::Manager;
use awedio::sounds::MemorySound;

use awedio_esp32::config::BackendConfig;
use awedio_esp32::device::DeviceState;
use awedio_esp32::engine::{start_stream, RenderLoop};
use awedio_esp32::signal::FatalError;

fn le_bytes(samples: &[i16]) -> Vec<u8> {
    let mut out = Vec::new();
    for s in samples {
        out.extend_from_slice(&s.to_le_bytes());
    }
    out
}

#[test]
fn end_to_end_stream_until_finished() {
    // Stereo at 44.1 kHz, four frames per write: batches of 8 samples,
    // 16 bytes each. The source yields 16 interleaved samples and then
    // finishes: expect one enable, two full writes whose concatenation
    // is exactly the source, one disable, then exit.
    let cfg = BackendConfig::with_defaults(2, 44100, 4);
    let (mut manager, mut renderer) = Manager::new();
    start_stream(&mut renderer, &cfg).expect("first value must be MetadataChanged");
    let samples: Vec<i16> = (1..=16).collect();
    manager.play(Box::new(MemorySound::from_samples(
        Arc::new(samples.clone()),
        2,
        44100,
    )));
    drop(manager);

    let mut rl = RenderLoop::new(&cfg);
    let mut writes: Vec<Vec<u8>> = Vec::new();
    let mut enables = 0;
    let mut disables = 0;
    let mut iterations = 0;
    loop {
        let d = rl.run_iteration(&mut renderer);
        assert!(d.fault.is_none());
        if d.issue_enable {
            enables += 1;
        }
        if let Some(b) = &d.write {
            assert_eq!(b.len(), 16, "every batch is frames * channels * 2 bytes");
            writes.push(b.clone());
        }
        if d.issue_disable {
            disables += 1;
        }
        if d.exit {
            break;
        }
        assert!(!d.sleep, "this source never pauses");
        iterations += 1;
        assert!(iterations < 100);
    }
    assert_eq!(enables, 1, "one enable at the transition into audio");
    assert_eq!(disables, 1, "one disable at the end of the stream");
    assert_eq!(writes.len(), 2);
    assert_eq!(writes.concat(), le_bytes(&samples));
    assert!(rl.done);
    assert_eq!(rl.device.state, DeviceState::Disabled);
}

#[test]
fn empty_source_pauses_without_write_or_enable() {
    let cfg = BackendConfig::with_defaults(1, 8000, 4);
    let (manager, mut renderer) = Manager::new();
    start_stream(&mut renderer, &cfg).expect("startup");

    let mut rl = RenderLoop::new(&cfg);
    let d = rl.run_iteration(&mut renderer);
    assert!(d.fault.is_none());
    assert!(!d.issue_enable);
    assert!(d.write.is_none(), "no write for an immediately paused batch");
    assert!(!d.issue_disable, "the device was never enabled");
    assert!(d.sleep);
    assert!(!d.exit);
    assert_eq!(rl.device.state, DeviceState::Disabled);
    drop(manager);
}

#[test]
fn pause_mid_batch_flushes_padded_samples_and_disables() {
    // Batch length 8; the sound holds only 4 samples, so the source
    // pauses at position 4: the write still happens, padded with
    // silence, and the device is disabled before the idle sleep.
    let cfg = BackendConfig::with_defaults(2, 44100, 4);
    let (mut manager, mut renderer) = Manager::new();
    start_stream(&mut renderer, &cfg).expect("startup");
    manager.play(Box::new(MemorySound::from_samples(
        Arc::new(vec![11, -22, 33, -44]),
        2,
        44100,
    )));

    let mut rl = RenderLoop::new(&cfg);
    let d = rl.run_iteration(&mut renderer);
    assert!(d.fault.is_none());
    assert!(d.issue_enable);
    let bytes = d.write.expect("a mid-batch pause still flushes the batch");
    assert_eq!(bytes, le_bytes(&[11, -22, 33, -44, 0, 0, 0, 0]));
    assert!(d.issue_disable, "idle span begins: the device is disabled");
    assert!(d.sleep);
    assert!(!d.exit);
    assert_eq!(rl.device.state, DeviceState::Disabled);

    // Still paused: the next iteration writes nothing and issues no
    // further disable call.
    let d2 = rl.run_iteration(&mut renderer);
    assert!(d2.fault.is_none());
    assert!(d2.write.is_none());
    assert!(!d2.issue_enable);
    assert!(!d2.issue_disable);
    assert!(d2.sleep);

    // The manager goes away: the stream finishes with the device
    // already disabled, so no further hardware call is issued.
    drop(manager);
    let d3 = rl.run_iteration(&mut renderer);
    assert!(d3.fault.is_none());
    assert!(d3.write.is_none());
    assert!(!d3.issue_disable);
    assert!(d3.exit);
    assert!(rl.done);
    assert_eq!(rl.device.state, DeviceState::Disabled);
}

#[test]
fn resuming_audio_enables_the_device_again() {
    let cfg = BackendConfig::with_defaults(1, 8000, 4);
    let (mut manager, mut renderer) = Manager::new();
    start_stream(&mut renderer, &cfg).expect("startup");

    let mut rl = RenderLoop::new(&cfg);
    let idle = rl.run_iteration(&mut renderer);
    assert!(idle.sleep);

    manager.play(Box::new(MemorySound::from_samples(
        Arc::new(vec![5, 6, 7, 8]),
        1,
        8000,
    )));
    let active = rl.run_iteration(&mut renderer);
    assert!(active.fault.is_none());
    assert!(active.issue_enable, "a new active span enables the device");
    assert_eq!(active.write.expect("full batch"), le_bytes(&[5, 6, 7, 8]));
    drop(manager);
}

#[test]
fn metadata_change_mid_stream_is_fatal() {
    let cfg = BackendConfig::with_defaults(1, 8000, 2);
    let (mut manager, mut renderer) = Manager::new();
    start_stream(&mut renderer, &cfg).expect("startup");
    manager.play(Box::new(MemorySound::from_samples(
        Arc::new(vec![1, 2, 3, 4]),
        1,
        8000,
    )));
    // The source's format must not change once streaming has begun;
    // force exactly that and expect the loop to abort.
    renderer.set_output_channel_count_and_sample_rate(1, 16000);

    let mut rl = RenderLoop::new(&cfg);
    let d = rl.run_iteration(&mut renderer);
    assert_eq!(d.fault, Some(FatalError::MetadataChangedMidStream));
    assert!(d.exit);
    assert!(d.write.is_none());
    assert!(rl.done);
    drop(manager);
}
