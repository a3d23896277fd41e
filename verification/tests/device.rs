use fanshim::device::{board_lines, DeviceError, EdgeMode, FrameRun, LineConfig, LineDirection};
use fanshim::led::{led_frame, FrameConfig};
use fanshim::wire::{fan_write, Line, LineWrite};

#[test]
fn board_line_table() {
    let lines = board_lines();
    assert_eq!(
        lines,
        vec![
            LineConfig {
                pin: 18,
                direction: LineDirection::OutHigh,
                edge: EdgeMode::NoInterrupt
            },
            LineConfig {
                pin: 15,
                direction: LineDirection::OutLow,
                edge: EdgeMode::NoInterrupt
            },
            LineConfig {
                pin: 14,
                direction: LineDirection::OutLow,
                edge: EdgeMode::NoInterrupt
            },
            LineConfig {
                pin: 17,
                direction: LineDirection::In,
                edge: EdgeMode::BothEdges
            },
        ]
    );
}

#[test]
fn fan_write_sets_the_fan_line() {
    assert_eq!(
        fan_write(true),
        LineWrite {
            line: Line::Fan,
            value: true
        }
    );
    assert_eq!(
        fan_write(false),
        LineWrite {
            line: Line::Fan,
            value: false
        }
    );
}

#[test]
fn repeated_fan_setting_writes_the_same_value() {
    // Setting the fan twice to the same level computes two identical
    // writes; repetition introduces no difference and no error.
    let first = fan_write(true);
    let second = fan_write(true);
    assert_eq!(first, second);
}

#[test]
fn frame_run_hands_out_every_write_on_success() {
    let cfg = FrameConfig::default();
    let writes = led_frame(&cfg, 1, 2, 3, 4);
    let expected = writes.clone();
    let mut run = FrameRun::new(writes);
    let mut performed: Vec<LineWrite> = Vec::new();
    while let Some(w) = run.next_write() {
        performed.push(w);
        run.record(true);
    }
    assert_eq!(performed, expected);
    assert_eq!(run.outcome(), Ok(()));
}

#[test]
fn frame_run_aborts_after_a_failed_write() {
    let cfg = FrameConfig::default();
    let writes = led_frame(&cfg, 1, 2, 3, 4);
    let mut run = FrameRun::new(writes);
    let mut performed = 0usize;
    // Ten writes succeed; the eleventh fails.
    while let Some(_w) = run.next_write() {
        performed += 1;
        run.record(performed < 11);
        if performed == 11 {
            break;
        }
    }
    assert_eq!(performed, 11);
    // No further write is handed out for this frame.
    assert_eq!(run.next_write(), None);
    assert_eq!(run.outcome(), Err(DeviceError::LineWriteFailure));
}

#[test]
fn frame_run_failure_on_first_write() {
    let cfg = FrameConfig::default();
    let writes = led_frame(&cfg, 0, 0, 0, 0);
    let mut run = FrameRun::new(writes);
    let w = run.next_write();
    assert!(w.is_some());
    run.record(false);
    assert_eq!(run.next_write(), None);
    assert_eq!(run.outcome(), Err(DeviceError::LineWriteFailure));
}
