use std::collections::VecDeque;

use board_drivers::axs5106::{
    Axs5106, Axs5106Async, Axs5106Config, Axs5106Outcome, Axs5106Pending, Error, Register, TouchPoint,
};
use board_drivers::bus::{I2cOp, Step};

/// What a scripted bus saw while a procedure ran.
#[derive(Default)]
struct Log {
    writes: Vec<Vec<u8>>,
    reset_levels: Vec<bool>,
    delays: Vec<u32>,
    waits: usize,
}

/// Performs the operations of a step, answering reads from `responses`;
/// returns the bytes of the last read.
fn perform(ops: &[I2cOp], responses: &mut VecDeque<Vec<u8>>, log: &mut Log) -> Vec<u8> {
    let mut last = Vec::new();
    for op in ops {
        match op {
            I2cOp::Write { bytes, .. } => log.writes.push(bytes.clone()),
            I2cOp::Read { len, .. } => last = responses.pop_front().unwrap()[..*len].to_vec(),
            I2cOp::WriteRead { bytes, len, .. } => {
                log.writes.push(bytes.clone());
                last = responses.pop_front().unwrap()[..*len].to_vec();
            }
            I2cOp::SetReset(level) => log.reset_levels.push(*level),
            I2cOp::DelayMs(ms) => log.delays.push(*ms),
            I2cOp::WaitForInterrupt => log.waits += 1,
        }
    }
    last
}

fn run(
    mut step: Step<Axs5106Outcome>,
    mut resume: impl FnMut(&[u8]) -> Step<Axs5106Outcome>,
    responses: &[&[u8]],
    log: &mut Log,
) -> Axs5106Outcome {
    let mut queue: VecDeque<Vec<u8>> = responses.iter().map(|r| r.to_vec()).collect();
    loop {
        match step {
            Step::Transfer(ops) => {
                let bytes = perform(&ops, &mut queue, log);
                step = resume(&bytes);
            }
            Step::Done(ops, outcome) => {
                perform(&ops, &mut queue, log);
                return outcome;
            }
        }
    }
}

fn read_touches(touch: &mut Axs5106<(), ()>, data: &[u8]) -> Option<TouchPoint> {
    let mut log = Log::default();
    let start = touch.read_touches();
    match run(start, |bytes| touch.resume(bytes), &[data], &mut log) {
        Axs5106Outcome::Touch(point) => point,
        other => panic!("unexpected outcome {:?}", other),
    }
}

#[test]
fn parses_zero_points() {
    let mut touch = Axs5106::new((), Some(()), Axs5106Config::default());

    let point = read_touches(&mut touch, &[0, 0, 0, 0, 0, 0, 0, 0, 0, 0, 0, 0, 0, 0]);

    assert_eq!(point, None);
}

#[test]
fn truncates_two_points_to_single_point() {
    let data = [0, 2, 0x01, 0x23, 0x02, 0x34, 0, 0, 0x05, 0x67, 0x08, 0x9A, 0, 0];
    let mut touch = Axs5106::new((), Some(()), Axs5106Config::default());

    let point = read_touches(&mut touch, &data);

    assert_eq!(point, Some(TouchPoint { x: 0x123, y: 0x234, strength: None }));
}

#[test]
fn keeps_single_point_when_reported_count_is_one() {
    let data = [0, 1, 0x00, 0x20, 0x00, 0x30, 0, 0, 0x00, 0x50, 0x00, 0x60, 0, 0];
    let mut touch = Axs5106::new((), Some(()), Axs5106Config::default());

    let point = read_touches(&mut touch, &data);

    assert_eq!(point, Some(TouchPoint { x: 0x20, y: 0x30, strength: None }));
}

#[test]
fn applies_axis_transformations() {
    let data = [0, 1, 0x00, 0x02, 0x00, 0x03, 0, 0, 0, 0, 0, 0, 0, 0];
    let mut config = Axs5106Config::default();
    config.swap_xy = true;
    config.mirror_x = true;
    let mut touch = Axs5106::new((), Some(()), config);

    let point = read_touches(&mut touch, &data).unwrap();

    assert_eq!(point.x, config.height - 1 - 3);
    assert_eq!(point.y, 2);
}

#[test]
fn reset_toggles_reset_pin() {
    let touch = Axs5106::new((), Some(()), Axs5106Config::default());
    let mut log = Log::default();

    perform(&touch.reset(), &mut VecDeque::new(), &mut log);

    assert_eq!(log.reset_levels, vec![false, true]);
    assert_eq!(log.delays, vec![10, 10]);
}

#[test]
fn async_wait_for_touch_uses_interrupt_when_available() {
    let mut touch = Axs5106Async::new((), Some(()), Some(()), Axs5106Config::default());
    let mut log = Log::default();

    let start = touch.wait_for_touch();
    let outcome = run(start, |bytes| touch.resume(bytes), &[&[0, 1, 0, 1, 0, 2, 0, 0, 0, 0, 0, 0, 0, 0]], &mut log);

    assert_eq!(outcome, Axs5106Outcome::Touched);
    assert_eq!(log.waits, 1);
    assert!(log.delays.is_empty());
}

#[test]
fn async_wait_for_touch_polls_without_interrupt() {
    let mut touch = Axs5106Async::new((), Some(()), Option::<()>::None, Axs5106Config::default());
    let mut log = Log::default();

    let start = touch.wait_for_touch();
    let outcome = run(
        start,
        |bytes| touch.resume(bytes),
        &[&[0, 0, 0, 0, 0, 0, 0, 0, 0, 0, 0, 0, 0, 0], &[0, 1, 0, 1, 0, 2, 0, 0, 0, 0, 0, 0, 0, 0]],
        &mut log,
    );

    assert_eq!(outcome, Axs5106Outcome::Touched);
    assert_eq!(log.delays, vec![10, 10]);
}

#[test]
fn register_addresses() {
    assert_eq!(Register::TouchData.addr(), 0x01);
    assert_eq!(Register::TouchPoints.addr(), 0x01);
    assert_eq!(Register::TouchP1XHigh.addr(), 0x03);
    assert_eq!(Register::TouchP2YLow.addr(), 0x0C);
    assert_eq!(Register::Raw(0x42).addr(), 0x42);
}

#[test]
fn frame_read_is_register_write_then_fourteen_bytes() {
    let mut touch = Axs5106::new((), None::<()>, Axs5106Config::default());
    assert_eq!(
        touch.read_raw_frame(),
        Step::Transfer(vec![I2cOp::Write { address: 0x63, bytes: vec![0x01] }, I2cOp::Read { address: 0x63, len: 14 }])
    );
    assert_eq!(touch.pending(), Axs5106Pending::RawFrame);
    let frame: Vec<u8> = (0u8..14).collect();
    match touch.resume(&frame) {
        Step::Done(ops, Axs5106Outcome::RawFrame(raw)) => {
            assert!(ops.is_empty());
            assert_eq!(raw.to_vec(), frame);
        }
        other => panic!("unexpected step {:?}", other),
    }
    assert_eq!(touch.pending(), Axs5106Pending::Idle);
}

#[test]
fn reset_without_pin_does_nothing() {
    let touch = Axs5106::new((), None::<()>, Axs5106Config::default());
    assert!(touch.reset().is_empty());
    let init: Result<(), Error<(), ()>> = touch.init();
    assert_eq!(init, Ok(()));
}

#[test]
fn mirroring_and_high_nibble_masking() {
    let mut config = Axs5106Config::default();
    config.mirror_x = true;
    config.mirror_y = true;
    let mut touch = Axs5106::new((), None::<()>, config);
    // Upper nibbles of the coordinate bytes and of the count are ignored.
    let point = read_touches(&mut touch, &[0, 0xF1, 0xF0, 0x0A, 0xE0, 0x14, 0, 0, 0, 0, 0, 0, 0, 0]).unwrap();
    assert_eq!(point, TouchPoint { x: 172 - 1 - 10, y: 320 - 1 - 20, strength: None });
    // A coordinate beyond the screen mirrors to 0.
    let point = read_touches(&mut touch, &[0, 1, 0x01, 0x00, 0x02, 0x00, 0, 0, 0, 0, 0, 0, 0, 0]).unwrap();
    assert_eq!(point, TouchPoint { x: 0, y: 0, strength: None });
    // A count with only the upper nibble set reports nothing.
    assert_eq!(read_touches(&mut touch, &[0, 0x10, 0, 5, 0, 5, 0, 0, 0, 0, 0, 0, 0, 0]), None);
}

#[test]
fn mirroring_twice_restores_coordinate() {
    let data = [0, 1, 0x00, 17, 0x00, 42, 0, 0, 0, 0, 0, 0, 0, 0];
    let mut config = Axs5106Config::default();
    config.mirror_x = true;
    let mut mirrored = Axs5106::new((), None::<()>, config);
    let once = read_touches(&mut mirrored, &data).unwrap();
    let again = [0, 1, (once.x >> 8) as u8, once.x as u8, 0x00, 42, 0, 0, 0, 0, 0, 0, 0, 0];
    let twice = read_touches(&mut mirrored, &again).unwrap();
    assert_eq!(twice.x, 17);
}

#[test]
fn release_returns_touch_handles() {
    let touch = Axs5106::new(1u8, Some(2u8), Axs5106Config::default());
    assert_eq!(touch.release(), (1u8, Some(2u8)));
    let touch = Axs5106Async::new(1u8, None::<u8>, Some(3u8), Axs5106Config::default());
    assert_eq!(touch.release(), (1u8, None, Some(3u8)));
}
