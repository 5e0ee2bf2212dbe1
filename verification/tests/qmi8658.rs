use std::collections::VecDeque;

use board_drivers::bus::{I2cOp, Step};
use board_drivers::qmi8658::{
    Error, ImuData, Qmi8658, Qmi8658Async, Qmi8658Config, Qmi8658Outcome, Qmi8658Pending, Register, Vec3i16, CHIP_ID,
};

#[derive(Default)]
struct Bus {
    reads: VecDeque<Vec<u8>>,
    writes: Vec<Vec<u8>>,
    delays: Vec<u32>,
}

impl Bus {
    fn with_reads(responses: &[&[u8]]) -> Self {
        Bus { reads: responses.iter().map(|r| r.to_vec()).collect(), ..Bus::default() }
    }

    fn perform(&mut self, ops: &[I2cOp]) -> Vec<u8> {
        let mut last = Vec::new();
        for op in ops {
            match op {
                I2cOp::Write { bytes, .. } => self.writes.push(bytes.clone()),
                I2cOp::WriteRead { bytes, len, .. } => {
                    self.writes.push(bytes.clone());
                    last = self.reads.pop_front().unwrap()[..*len].to_vec();
                }
                I2cOp::Read { len, .. } => last = self.reads.pop_front().unwrap()[..*len].to_vec(),
                I2cOp::DelayMs(ms) => self.delays.push(*ms),
                other => panic!("unexpected operation {:?}", other),
            }
        }
        last
    }

    fn run(&mut self, imu: &mut Qmi8658<()>, mut step: Step<Qmi8658Outcome>) -> Qmi8658Outcome {
        loop {
            match step {
                Step::Transfer(ops) => {
                    let bytes = self.perform(&ops);
                    step = imu.resume(&bytes);
                }
                Step::Done(ops, outcome) => {
                    self.perform(&ops);
                    return outcome;
                }
            }
        }
    }
}

fn init(imu: &mut Qmi8658<()>, bus: &mut Bus) -> Result<(), Error<()>> {
    let start = imu.init();
    match bus.run(imu, start) {
        Qmi8658Outcome::Initialized => Ok(()),
        Qmi8658Outcome::ChipIdMismatch { expected, found } => Err(Error::ChipIdMismatch { expected, found }),
        other => panic!("unexpected outcome {:?}", other),
    }
}

#[test]
fn init_writes_expected_sequence() {
    let mut bus = Bus::with_reads(&[&[CHIP_ID]]);
    let mut imu = Qmi8658::new((), Qmi8658Config::default());

    init(&mut imu, &mut bus).unwrap();

    assert_eq!(bus.delays, vec![10]);
    let writes = &bus.writes;
    assert_eq!(writes[0], vec![Register::WhoAmI.addr()]);
    assert_eq!(writes[1], vec![Register::Reset.addr(), 0xB0]);
    assert_eq!(writes[2], vec![Register::Ctrl1.addr(), 0x40]);
    assert_eq!(writes[3], vec![Register::Ctrl7.addr(), 0x03]);
    assert_eq!(writes[4], vec![Register::Ctrl2.addr(), 0x95]);
    assert_eq!(writes[5], vec![Register::Ctrl3.addr(), 0xD5]);
}

#[test]
fn read_if_ready_returns_none_when_no_data() {
    let mut bus = Bus::with_reads(&[&[0x00]]);
    let mut imu = Qmi8658::new((), Qmi8658Config::default());

    let start = imu.read_data_if_ready();
    let result = bus.run(&mut imu, start);

    assert_eq!(result, Qmi8658Outcome::DataIfReady(None));
}

#[test]
fn read_parses_accel_and_gyro() {
    let mut bus = Bus::with_reads(&[&[0x34, 0x12, 0x78, 0x56, 0xBC, 0x9A, 0x10, 0x00, 0x20, 0x00, 0x30, 0x00]]);
    let mut imu = Qmi8658::new((), Qmi8658Config::default());

    let start = imu.read_data();
    let data = match bus.run(&mut imu, start) {
        Qmi8658Outcome::Data(data) => data,
        other => panic!("unexpected outcome {:?}", other),
    };

    assert_eq!(data.accel.x, 0x1234);
    assert_eq!(data.accel.y, 0x5678);
    assert_eq!(data.accel.z, -25924);
    assert_eq!(data.gyro.x, 16);
    assert_eq!(data.gyro.y, 32);
    assert_eq!(data.gyro.z, 48);
}

#[test]
fn rejects_wrong_chip_id() {
    let mut bus = Bus::with_reads(&[&[0x00]]);
    let mut imu = Qmi8658::new((), Qmi8658Config::default());

    let result = init(&mut imu, &mut bus);

    assert_eq!(result, Err(Error::ChipIdMismatch { expected: CHIP_ID, found: 0x00 }));
    // Nothing is written to a chip that is not the expected one.
    assert_eq!(bus.writes, vec![vec![Register::WhoAmI.addr()]]);
}

#[test]
fn read_if_ready_reads_sample_when_ready() {
    for status in [0x01u8, 0x02, 0x03, 0xFF] {
        let mut bus = Bus::with_reads(&[&[status], &[0xFF, 0xFF, 0x00, 0x80, 0xFF, 0x7F, 1, 0, 0, 0, 0, 0]]);
        let mut imu = Qmi8658::new((), Qmi8658Config::default());
        let start = imu.read_data_if_ready();
        let result = bus.run(&mut imu, start);
        let expected = ImuData {
            accel: Vec3i16 { x: -1, y: -32768, z: 32767 },
            gyro: Vec3i16 { x: 1, y: 0, z: 0 },
        };
        assert_eq!(result, Qmi8658Outcome::DataIfReady(Some(expected)));
        assert_eq!(bus.writes, vec![vec![0x2E], vec![0x35]]);
    }
    let mut bus = Bus::with_reads(&[&[0xFC]]);
    let mut imu = Qmi8658::new((), Qmi8658Config::default());
    let start = imu.read_data_if_ready();
    assert_eq!(bus.run(&mut imu, start), Qmi8658Outcome::DataIfReady(None));
}

#[test]
fn chip_id_and_status_reads() {
    let mut bus = Bus::with_reads(&[&[0x05], &[0x03]]);
    let mut imu = Qmi8658::new((), Qmi8658Config::default());
    let start = imu.read_chip_id();
    assert_eq!(
        start,
        Step::Transfer(vec![I2cOp::WriteRead { address: 0x6B, bytes: vec![0x00], len: 1 }])
    );
    assert_eq!(imu.pending(), Qmi8658Pending::ChipId);
    assert_eq!(bus.run(&mut imu, start), Qmi8658Outcome::ChipId(0x05));
    let start = imu.read_status();
    assert_eq!(bus.run(&mut imu, start), Qmi8658Outcome::Status(0x03));
    assert_eq!(imu.pending(), Qmi8658Pending::Idle);
}

#[test]
fn sample_encoding_round_trips() {
    for v in [i16::MIN, -25924, -1, 0, 1, 0x1234, i16::MAX] {
        let [lo, hi] = v.to_le_bytes();
        let mut bus = Bus::with_reads(&[&[lo, hi, lo, hi, lo, hi, lo, hi, lo, hi, lo, hi]]);
        let mut imu = Qmi8658::new((), Qmi8658Config::default());
        let start = imu.read_data();
        let expected = ImuData { accel: Vec3i16 { x: v, y: v, z: v }, gyro: Vec3i16 { x: v, y: v, z: v } };
        assert_eq!(bus.run(&mut imu, start), Qmi8658Outcome::Data(expected));
    }
}

#[test]
fn custom_config_is_honoured() {
    let config = Qmi8658Config {
        address: 0x6A,
        expected_chip_id: 0x07,
        ctrl1: 1,
        ctrl2: 2,
        ctrl3: 3,
        ctrl7: 7,
        reset_value: 0x11,
        reset_delay_ms: 25,
    };
    let mut imu = Qmi8658::new((), config);
    let start = imu.init();
    assert_eq!(start, Step::Transfer(vec![I2cOp::WriteRead { address: 0x6A, bytes: vec![0x00], len: 1 }]));
    match imu.resume(&[0x07]) {
        Step::Done(ops, Qmi8658Outcome::Initialized) => assert_eq!(
            ops,
            vec![
                I2cOp::Write { address: 0x6A, bytes: vec![0x60, 0x11] },
                I2cOp::DelayMs(25),
                I2cOp::Write { address: 0x6A, bytes: vec![0x02, 1] },
                I2cOp::Write { address: 0x6A, bytes: vec![0x08, 7] },
                I2cOp::Write { address: 0x6A, bytes: vec![0x03, 2] },
                I2cOp::Write { address: 0x6A, bytes: vec![0x04, 3] },
            ]
        ),
        other => panic!("unexpected step {:?}", other),
    }
}

#[test]
fn register_addresses_and_release() {
    assert_eq!(Register::Ctrl7.addr(), 0x08);
    assert_eq!(Register::Status0.addr(), 0x2E);
    assert_eq!(Register::AxL.addr(), 0x35);
    assert_eq!(Register::Raw(0x99).addr(), 0x99);
    assert_eq!(Qmi8658::new(5u8, Qmi8658Config::default()).release(), 5u8);
    let mut imu = Qmi8658Async::new(6u8, Qmi8658Config::default());
    assert_eq!(imu.read_status(), Step::Transfer(vec![I2cOp::WriteRead { address: 0x6B, bytes: vec![0x2E], len: 1 }]));
    assert_eq!(imu.resume(&[9]), Step::Done(vec![], Qmi8658Outcome::Status(9)));
    assert_eq!(imu.release(), 6u8);
}

#[test]
fn decoded_sample_re_encodes_to_its_bytes() {
    let raw: [u8; 12] = [0x34, 0x12, 0x00, 0x80, 0xFF, 0xFF, 0x01, 0x00, 0xFF, 0x7F, 0x9A, 0xBC];
    let mut bus = Bus::with_reads(&[&raw]);
    let mut imu = Qmi8658::new((), Qmi8658Config::default());
    let start = imu.read_data();
    let data = match bus.run(&mut imu, start) {
        Qmi8658Outcome::Data(data) => data,
        other => panic!("unexpected outcome {:?}", other),
    };
    let mut encoded = Vec::new();
    for v in [data.accel.x, data.accel.y, data.accel.z, data.gyro.x, data.gyro.y, data.gyro.z] {
        encoded.extend_from_slice(&v.to_le_bytes());
    }
    assert_eq!(encoded, raw.to_vec());
    assert_eq!(data.accel.y, i16::MIN);
    assert_eq!(data.accel.z, -1);
    assert_eq!(data.gyro.y, i16::MAX);
}
