//! Driver logic for the QMI8658 six-axis motion sensor on I2C.
//!
//! The driver plans register reads and writes, checks the chip identity before
//! configuring the sensor, and decodes the little-endian sample block.
use vstd::prelude::*;

use crate::bus::{Fault, I2cOp, I2cOpView, Step, StepView, i2c_ops_view, push_i2c_op};

verus! {

/// Length of the accelerometer and gyroscope sample block.
pub const DATA_LEN: usize = 12;
/// The identity the WHO_AM_I register reports.
pub const CHIP_ID: u8 = 0x05;

/// Registers of the sensor.
#[derive(Debug, Clone, Copy, PartialEq, Eq, Structural)]
pub enum Register {
    WhoAmI,
    Ctrl1,
    Ctrl2,
    Ctrl3,
    Ctrl7,
    Status0,
    AxL,
    Reset,
    Raw(u8),
}

impl Register {
    /// The address of each register.
    pub open spec fn spec_addr(self) -> u8 {
        match self {
            Register::WhoAmI => 0x00,
            Register::Ctrl1 => 0x02,
            Register::Ctrl2 => 0x03,
            Register::Ctrl3 => 0x04,
            Register::Ctrl7 => 0x08,
            Register::Status0 => 0x2E,
            Register::AxL => 0x35,
            Register::Reset => 0x60,
            Register::Raw(v) => v,
        }
    }

    /// The register address.
    #[verifier::when_used_as_spec(spec_addr)]
    pub fn addr(self) -> (r: u8)
        ensures
            r == self.spec_addr(),
    {
        match self {
            Register::WhoAmI => 0x00,
            Register::Ctrl1 => 0x02,
            Register::Ctrl2 => 0x03,
            Register::Ctrl3 => 0x04,
            Register::Ctrl7 => 0x08,
            Register::Status0 => 0x2E,
            Register::AxL => 0x35,
            Register::Reset => 0x60,
            Register::Raw(v) => v,
        }
    }
}

/// Settings of a sensor: its bus address, the identity to expect, the control
/// register values, and the soft reset with its settling time.
#[derive(Debug, Clone, Copy, PartialEq, Eq, Structural)]
pub struct Qmi8658Config {
    pub address: u8,
    pub expected_chip_id: u8,
    pub ctrl1: u8,
    pub ctrl2: u8,
    pub ctrl3: u8,
    pub ctrl7: u8,
    pub reset_value: u8,
    pub reset_delay_ms: u32,
}

impl Default for Qmi8658Config {
    fn default() -> (r: Self)
        ensures
            r == (Qmi8658Config {
                address: 0x6B,
                expected_chip_id: CHIP_ID,
                ctrl1: 0x40,
                ctrl2: 0x95,
                ctrl3: 0xD5,
                ctrl7: 0x03,
                reset_value: 0xB0,
                reset_delay_ms: 10,
            }),
    {
        Qmi8658Config {
            address: 0x6B,
            expected_chip_id: CHIP_ID,
            ctrl1: 0x40,
            ctrl2: 0x95,
            ctrl3: 0xD5,
            ctrl7: 0x03,
            reset_value: 0xB0,
            reset_delay_ms: 10,
        }
    }
}

/// Three signed axes.
#[derive(Debug, Clone, Copy, PartialEq, Eq, Default, Structural)]
pub struct Vec3i16 {
    pub x: i16,
    pub y: i16,
    pub z: i16,
}

/// One accelerometer and gyroscope sample.
#[derive(Debug, Clone, Copy, PartialEq, Eq, Default, Structural)]
pub struct ImuData {
    pub accel: Vec3i16,
    pub gyro: Vec3i16,
}

/// Errors of the sensor driver.
#[derive(Debug, Clone, Copy, PartialEq, Eq)]
pub enum Error<I2cError> {
    I2c(I2cError),
    ChipIdMismatch { expected: u8, found: u8 },
}

/// The error of a sensor operation whose plan stopped on a bus failure. The
/// sensor's plans drive no pin, so only the bus can fail.
pub fn sensor_error<IE, PE>(fault: Fault<IE, PE>) -> (e: Error<IE>)
    requires
        fault is Bus,
    ensures
        fault matches Fault::Bus(error) && e == Error::<IE>::I2c(error),
{
    match fault {
        Fault::Bus(error) => Error::I2c(error),
        Fault::Pin(_) => vstd::pervasive::unreached(),
    }
}

/// What a finished sensor procedure gives.
#[derive(Debug, Clone, Copy, PartialEq, Eq, Structural)]
pub enum Qmi8658Outcome {
    /// The sensor is reset and configured.
    Initialized,
    /// The identity register did not hold the expected value; nothing was written.
    ChipIdMismatch { expected: u8, found: u8 },
    ChipId(u8),
    Status(u8),
    Data(ImuData),
    /// A sample if the status register reported one ready.
    DataIfReady(Option<ImuData>),
}

/// The procedure a sensor driver is in the middle of.
#[derive(Debug, Clone, Copy, PartialEq, Eq, Structural)]
pub enum Qmi8658Pending {
    Idle,
    Init,
    ChipId,
    Status,
    Data,
    StatusBeforeData,
    DataAfterStatus,
}

/// Number of bytes the transfer of a procedure step reads.
pub open spec fn response_len(pending: Qmi8658Pending) -> usize {
    match pending {
        Qmi8658Pending::Idle => 0,
        Qmi8658Pending::Data | Qmi8658Pending::DataAfterStatus => DATA_LEN,
        _ => 1,
    }
}

/// A signed 16-bit value from its little-endian bytes.
pub open spec fn le_i16(low: u8, high: u8) -> i16 {
    let unsigned = high as int * 256 + low as int;
    (if unsigned >= 0x8000 { unsigned - 0x10000 } else { unsigned }) as i16
}

/// The sample block: accelerometer x, y, z then gyroscope x, y, z, each
/// little-endian.
pub open spec fn decoded_sample(raw: Seq<u8>) -> ImuData {
    ImuData {
        accel: Vec3i16 { x: le_i16(raw[0], raw[1]), y: le_i16(raw[2], raw[3]), z: le_i16(raw[4], raw[5]) },
        gyro: Vec3i16 { x: le_i16(raw[6], raw[7]), y: le_i16(raw[8], raw[9]), z: le_i16(raw[10], raw[11]) },
    }
}

/// Reading `len` bytes from a register.
pub open spec fn read_op(config: Qmi8658Config, register: Register, len: usize) -> I2cOpView {
    I2cOpView::WriteRead { address: config.address, bytes: seq![register.spec_addr()], len }
}

/// Writing one register.
pub open spec fn write_op(config: Qmi8658Config, register: Register, value: u8) -> I2cOpView {
    I2cOpView::Write { address: config.address, bytes: seq![register.spec_addr(), value] }
}

/// Soft reset, settling time, then the control registers 1, 7, 2 and 3.
pub open spec fn configure_ops(config: Qmi8658Config) -> Seq<I2cOpView> {
    seq![
        write_op(config, Register::Reset, config.reset_value),
        I2cOpView::DelayMs(config.reset_delay_ms),
        write_op(config, Register::Ctrl1, config.ctrl1),
        write_op(config, Register::Ctrl7, config.ctrl7),
        write_op(config, Register::Ctrl2, config.ctrl2),
        write_op(config, Register::Ctrl3, config.ctrl3),
    ]
}

/// A sample is ready when either of the two low status bits is set.
pub open spec fn sample_ready(status: u8) -> bool {
    status % 4 != 0
}

/// The step after handing back `response` while `pending`, and the procedure
/// that follows. With no procedure in progress there is nothing to continue;
/// the drivers' `resume` is never called then, and the value given is a
/// finished step that does nothing.
pub open spec fn sensor_resume(config: Qmi8658Config, pending: Qmi8658Pending, response: Seq<u8>) -> (
    StepView<Qmi8658Outcome>,
    Qmi8658Pending,
) {
    match pending {
        Qmi8658Pending::Init => if response[0] != config.expected_chip_id {
            (
                StepView::Done(
                    Seq::empty(),
                    Qmi8658Outcome::ChipIdMismatch { expected: config.expected_chip_id, found: response[0] },
                ),
                Qmi8658Pending::Idle,
            )
        } else {
            (StepView::Done(configure_ops(config), Qmi8658Outcome::Initialized), Qmi8658Pending::Idle)
        },
        Qmi8658Pending::ChipId => (StepView::Done(Seq::empty(), Qmi8658Outcome::ChipId(response[0])), Qmi8658Pending::Idle),
        Qmi8658Pending::Status => (StepView::Done(Seq::empty(), Qmi8658Outcome::Status(response[0])), Qmi8658Pending::Idle),
        Qmi8658Pending::Data => (
            StepView::Done(Seq::empty(), Qmi8658Outcome::Data(decoded_sample(response))),
            Qmi8658Pending::Idle,
        ),
        Qmi8658Pending::StatusBeforeData => if sample_ready(response[0]) {
            (StepView::Transfer(seq![read_op(config, Register::AxL, DATA_LEN)]), Qmi8658Pending::DataAfterStatus)
        } else {
            (StepView::Done(Seq::empty(), Qmi8658Outcome::DataIfReady(None)), Qmi8658Pending::Idle)
        },
        Qmi8658Pending::DataAfterStatus => (
            StepView::Done(Seq::empty(), Qmi8658Outcome::DataIfReady(Some(decoded_sample(response)))),
            Qmi8658Pending::Idle,
        ),
        Qmi8658Pending::Idle => (StepView::Done(Seq::empty(), Qmi8658Outcome::Initialized), Qmi8658Pending::Idle),
    }
}

/// A signed 16-bit value from its little-endian bytes.
fn i16_from_le(low: u8, high: u8) -> (r: i16)
    ensures
        r == le_i16(low, high),
{
    let unsigned: u16 = ((high as u16) << 8) | (low as u16);
    assert(((high as u16) << 8) | (low as u16) == high as int * 256 + low as int) by (bit_vector);
    if unsigned >= 0x8000 {
        (unsigned as i32 - 0x10000) as i16
    } else {
        unsigned as i16
    }
}

/// Decodes the sample block.
fn parse_data(raw: [u8; DATA_LEN]) -> (r: ImuData)
    ensures
        r == decoded_sample(raw@),
{
    ImuData {
        accel: Vec3i16 {
            x: i16_from_le(raw[0], raw[1]),
            y: i16_from_le(raw[2], raw[3]),
            z: i16_from_le(raw[4], raw[5]),
        },
        gyro: Vec3i16 {
            x: i16_from_le(raw[6], raw[7]),
            y: i16_from_le(raw[8], raw[9]),
            z: i16_from_le(raw[10], raw[11]),
        },
    }
}

/// Reading `len` bytes from a register, as the only transfer of a step.
fn read_registers(config: &Qmi8658Config, register: Register, len: usize) -> (r: Step<Qmi8658Outcome>)
    ensures
        r@ == StepView::<Qmi8658Outcome>::Transfer(seq![read_op(*config, register, len)]),
{
    let bytes = vec![register.addr()];
    assert(bytes@ =~= seq![register.spec_addr()]);
    let mut ops: Vec<I2cOp> = Vec::new();
    push_i2c_op(&mut ops, I2cOp::WriteRead { address: config.address, bytes, len });
    assert(i2c_ops_view(ops@) =~= seq![read_op(*config, register, len)]);
    Step::Transfer(ops)
}

/// Reading one register, as the only transfer of a step.
fn read_register(config: &Qmi8658Config, register: Register) -> (r: Step<Qmi8658Outcome>)
    ensures
        r@ == StepView::<Qmi8658Outcome>::Transfer(seq![read_op(*config, register, 1)]),
{
    read_registers(config, register, 1)
}

/// Appends a register write to a plan.
fn write_register(ops: &mut Vec<I2cOp>, config: &Qmi8658Config, register: Register, value: u8)
    ensures
        i2c_ops_view(final(ops)@) == i2c_ops_view(old(ops)@).push(write_op(*config, register, value)),
{
    let bytes = vec![register.addr(), value];
    assert(bytes@ =~= seq![register.spec_addr(), value]);
    push_i2c_op(ops, I2cOp::Write { address: config.address, bytes });
}

/// Decides what follows `response` while `pending`.
fn resume_with(config: &Qmi8658Config, pending: Qmi8658Pending, response: &[u8]) -> (r: (
    Step<Qmi8658Outcome>,
    Qmi8658Pending,
))
    requires
        response@.len() == response_len(pending),
        pending != Qmi8658Pending::Idle,
    ensures
        (r.0@, r.1) == sensor_resume(*config, pending, response@),
{
    let empty: Vec<I2cOp> = Vec::new();
    assert(i2c_ops_view(empty@) =~= Seq::<I2cOpView>::empty());
    match pending {
        Qmi8658Pending::Init => {
            let found = response[0];
            if found != config.expected_chip_id {
                return (
                    Step::Done(empty, Qmi8658Outcome::ChipIdMismatch { expected: config.expected_chip_id, found }),
                    Qmi8658Pending::Idle,
                );
            }
            let mut ops: Vec<I2cOp> = Vec::new();
            write_register(&mut ops, config, Register::Reset, config.reset_value);
            push_i2c_op(&mut ops, I2cOp::DelayMs(config.reset_delay_ms));
            write_register(&mut ops, config, Register::Ctrl1, config.ctrl1);
            write_register(&mut ops, config, Register::Ctrl7, config.ctrl7);
            write_register(&mut ops, config, Register::Ctrl2, config.ctrl2);
            write_register(&mut ops, config, Register::Ctrl3, config.ctrl3);
            assert(i2c_ops_view(ops@) =~= configure_ops(*config));
            (Step::Done(ops, Qmi8658Outcome::Initialized), Qmi8658Pending::Idle)
        },
        Qmi8658Pending::ChipId => (Step::Done(empty, Qmi8658Outcome::ChipId(response[0])), Qmi8658Pending::Idle),
        Qmi8658Pending::Status => (Step::Done(empty, Qmi8658Outcome::Status(response[0])), Qmi8658Pending::Idle),
        Qmi8658Pending::StatusBeforeData => {
            let status = response[0];
            assert(status & 0x03 == status % 4) by (bit_vector);
            if status & 0x03 == 0 {
                (Step::Done(empty, Qmi8658Outcome::DataIfReady(None)), Qmi8658Pending::Idle)
            } else {
                (read_registers(config, Register::AxL, DATA_LEN), Qmi8658Pending::DataAfterStatus)
            }
        },
        _ => {
            let raw: [u8; DATA_LEN] = [
                response[0], response[1], response[2], response[3], response[4], response[5],
                response[6], response[7], response[8], response[9], response[10], response[11],
            ];
            assert(raw@ =~= response@);
            let data = parse_data(raw);
            if pending == Qmi8658Pending::Data {
                (Step::Done(empty, Qmi8658Outcome::Data(data)), Qmi8658Pending::Idle)
            } else {
                (Step::Done(empty, Qmi8658Outcome::DataIfReady(Some(data))), Qmi8658Pending::Idle)
            }
        },
    }
}


/// A QMI8658 sensor on an I2C bus. The driver keeps the bus handle and the procedure in
/// progress; each operation returns the transfers to perform.
pub struct Qmi8658<I2C> {
    i2c: I2C,
    config: Qmi8658Config,
    pending: Qmi8658Pending,
}

impl<I2C> Qmi8658<I2C> {
    pub closed spec fn i2c(&self) -> I2C {
        self.i2c
    }

    /// The settings the driver works with.
    pub closed spec fn spec_config(&self) -> Qmi8658Config {
        self.config
    }

    /// The procedure in progress.
    pub closed spec fn spec_pending(&self) -> Qmi8658Pending {
        self.pending
    }

    /// Takes the bus handle and the settings.
    pub fn new(i2c: I2C, config: Qmi8658Config) -> (r: Self)
        ensures
            r.i2c() == i2c,
            r.spec_config() == config,
            r.spec_pending() == Qmi8658Pending::Idle,
    {
        Qmi8658 { i2c, config, pending: Qmi8658Pending::Idle }
    }

    /// Gives the bus handle back.
    pub fn release(self) -> (r: I2C)
        ensures
            r == self.i2c(),
    {
        self.i2c
    }

    /// The bus handle, to perform planned transfers with.
    pub fn bus(&mut self) -> (r: &mut I2C)
        ensures
            *r == old(self).i2c(),
            final(self).i2c() == *final(r),
            final(self).spec_config() == old(self).spec_config(),
            final(self).spec_pending() == old(self).spec_pending(),
    {
        &mut self.i2c
    }

    /// The settings the driver works with.
    #[verifier::when_used_as_spec(spec_config)]
    pub fn config(&self) -> (r: Qmi8658Config)
        ensures
            r == self.spec_config(),
    {
        self.config
    }

    /// The procedure in progress.
    #[verifier::when_used_as_spec(spec_pending)]
    pub fn pending(&self) -> (r: Qmi8658Pending)
        ensures
            r == self.spec_pending(),
    {
        self.pending
    }

    /// Starts the set-up: the identity is read first; only the expected chip
    /// is reset and configured.
    pub fn init(&mut self) -> (r: Step<Qmi8658Outcome>)
        ensures
            r@ == StepView::<Qmi8658Outcome>::Transfer(seq![read_op(old(self).spec_config(), Register::WhoAmI, 1)]),
            final(self).spec_pending() == Qmi8658Pending::Init,
            final(self).spec_config() == old(self).spec_config(),
            final(self).i2c() == old(self).i2c(),
    {
        self.pending = Qmi8658Pending::Init;
        read_register(&self.config, Register::WhoAmI)
    }

    /// Starts reading the identity register.
    pub fn read_chip_id(&mut self) -> (r: Step<Qmi8658Outcome>)
        ensures
            r@ == StepView::<Qmi8658Outcome>::Transfer(seq![read_op(old(self).spec_config(), Register::WhoAmI, 1)]),
            final(self).spec_pending() == Qmi8658Pending::ChipId,
            final(self).spec_config() == old(self).spec_config(),
            final(self).i2c() == old(self).i2c(),
    {
        self.pending = Qmi8658Pending::ChipId;
        read_register(&self.config, Register::WhoAmI)
    }

    /// Starts reading the status register.
    pub fn read_status(&mut self) -> (r: Step<Qmi8658Outcome>)
        ensures
            r@ == StepView::<Qmi8658Outcome>::Transfer(seq![read_op(old(self).spec_config(), Register::Status0, 1)]),
            final(self).spec_pending() == Qmi8658Pending::Status,
            final(self).spec_config() == old(self).spec_config(),
            final(self).i2c() == old(self).i2c(),
    {
        self.pending = Qmi8658Pending::Status;
        read_register(&self.config, Register::Status0)
    }

    /// Starts reading one sample.
    pub fn read_data(&mut self) -> (r: Step<Qmi8658Outcome>)
        ensures
            r@ == StepView::<Qmi8658Outcome>::Transfer(seq![read_op(old(self).spec_config(), Register::AxL, DATA_LEN)]),
            final(self).spec_pending() == Qmi8658Pending::Data,
            final(self).spec_config() == old(self).spec_config(),
            final(self).i2c() == old(self).i2c(),
    {
        self.pending = Qmi8658Pending::Data;
        read_registers(&self.config, Register::AxL, DATA_LEN)
    }

    /// Starts reading one sample if the status register reports one ready.
    pub fn read_data_if_ready(&mut self) -> (r: Step<Qmi8658Outcome>)
        ensures
            r@ == StepView::<Qmi8658Outcome>::Transfer(seq![read_op(old(self).spec_config(), Register::Status0, 1)]),
            final(self).spec_pending() == Qmi8658Pending::StatusBeforeData,
            final(self).spec_config() == old(self).spec_config(),
            final(self).i2c() == old(self).i2c(),
    {
        self.pending = Qmi8658Pending::StatusBeforeData;
        read_register(&self.config, Register::Status0)
    }

    /// Continues the procedure in progress with the bytes the last transfer read.
    pub fn resume(&mut self, response: &[u8]) -> (r: Step<Qmi8658Outcome>)
        requires
            old(self).spec_pending() != Qmi8658Pending::Idle,
            response@.len() == response_len(old(self).spec_pending()),
        ensures
            (r@, final(self).spec_pending()) == sensor_resume(old(self).spec_config(), old(self).spec_pending(), response@),
            final(self).spec_config() == old(self).spec_config(),
            final(self).i2c() == old(self).i2c(),
    {
        let (step, next) = resume_with(&self.config, self.pending, response);
        self.pending = next;
        step
    }
}

/// A QMI8658 sensor on an asynchronous I2C bus. The driver keeps the bus handle and the procedure in
/// progress; each operation returns the transfers to perform.
pub struct Qmi8658Async<I2C> {
    i2c: I2C,
    config: Qmi8658Config,
    pending: Qmi8658Pending,
}

impl<I2C> Qmi8658Async<I2C> {
    pub closed spec fn i2c(&self) -> I2C {
        self.i2c
    }

    /// The settings the driver works with.
    pub closed spec fn spec_config(&self) -> Qmi8658Config {
        self.config
    }

    /// The procedure in progress.
    pub closed spec fn spec_pending(&self) -> Qmi8658Pending {
        self.pending
    }

    /// Takes the bus handle and the settings.
    pub fn new(i2c: I2C, config: Qmi8658Config) -> (r: Self)
        ensures
            r.i2c() == i2c,
            r.spec_config() == config,
            r.spec_pending() == Qmi8658Pending::Idle,
    {
        Qmi8658Async { i2c, config, pending: Qmi8658Pending::Idle }
    }

    /// Gives the bus handle back.
    pub fn release(self) -> (r: I2C)
        ensures
            r == self.i2c(),
    {
        self.i2c
    }

    /// The bus handle, to perform planned transfers with.
    pub fn bus(&mut self) -> (r: &mut I2C)
        ensures
            *r == old(self).i2c(),
            final(self).i2c() == *final(r),
            final(self).spec_config() == old(self).spec_config(),
            final(self).spec_pending() == old(self).spec_pending(),
    {
        &mut self.i2c
    }

    /// The settings the driver works with.
    #[verifier::when_used_as_spec(spec_config)]
    pub fn config(&self) -> (r: Qmi8658Config)
        ensures
            r == self.spec_config(),
    {
        self.config
    }

    /// The procedure in progress.
    #[verifier::when_used_as_spec(spec_pending)]
    pub fn pending(&self) -> (r: Qmi8658Pending)
        ensures
            r == self.spec_pending(),
    {
        self.pending
    }

    /// Starts the set-up: the identity is read first; only the expected chip
    /// is reset and configured.
    pub fn init(&mut self) -> (r: Step<Qmi8658Outcome>)
        ensures
            r@ == StepView::<Qmi8658Outcome>::Transfer(seq![read_op(old(self).spec_config(), Register::WhoAmI, 1)]),
            final(self).spec_pending() == Qmi8658Pending::Init,
            final(self).spec_config() == old(self).spec_config(),
            final(self).i2c() == old(self).i2c(),
    {
        self.pending = Qmi8658Pending::Init;
        read_register(&self.config, Register::WhoAmI)
    }

    /// Starts reading the identity register.
    pub fn read_chip_id(&mut self) -> (r: Step<Qmi8658Outcome>)
        ensures
            r@ == StepView::<Qmi8658Outcome>::Transfer(seq![read_op(old(self).spec_config(), Register::WhoAmI, 1)]),
            final(self).spec_pending() == Qmi8658Pending::ChipId,
            final(self).spec_config() == old(self).spec_config(),
            final(self).i2c() == old(self).i2c(),
    {
        self.pending = Qmi8658Pending::ChipId;
        read_register(&self.config, Register::WhoAmI)
    }

    /// Starts reading the status register.
    pub fn read_status(&mut self) -> (r: Step<Qmi8658Outcome>)
        ensures
            r@ == StepView::<Qmi8658Outcome>::Transfer(seq![read_op(old(self).spec_config(), Register::Status0, 1)]),
            final(self).spec_pending() == Qmi8658Pending::Status,
            final(self).spec_config() == old(self).spec_config(),
            final(self).i2c() == old(self).i2c(),
    {
        self.pending = Qmi8658Pending::Status;
        read_register(&self.config, Register::Status0)
    }

    /// Starts reading one sample.
    pub fn read_data(&mut self) -> (r: Step<Qmi8658Outcome>)
        ensures
            r@ == StepView::<Qmi8658Outcome>::Transfer(seq![read_op(old(self).spec_config(), Register::AxL, DATA_LEN)]),
            final(self).spec_pending() == Qmi8658Pending::Data,
            final(self).spec_config() == old(self).spec_config(),
            final(self).i2c() == old(self).i2c(),
    {
        self.pending = Qmi8658Pending::Data;
        read_registers(&self.config, Register::AxL, DATA_LEN)
    }

    /// Starts reading one sample if the status register reports one ready.
    pub fn read_data_if_ready(&mut self) -> (r: Step<Qmi8658Outcome>)
        ensures
            r@ == StepView::<Qmi8658Outcome>::Transfer(seq![read_op(old(self).spec_config(), Register::Status0, 1)]),
            final(self).spec_pending() == Qmi8658Pending::StatusBeforeData,
            final(self).spec_config() == old(self).spec_config(),
            final(self).i2c() == old(self).i2c(),
    {
        self.pending = Qmi8658Pending::StatusBeforeData;
        read_register(&self.config, Register::Status0)
    }

    /// Continues the procedure in progress with the bytes the last transfer read.
    pub fn resume(&mut self, response: &[u8]) -> (r: Step<Qmi8658Outcome>)
        requires
            old(self).spec_pending() != Qmi8658Pending::Idle,
            response@.len() == response_len(old(self).spec_pending()),
        ensures
            (r@, final(self).spec_pending()) == sensor_resume(old(self).spec_config(), old(self).spec_pending(), response@),
            final(self).spec_config() == old(self).spec_config(),
            final(self).i2c() == old(self).i2c(),
    {
        let (step, next) = resume_with(&self.config, self.pending, response);
        self.pending = next;
        step
    }
}


/// Decoding the little-endian bytes of any 16-bit value gives the value back.
pub proof fn law_le_i16_round_trip(v: i16)
    ensures
        le_i16(((v as u16) % 256) as u8, ((v as u16) / 256) as u8) == v,
{
    assert((v as u16) as int == (if v < 0 { v + 0x10000 } else { v as int })) by (bit_vector);
    let u = (v as u16) as int;
    assert(((u % 256) as u8) as int == u % 256);
    assert(((u / 256) as u8) as int == u / 256);
    assert((u / 256) * 256 + u % 256 == u);
}

/// Set-up writes to the sensor only when it identifies as expected, and then
/// writes the reset, pauses, and programs the control registers.
pub proof fn law_init_writes_only_to_expected_chip(config: Qmi8658Config, response: Seq<u8>)
    requires
        response.len() == 1,
    ensures
        ({
            let (step, next) = sensor_resume(config, Qmi8658Pending::Init, response);
            &&& next == Qmi8658Pending::Idle
            &&& response[0] == config.expected_chip_id ==> step == StepView::Done(
                configure_ops(config),
                Qmi8658Outcome::Initialized,
            )
            &&& response[0] != config.expected_chip_id ==> step == StepView::Done(
                Seq::<I2cOpView>::empty(),
                Qmi8658Outcome::ChipIdMismatch { expected: config.expected_chip_id, found: response[0] },
            )
        }),
{
}

/// A sample is read after the status register exactly when it reports one
/// ready; otherwise the answer is "no sample" without further transfers.
pub proof fn law_data_if_ready(config: Qmi8658Config, status: Seq<u8>, sample: Seq<u8>)
    requires
        status.len() == 1,
        sample.len() == DATA_LEN,
    ensures
        sample_ready(status[0]) ==> sensor_resume(config, Qmi8658Pending::StatusBeforeData, status) == (
            StepView::<Qmi8658Outcome>::Transfer(seq![read_op(config, Register::AxL, DATA_LEN)]),
            Qmi8658Pending::DataAfterStatus,
        ) && sensor_resume(config, Qmi8658Pending::DataAfterStatus, sample).0 == StepView::<Qmi8658Outcome>::Done(
            Seq::empty(),
            Qmi8658Outcome::DataIfReady(Some(decoded_sample(sample))),
        ),
        !sample_ready(status[0]) ==> sensor_resume(config, Qmi8658Pending::StatusBeforeData, status).0
            == StepView::<Qmi8658Outcome>::Done(Seq::empty(), Qmi8658Outcome::DataIfReady(None)),
        sample_ready(status[0]) <==> (status[0] & 0x03 != 0),
{
    let s = status[0];
    assert((s & 0x03 != 0) == (s % 4 != 0)) by (bit_vector);
}

/// A sample read on its own and a sample read after a ready status decode alike.
pub proof fn law_sample_decoding_agrees(config: Qmi8658Config, sample: Seq<u8>)
    requires
        sample.len() == DATA_LEN,
    ensures
        sensor_resume(config, Qmi8658Pending::Data, sample).0 == StepView::<Qmi8658Outcome>::Done(
            Seq::empty(),
            Qmi8658Outcome::Data(decoded_sample(sample)),
        ),
        sensor_resume(config, Qmi8658Pending::DataAfterStatus, sample).0 == StepView::<Qmi8658Outcome>::Done(
            Seq::empty(),
            Qmi8658Outcome::DataIfReady(Some(decoded_sample(sample))),
        ),
{
}

/// The little-endian bytes of a 16-bit value.
pub open spec fn le_bytes(v: i16) -> Seq<u8> {
    seq![((v as u16) % 256) as u8, ((v as u16) / 256) as u8]
}

/// A sample as its 12-byte block: accelerometer x, y, z then gyroscope x, y,
/// z, each little-endian.
pub open spec fn sample_bytes(d: ImuData) -> Seq<u8> {
    le_bytes(d.accel.x) + le_bytes(d.accel.y) + le_bytes(d.accel.z) + le_bytes(d.gyro.x) + le_bytes(d.gyro.y)
        + le_bytes(d.gyro.z)
}

/// Encoding a decoded pair of bytes gives the bytes back.
proof fn lemma_le_bytes_of_decoded(low: u8, high: u8)
    ensures
        le_bytes(le_i16(low, high)) == seq![low, high],
{
    let u = high as int * 256 + low as int;
    let v = le_i16(low, high);
    assert(v as int == (if u >= 0x8000 { u - 0x10000 } else { u }));
    assert((v as u16) as int == (if v < 0 { v + 0x10000 } else { v as int })) by (bit_vector);
    assert((v as u16) as int == u);
    assert(u % 256 == low as int && u / 256 == high as int);
    assert(le_bytes(v) =~= seq![low, high]);
}

/// Re-encoding a decoded sample block gives the block back, and decoding the
/// block of a sample gives the sample back.
pub proof fn law_sample_block_round_trip(raw: Seq<u8>, sample: ImuData)
    requires
        raw.len() == DATA_LEN,
    ensures
        sample_bytes(decoded_sample(raw)) == raw,
        decoded_sample(sample_bytes(sample)) == sample,
{
    lemma_le_bytes_of_decoded(raw[0], raw[1]);
    lemma_le_bytes_of_decoded(raw[2], raw[3]);
    lemma_le_bytes_of_decoded(raw[4], raw[5]);
    lemma_le_bytes_of_decoded(raw[6], raw[7]);
    lemma_le_bytes_of_decoded(raw[8], raw[9]);
    lemma_le_bytes_of_decoded(raw[10], raw[11]);
    assert(sample_bytes(decoded_sample(raw)) =~= raw);
    law_le_i16_round_trip(sample.accel.x);
    law_le_i16_round_trip(sample.accel.y);
    law_le_i16_round_trip(sample.accel.z);
    law_le_i16_round_trip(sample.gyro.x);
    law_le_i16_round_trip(sample.gyro.y);
    law_le_i16_round_trip(sample.gyro.z);
    let b = sample_bytes(sample);
    assert(b[0] == le_bytes(sample.accel.x)[0] && b[1] == le_bytes(sample.accel.x)[1]);
    assert(b[2] == le_bytes(sample.accel.y)[0] && b[3] == le_bytes(sample.accel.y)[1]);
    assert(b[4] == le_bytes(sample.accel.z)[0] && b[5] == le_bytes(sample.accel.z)[1]);
    assert(b[6] == le_bytes(sample.gyro.x)[0] && b[7] == le_bytes(sample.gyro.x)[1]);
    assert(b[8] == le_bytes(sample.gyro.y)[0] && b[9] == le_bytes(sample.gyro.y)[1]);
    assert(b[10] == le_bytes(sample.gyro.z)[0] && b[11] == le_bytes(sample.gyro.z)[1]);
}

/// A single-register read reports the byte the sensor answered: the identity
/// read gives the WHO_AM_I byte, whatever identity the settings expect, and
/// the status read gives the status byte.
pub proof fn law_register_reads_report_the_byte_read(config: Qmi8658Config, response: Seq<u8>)
    requires
        response.len() == 1,
    ensures
        sensor_resume(config, Qmi8658Pending::ChipId, response).0 matches StepView::Done(ops, Qmi8658Outcome::ChipId(
            id,
        )) && ops.len() == 0 && id == response[0],
        sensor_resume(config, Qmi8658Pending::Status, response).0 matches StepView::Done(ops, Qmi8658Outcome::Status(
            status,
        )) && ops.len() == 0 && status == response[0],
{
}

} // verus!
