//! Driver logic for the AXS5106 capacitive touch controller on I2C.
//!
//! A touch report is one 14-byte frame read from register 0x01. The driver
//! plans the transfers, decodes the frame it is handed back, and maps the raw
//! coordinates onto the screen (axis swap and mirroring).
use vstd::prelude::*;

use crate::bus::{Fault, I2cOp, I2cOpView, Step, StepView, i2c_ops_view, push_i2c_op};

verus! {

/// Length of a touch report frame.
pub const RAW_FRAME_LEN: usize = 14;

/// Registers of the controller.
#[derive(Debug, Clone, Copy, PartialEq, Eq, Structural)]
pub enum Register {
    TouchData,
    TouchPoints,
    TouchP1XHigh,
    TouchP1XLow,
    TouchP1YHigh,
    TouchP1YLow,
    TouchP2XHigh,
    TouchP2XLow,
    TouchP2YHigh,
    TouchP2YLow,
    Raw(u8),
}

impl Register {
    /// The address of each register.
    pub open spec fn spec_addr(self) -> u8 {
        match self {
            Register::TouchData | Register::TouchPoints => 0x01,
            Register::TouchP1XHigh => 0x03,
            Register::TouchP1XLow => 0x04,
            Register::TouchP1YHigh => 0x05,
            Register::TouchP1YLow => 0x06,
            Register::TouchP2XHigh => 0x09,
            Register::TouchP2XLow => 0x0A,
            Register::TouchP2YHigh => 0x0B,
            Register::TouchP2YLow => 0x0C,
            Register::Raw(value) => value,
        }
    }

    /// The register address.
    #[verifier::when_used_as_spec(spec_addr)]
    pub fn addr(self) -> (r: u8)
        ensures
            r == self.spec_addr(),
    {
        match self {
            Register::TouchData | Register::TouchPoints => 0x01,
            Register::TouchP1XHigh => 0x03,
            Register::TouchP1XLow => 0x04,
            Register::TouchP1YHigh => 0x05,
            Register::TouchP1YLow => 0x06,
            Register::TouchP2XHigh => 0x09,
            Register::TouchP2XLow => 0x0A,
            Register::TouchP2YHigh => 0x0B,
            Register::TouchP2YLow => 0x0C,
            Register::Raw(value) => value,
        }
    }
}

/// Which touch slot of a frame to decode.
#[derive(Debug, Clone, Copy, PartialEq, Eq, Structural)]
enum TouchSlot {
    First,
}

impl TouchSlot {
    spec fn spec_data_offset(self) -> usize {
        match self {
            TouchSlot::First => 2,
        }
    }

    /// Offset of the slot's coordinates in the frame.
    fn data_offset(self) -> (r: usize)
        ensures
            r == self.spec_data_offset(),
    {
        match self {
            TouchSlot::First => 2,
        }
    }
}

/// A raw touch report.
#[derive(Debug, Clone, Copy)]
struct TouchDataFrame {
    raw: [u8; RAW_FRAME_LEN],
}

/// Settings of a touch controller.
#[derive(Debug, Clone, Copy, PartialEq, Eq, Structural)]
pub struct Axs5106Config {
    pub address: u8,
    pub width: u16,
    pub height: u16,
    pub swap_xy: bool,
    pub mirror_x: bool,
    pub mirror_y: bool,
    pub reset_active_high: bool,
}

impl Default for Axs5106Config {
    fn default() -> (r: Self)
        ensures
            r == (Axs5106Config {
                address: 0x63,
                width: 172,
                height: 320,
                swap_xy: false,
                mirror_x: false,
                mirror_y: false,
                reset_active_high: false,
            }),
    {
        Axs5106Config {
            address: 0x63,
            width: 172,
            height: 320,
            swap_xy: false,
            mirror_x: false,
            mirror_y: false,
            reset_active_high: false,
        }
    }
}

/// A touch on the screen.
#[derive(Debug, Clone, Copy, PartialEq, Eq, Default)]
pub struct TouchPoint {
    pub x: u16,
    pub y: u16,
    pub strength: Option<u16>,
}

/// Errors of the touch driver: those of the bus and of the reset pin.
#[derive(Debug, Clone, Copy, PartialEq, Eq)]
pub enum Error<I2cError, PinError> {
    I2c(I2cError),
    Pin(PinError),
}

/// The error of a touch operation whose plan stopped on a failure: the bus's
/// error for a bus failure, the pin's for a pin failure.
pub fn touch_error<IE, PE>(fault: Fault<IE, PE>) -> (e: Error<IE, PE>)
    ensures
        e == match fault {
            Fault::Bus(error) => Error::<IE, PE>::I2c(error),
            Fault::Pin(error) => Error::<IE, PE>::Pin(error),
        },
{
    match fault {
        Fault::Bus(error) => Error::I2c(error),
        Fault::Pin(error) => Error::Pin(error),
    }
}

/// What a finished touch procedure gives.
#[derive(Debug, Clone, Copy, PartialEq, Eq)]
pub enum Axs5106Outcome {
    /// The frame as read.
    RawFrame([u8; RAW_FRAME_LEN]),
    /// The decoded touch, if the frame reports one.
    Touch(Option<TouchPoint>),
    /// A touch was reported.
    Touched,
}

/// The procedure a touch driver is in the middle of.
#[derive(Debug, Clone, Copy, PartialEq, Eq, Structural)]
pub enum Axs5106Pending {
    Idle,
    RawFrame,
    Touches,
    WaitForTouch,
}

/// A coordinate mirrored within `extent` pixels; coordinates beyond the extent
/// go to 0.
pub open spec fn mirrored(extent: u16, v: u16) -> u16 {
    if v < extent {
        (extent - 1 - v) as u16
    } else {
        0
    }
}

/// A raw touch coordinate pair mapped onto the screen: the axes are exchanged
/// first, then each axis is mirrored within the (exchanged) screen extent.
pub open spec fn screen_point(config: Axs5106Config, raw_x: u16, raw_y: u16) -> (u16, u16) {
    let x0 = if config.swap_xy { raw_y } else { raw_x };
    let y0 = if config.swap_xy { raw_x } else { raw_y };
    let extent_x = if config.swap_xy { config.height } else { config.width };
    let extent_y = if config.swap_xy { config.width } else { config.height };
    (
        if config.mirror_x { mirrored(extent_x, x0) } else { x0 },
        if config.mirror_y { mirrored(extent_y, y0) } else { y0 },
    )
}

/// A 12-bit coordinate: low nibble of `high`, then `low`.
pub open spec fn coordinate(high: u8, low: u8) -> u16 {
    ((high % 16) as int * 256 + low as int) as u16
}

/// A frame reports a touch when the low nibble of its point count is non-zero.
pub open spec fn frame_has_touch(frame: Seq<u8>) -> bool {
    frame[1] % 16 != 0
}

/// The touch a frame reports, if any: only the first point counts.
pub open spec fn decoded_touch(config: Axs5106Config, frame: Seq<u8>) -> Option<TouchPoint> {
    if frame_has_touch(frame) {
        let p = screen_point(config, coordinate(frame[2], frame[3]), coordinate(frame[4], frame[5]));
        Some(TouchPoint { x: p.0, y: p.1, strength: None })
    } else {
        None
    }
}

/// The transfers that fetch a touch frame.
pub open spec fn frame_ops(config: Axs5106Config) -> Seq<I2cOpView> {
    seq![
        I2cOpView::Write { address: config.address, bytes: seq![0x01u8] },
        I2cOpView::Read { address: config.address, len: RAW_FRAME_LEN },
    ]
}

/// The reset pulse, when there is a reset line.
pub open spec fn touch_reset_ops(config: Axs5106Config, has_reset_pin: bool) -> Seq<I2cOpView> {
    if has_reset_pin {
        seq![
            I2cOpView::SetReset(config.reset_active_high),
            I2cOpView::DelayMs(10),
            I2cOpView::SetReset(!config.reset_active_high),
            I2cOpView::DelayMs(10),
        ]
    } else {
        Seq::empty()
    }
}

/// One round of waiting for a touch: the interrupt edge when there is an
/// interrupt line, else a 10 ms pause; then a frame.
pub open spec fn wait_round_ops(config: Axs5106Config, has_interrupt: bool) -> Seq<I2cOpView> {
    seq![if has_interrupt { I2cOpView::WaitForInterrupt } else { I2cOpView::DelayMs(10) }] + frame_ops(config)
}

/// What follows handing back a frame while `pending`: the step `step` and the
/// procedure `next` after it.
pub open spec fn touch_resumed(
    config: Axs5106Config,
    pending: Axs5106Pending,
    has_interrupt: bool,
    frame: Seq<u8>,
    step: StepView<Axs5106Outcome>,
    next: Axs5106Pending,
) -> bool {
    match pending {
        Axs5106Pending::Idle => false,
        Axs5106Pending::RawFrame => {
            &&& step matches StepView::Done(ops, Axs5106Outcome::RawFrame(raw)) && ops.len() == 0 && raw@ == frame
            &&& next == Axs5106Pending::Idle
        },
        Axs5106Pending::Touches => {
            &&& step == StepView::Done(Seq::empty(), Axs5106Outcome::Touch(decoded_touch(config, frame)))
            &&& next == Axs5106Pending::Idle
        },
        Axs5106Pending::WaitForTouch => if frame_has_touch(frame) {
            &&& step == StepView::<Axs5106Outcome>::Done(Seq::empty(), Axs5106Outcome::Touched)
            &&& next == Axs5106Pending::Idle
        } else {
            &&& step == StepView::<Axs5106Outcome>::Transfer(wait_round_ops(config, has_interrupt))
            &&& next == Axs5106Pending::WaitForTouch
        },
    }
}

impl TouchDataFrame {
    spec fn frame(self) -> Seq<u8> {
        self.raw@
    }

    fn new(raw: [u8; RAW_FRAME_LEN]) -> (r: Self)
        ensures
            r.raw == raw,
    {
        TouchDataFrame { raw }
    }

    /// Number of reported points, capped at one.
    fn point_count_primary(&self) -> (r: usize)
        ensures
            r == (if frame_has_touch(self.raw@) { 1usize } else { 0usize }),
    {
        let points = self.raw[1];
        let count = points & 0x0F;
        assert(points & 0x0F == points % 16) by (bit_vector);
        if count < 1 {
            count as usize
        } else {
            1
        }
    }

    /// The point in a slot, mapped onto the screen.
    fn point(&self, slot: TouchSlot, config: &Axs5106Config) -> (r: TouchPoint)
        ensures
            ({
                let p = screen_point(*config, coordinate(self.raw@[2], self.raw@[3]), coordinate(self.raw@[4], self.raw@[5]));
                r == TouchPoint { x: p.0, y: p.1, strength: None }
            }),
    {
        let base = slot.data_offset();
        let raw_x = twelve_bit(self.raw[base], self.raw[base + 1]);
        let raw_y = twelve_bit(self.raw[base + 2], self.raw[base + 3]);
        let (x, y) = transform_point(config, raw_x, raw_y);
        TouchPoint { x, y, strength: None }
    }
}

/// A 12-bit coordinate from its two register bytes.
fn twelve_bit(high: u8, low: u8) -> (r: u16)
    ensures
        r == coordinate(high, low),
        r <= 0x0FFF,
{
    let r = (((high & 0x0F) as u16) << 8) | (low as u16);
    assert((((high & 0x0F) as u16) << 8) | (low as u16) == ((high % 16) as int * 256 + low as int) as u16
        && (((high & 0x0F) as u16) << 8) | (low as u16) <= 0x0FFF) by (bit_vector);
    r
}

/// Maps a raw coordinate pair onto the screen.
fn transform_point(config: &Axs5106Config, raw_x: u16, raw_y: u16) -> (r: (u16, u16))
    ensures
        r == screen_point(*config, raw_x, raw_y),
{
    let (mut x, mut y) = if config.swap_xy {
        (raw_y, raw_x)
    } else {
        (raw_x, raw_y)
    };
    let (width, height) = if config.swap_xy {
        (config.height, config.width)
    } else {
        (config.width, config.height)
    };
    if config.mirror_x {
        x = width.saturating_sub(1).saturating_sub(x);
    }
    if config.mirror_y {
        y = height.saturating_sub(1).saturating_sub(y);
    }
    (x, y)
}

/// The touch a frame reports, if any.
fn decode_touch_frame(frame: TouchDataFrame, config: &Axs5106Config) -> (r: Option<TouchPoint>)
    ensures
        r == decoded_touch(*config, frame.raw@),
{
    let count = frame.point_count_primary();
    let count = if count < 1 { count } else { 1 };
    if count >= 1 {
        Some(frame.point(TouchSlot::First, config))
    } else {
        None
    }
}

/// The transfers that fetch a touch frame.
fn push_frame_ops(ops: &mut Vec<I2cOp>, config: &Axs5106Config)
    ensures
        i2c_ops_view(final(ops)@) == i2c_ops_view(old(ops)@) + frame_ops(*config),
{
    let register = vec![Register::TouchData.addr()];
    assert(register@ =~= seq![0x01u8]);
    push_i2c_op(ops, I2cOp::Write { address: config.address, bytes: register });
    push_i2c_op(ops, I2cOp::Read { address: config.address, len: RAW_FRAME_LEN });
    assert(i2c_ops_view(ops@) =~= i2c_ops_view(old(ops)@) + frame_ops(*config));
}

fn frame_step(config: &Axs5106Config) -> (r: Step<Axs5106Outcome>)
    ensures
        r@ == StepView::<Axs5106Outcome>::Transfer(frame_ops(*config)),
{
    let mut ops: Vec<I2cOp> = Vec::new();
    push_frame_ops(&mut ops, config);
    assert(i2c_ops_view(ops@) =~= frame_ops(*config));
    Step::Transfer(ops)
}

fn reset_plan(config: &Axs5106Config, has_reset_pin: bool) -> (ops: Vec<I2cOp>)
    ensures
        i2c_ops_view(ops@) == touch_reset_ops(*config, has_reset_pin),
{
    let mut ops: Vec<I2cOp> = Vec::new();
    if has_reset_pin {
        push_i2c_op(&mut ops, I2cOp::SetReset(config.reset_active_high));
        push_i2c_op(&mut ops, I2cOp::DelayMs(10));
        push_i2c_op(&mut ops, I2cOp::SetReset(!config.reset_active_high));
        push_i2c_op(&mut ops, I2cOp::DelayMs(10));
    }
    assert(i2c_ops_view(ops@) =~= touch_reset_ops(*config, has_reset_pin));
    ops
}

fn wait_round(config: &Axs5106Config, has_interrupt: bool) -> (r: Step<Axs5106Outcome>)
    ensures
        r@ == StepView::<Axs5106Outcome>::Transfer(wait_round_ops(*config, has_interrupt)),
{
    let mut ops: Vec<I2cOp> = Vec::new();
    if has_interrupt {
        push_i2c_op(&mut ops, I2cOp::WaitForInterrupt);
    } else {
        push_i2c_op(&mut ops, I2cOp::DelayMs(10));
    }
    push_frame_ops(&mut ops, config);
    assert(i2c_ops_view(ops@) =~= wait_round_ops(*config, has_interrupt));
    Step::Transfer(ops)
}

/// Decides what follows a frame handed back while `pending`.
fn resume_with(config: &Axs5106Config, pending: Axs5106Pending, has_interrupt: bool, frame: &[u8]) -> (r: (
    Step<Axs5106Outcome>,
    Axs5106Pending,
))
    requires
        pending != Axs5106Pending::Idle,
        frame@.len() == RAW_FRAME_LEN,
    ensures
        touch_resumed(*config, pending, has_interrupt, frame@, r.0@, r.1),
{
    let raw: [u8; RAW_FRAME_LEN] = [
        frame[0], frame[1], frame[2], frame[3], frame[4], frame[5], frame[6],
        frame[7], frame[8], frame[9], frame[10], frame[11], frame[12], frame[13],
    ];
    assert(raw@ =~= frame@);
    let empty: Vec<I2cOp> = Vec::new();
    assert(i2c_ops_view(empty@) =~= Seq::<I2cOpView>::empty());
    match pending {
        Axs5106Pending::RawFrame => (Step::Done(empty, Axs5106Outcome::RawFrame(raw)), Axs5106Pending::Idle),
        Axs5106Pending::Touches => {
            let touch = decode_touch_frame(TouchDataFrame::new(raw), config);
            (Step::Done(empty, Axs5106Outcome::Touch(touch)), Axs5106Pending::Idle)
        },
        _ => {
            let touched = decode_touch_frame(TouchDataFrame::new(raw), config).is_some();
            if touched {
                (Step::Done(empty, Axs5106Outcome::Touched), Axs5106Pending::Idle)
            } else {
                (wait_round(config, has_interrupt), Axs5106Pending::WaitForTouch)
            }
        },
    }
}


/// An AXS5106 touch controller on an I2C bus. The driver keeps the bus handles and the
/// procedure in progress; each operation returns the work to perform.
pub struct Axs5106<I2C, RST> {
    i2c: I2C,
    rst: Option<RST>,
    config: Axs5106Config,
    pending: Axs5106Pending,
}

impl<I2C, RST> Axs5106<I2C, RST> {
    pub closed spec fn i2c(&self) -> I2C {
        self.i2c
    }

    pub closed spec fn rst(&self) -> Option<RST> {
        self.rst
    }

    /// The settings the driver works with.
    pub closed spec fn spec_config(&self) -> Axs5106Config {
        self.config
    }

    /// The procedure in progress.
    pub closed spec fn spec_pending(&self) -> Axs5106Pending {
        self.pending
    }

    /// Whether waiting for a touch watches an interrupt line.
    pub closed spec fn has_interrupt(&self) -> bool {
        false
    }

    /// Takes the bus handles and the settings.
    pub fn new(i2c: I2C, rst: Option<RST>, config: Axs5106Config) -> (r: Self)
        ensures
            r.i2c() == i2c,
            r.rst() == rst,
            r.spec_config() == config,
            r.spec_pending() == Axs5106Pending::Idle,
    {
        Axs5106 { i2c, rst, config, pending: Axs5106Pending::Idle }
    }

    /// Gives the bus handles back.
    pub fn release(self) -> (r: (I2C, Option<RST>))
        ensures
            r == (self.i2c(), self.rst()),
    {
        (self.i2c, self.rst)
    }

    /// The bus handle and the reset line, to perform planned operations with.
    pub fn bus(&mut self) -> (r: (&mut I2C, &mut Option<RST>))
        ensures
            *r.0 == old(self).i2c(),
            *r.1 == old(self).rst(),
            final(self).i2c() == *final(r.0),
            final(self).rst() == *final(r.1),
            final(self).spec_config() == old(self).spec_config(),
            final(self).spec_pending() == old(self).spec_pending(),
            final(self).has_interrupt() == old(self).has_interrupt(),
    {
        (&mut self.i2c, &mut self.rst)
    }

    /// The settings the driver works with.
    #[verifier::when_used_as_spec(spec_config)]
    pub fn config(&self) -> (r: Axs5106Config)
        ensures
            r == self.spec_config(),
    {
        self.config
    }

    /// The procedure in progress.
    #[verifier::when_used_as_spec(spec_pending)]
    pub fn pending(&self) -> (r: Axs5106Pending)
        ensures
            r == self.spec_pending(),
    {
        self.pending
    }

    /// The controller needs no setup beyond a reset.
    pub fn init<IE, PE>(&self) -> (r: Result<(), Error<IE, PE>>)
        ensures
            r is Ok,
    {
        Ok(())
    }

    /// Pulses the reset line, if there is one.
    pub fn reset(&self) -> (ops: Vec<I2cOp>)
        ensures
            i2c_ops_view(ops@) == touch_reset_ops(self.spec_config(), self.rst() is Some),
    {
        reset_plan(&self.config, self.rst.is_some())
    }

    /// Starts reading one raw touch frame.
    pub fn read_raw_frame(&mut self) -> (r: Step<Axs5106Outcome>)
        ensures
            r@ == StepView::<Axs5106Outcome>::Transfer(frame_ops(old(self).spec_config())),
            final(self).spec_pending() == Axs5106Pending::RawFrame,
            final(self).spec_config() == old(self).spec_config(),
            final(self).i2c() == old(self).i2c(),
            final(self).rst() == old(self).rst(),
            final(self).has_interrupt() == old(self).has_interrupt(),
    {
        self.pending = Axs5106Pending::RawFrame;
        frame_step(&self.config)
    }

    /// Starts reading the current touch.
    pub fn read_touches(&mut self) -> (r: Step<Axs5106Outcome>)
        ensures
            r@ == StepView::<Axs5106Outcome>::Transfer(frame_ops(old(self).spec_config())),
            final(self).spec_pending() == Axs5106Pending::Touches,
            final(self).spec_config() == old(self).spec_config(),
            final(self).i2c() == old(self).i2c(),
            final(self).rst() == old(self).rst(),
            final(self).has_interrupt() == old(self).has_interrupt(),
    {
        self.pending = Axs5106Pending::Touches;
        frame_step(&self.config)
    }

    /// Continues the procedure in progress with the frame the last transfer read.
    pub fn resume(&mut self, frame: &[u8]) -> (r: Step<Axs5106Outcome>)
        requires
            old(self).spec_pending() != Axs5106Pending::Idle,
            frame@.len() == RAW_FRAME_LEN,
        ensures
            touch_resumed(
                old(self).spec_config(),
                old(self).spec_pending(),
                old(self).has_interrupt(),
                frame@,
                r@,
                final(self).spec_pending(),
            ),
            final(self).spec_config() == old(self).spec_config(),
            final(self).i2c() == old(self).i2c(),
            final(self).rst() == old(self).rst(),
            final(self).has_interrupt() == old(self).has_interrupt(),
    {
        let (step, next) = resume_with(&self.config, self.pending, false, frame);
        self.pending = next;
        step
    }
}

/// An AXS5106 touch controller on an asynchronous I2C bus, with an optional interrupt line. The driver keeps the bus handles and the
/// procedure in progress; each operation returns the work to perform.
pub struct Axs5106Async<I2C, RST, INT> {
    i2c: I2C,
    rst: Option<RST>,
    int_pin: Option<INT>,
    config: Axs5106Config,
    pending: Axs5106Pending,
}

impl<I2C, RST, INT> Axs5106Async<I2C, RST, INT> {
    pub closed spec fn i2c(&self) -> I2C {
        self.i2c
    }

    pub closed spec fn rst(&self) -> Option<RST> {
        self.rst
    }

    pub closed spec fn interrupt(&self) -> Option<INT> {
        self.int_pin
    }

    /// The settings the driver works with.
    pub closed spec fn spec_config(&self) -> Axs5106Config {
        self.config
    }

    /// The procedure in progress.
    pub closed spec fn spec_pending(&self) -> Axs5106Pending {
        self.pending
    }

    /// Whether waiting for a touch watches an interrupt line.
    pub closed spec fn has_interrupt(&self) -> bool {
        self.int_pin is Some
    }

    /// Takes the bus handles and the settings.
    pub fn new(i2c: I2C, rst: Option<RST>, int_pin: Option<INT>, config: Axs5106Config) -> (r: Self)
        ensures
            r.i2c() == i2c,
            r.rst() == rst,
            r.interrupt() == int_pin,
            r.has_interrupt() == (int_pin is Some),
            r.spec_config() == config,
            r.spec_pending() == Axs5106Pending::Idle,
    {
        Axs5106Async { i2c, rst, int_pin, config, pending: Axs5106Pending::Idle }
    }

    /// Gives the bus handles back.
    pub fn release(self) -> (r: (I2C, Option<RST>, Option<INT>))
        ensures
            r == (self.i2c(), self.rst(), self.interrupt()),
    {
        (self.i2c, self.rst, self.int_pin)
    }

    /// The bus handle, the reset line and the interrupt line, to perform
    /// planned operations with.
    pub fn bus(&mut self) -> (r: (&mut I2C, &mut Option<RST>, &mut Option<INT>))
        ensures
            *r.0 == old(self).i2c(),
            *r.1 == old(self).rst(),
            *r.2 == old(self).interrupt(),
            final(self).i2c() == *final(r.0),
            final(self).rst() == *final(r.1),
            final(self).interrupt() == *final(r.2),
            final(self).has_interrupt() == (*final(r.2) is Some),
            final(self).spec_config() == old(self).spec_config(),
            final(self).spec_pending() == old(self).spec_pending(),
    {
        (&mut self.i2c, &mut self.rst, &mut self.int_pin)
    }

    /// The settings the driver works with.
    #[verifier::when_used_as_spec(spec_config)]
    pub fn config(&self) -> (r: Axs5106Config)
        ensures
            r == self.spec_config(),
    {
        self.config
    }

    /// The procedure in progress.
    #[verifier::when_used_as_spec(spec_pending)]
    pub fn pending(&self) -> (r: Axs5106Pending)
        ensures
            r == self.spec_pending(),
    {
        self.pending
    }

    /// The controller needs no setup beyond a reset.
    pub fn init<IE, PE>(&self) -> (r: Result<(), Error<IE, PE>>)
        ensures
            r is Ok,
    {
        Ok(())
    }

    /// Pulses the reset line, if there is one.
    pub fn reset(&self) -> (ops: Vec<I2cOp>)
        ensures
            i2c_ops_view(ops@) == touch_reset_ops(self.spec_config(), self.rst() is Some),
    {
        reset_plan(&self.config, self.rst.is_some())
    }

    /// Starts reading one raw touch frame.
    pub fn read_raw_frame(&mut self) -> (r: Step<Axs5106Outcome>)
        ensures
            r@ == StepView::<Axs5106Outcome>::Transfer(frame_ops(old(self).spec_config())),
            final(self).spec_pending() == Axs5106Pending::RawFrame,
            final(self).spec_config() == old(self).spec_config(),
            final(self).i2c() == old(self).i2c(),
            final(self).rst() == old(self).rst(),
            final(self).has_interrupt() == old(self).has_interrupt(),
    {
        self.pending = Axs5106Pending::RawFrame;
        frame_step(&self.config)
    }

    /// Starts reading the current touch.
    pub fn read_touches(&mut self) -> (r: Step<Axs5106Outcome>)
        ensures
            r@ == StepView::<Axs5106Outcome>::Transfer(frame_ops(old(self).spec_config())),
            final(self).spec_pending() == Axs5106Pending::Touches,
            final(self).spec_config() == old(self).spec_config(),
            final(self).i2c() == old(self).i2c(),
            final(self).rst() == old(self).rst(),
            final(self).has_interrupt() == old(self).has_interrupt(),
    {
        self.pending = Axs5106Pending::Touches;
        frame_step(&self.config)
    }

    /// Starts waiting for a touch: each round waits for the interrupt edge (or
    /// 10 ms without an interrupt line) and reads a frame, until a frame
    /// reports a touch.
    pub fn wait_for_touch(&mut self) -> (r: Step<Axs5106Outcome>)
        ensures
            r@ == StepView::<Axs5106Outcome>::Transfer(wait_round_ops(old(self).spec_config(), old(self).has_interrupt())),
            final(self).spec_pending() == Axs5106Pending::WaitForTouch,
            final(self).spec_config() == old(self).spec_config(),
            final(self).i2c() == old(self).i2c(),
            final(self).rst() == old(self).rst(),
            final(self).has_interrupt() == old(self).has_interrupt(),
    {
        self.pending = Axs5106Pending::WaitForTouch;
        wait_round(&self.config, self.int_pin.is_some())
    }

    /// Continues the procedure in progress with the frame the last transfer read.
    pub fn resume(&mut self, frame: &[u8]) -> (r: Step<Axs5106Outcome>)
        requires
            old(self).spec_pending() != Axs5106Pending::Idle,
            frame@.len() == RAW_FRAME_LEN,
        ensures
            touch_resumed(
                old(self).spec_config(),
                old(self).spec_pending(),
                old(self).has_interrupt(),
                frame@,
                r@,
                final(self).spec_pending(),
            ),
            final(self).spec_config() == old(self).spec_config(),
            final(self).i2c() == old(self).i2c(),
            final(self).rst() == old(self).rst(),
            final(self).has_interrupt() == old(self).has_interrupt(),
    {
        let (step, next) = resume_with(&self.config, self.pending, self.int_pin.is_some(), frame);
        self.pending = next;
        step
    }
}


/// Mirroring keeps a coordinate on the screen, and mirroring an on-screen
/// coordinate twice gives it back.
pub proof fn law_mirror_involution(extent: u16, v: u16)
    ensures
        extent > 0 ==> mirrored(extent, v) < extent,
        v < extent ==> mirrored(extent, mirrored(extent, v)) == v,
{
}

/// A raw point inside the (possibly exchanged) screen extent is mapped to a
/// point inside it.
pub proof fn law_screen_point_in_bounds(config: Axs5106Config, raw_x: u16, raw_y: u16)
    requires
        (if config.swap_xy { raw_y } else { raw_x }) < (if config.swap_xy { config.height } else { config.width }),
        (if config.swap_xy { raw_x } else { raw_y }) < (if config.swap_xy { config.width } else { config.height }),
    ensures
        screen_point(config, raw_x, raw_y).0 < (if config.swap_xy { config.height } else { config.width }),
        screen_point(config, raw_x, raw_y).1 < (if config.swap_xy { config.width } else { config.height }),
{
}

/// Raw touch coordinates are 12-bit; without axis changes the reported point
/// is the raw one.
pub proof fn law_raw_coordinates_are_twelve_bit(config: Axs5106Config, frame: Seq<u8>)
    requires
        frame.len() == RAW_FRAME_LEN,
        frame_has_touch(frame),
        !config.swap_xy,
        !config.mirror_x,
        !config.mirror_y,
    ensures
        decoded_touch(config, frame) matches Some(p) && p.x == coordinate(frame[2], frame[3])
            && p.y == coordinate(frame[4], frame[5]) && p.x <= 0x0FFF && p.y <= 0x0FFF && p.strength is None,
{
}

/// A frame gives at most one touch, and gives one exactly when its point count
/// is non-zero; the second point of a frame never matters.
pub proof fn law_single_touch(config: Axs5106Config, frame: Seq<u8>, other: Seq<u8>)
    requires
        frame.len() == RAW_FRAME_LEN,
        other.len() == RAW_FRAME_LEN,
        forall|i: int| 0 <= i < 6 ==> frame[i] == other[i],
        frame[1] % 16 != 0 <==> other[1] % 16 != 0,
    ensures
        decoded_touch(config, frame) is Some <==> frame[1] % 16 != 0,
        decoded_touch(config, frame) == decoded_touch(config, other),
{
}

/// Waiting for a touch ends exactly on a frame that reports one; otherwise
/// it waits another round.
pub proof fn law_wait_ends_on_touch(config: Axs5106Config, has_interrupt: bool, frame: Seq<u8>, step: StepView<Axs5106Outcome>, next: Axs5106Pending)
    requires
        touch_resumed(config, Axs5106Pending::WaitForTouch, has_interrupt, frame, step, next),
    ensures
        step is Done <==> frame_has_touch(frame),
        step is Transfer ==> step == StepView::<Axs5106Outcome>::Transfer(wait_round_ops(config, has_interrupt))
            && next == Axs5106Pending::WaitForTouch,
{
}

/// Where a raw touch lands on the screen, axis by axis. With the axes
/// exchanged, the reported x comes from the raw y and the reported y from the
/// raw x, and mirroring works within the exchanged extents (height for x,
/// width for y); without, each axis keeps its raw coordinate and its own
/// extent. A mirrored coordinate inside its extent `e` becomes `e - 1 - v`.
pub proof fn law_screen_point_axes(config: Axs5106Config, raw_x: u16, raw_y: u16)
    ensures
        !config.swap_xy && !config.mirror_x ==> screen_point(config, raw_x, raw_y).0 == raw_x,
        !config.swap_xy && !config.mirror_y ==> screen_point(config, raw_x, raw_y).1 == raw_y,
        config.swap_xy && !config.mirror_x ==> screen_point(config, raw_x, raw_y).0 == raw_y,
        config.swap_xy && !config.mirror_y ==> screen_point(config, raw_x, raw_y).1 == raw_x,
        !config.swap_xy && config.mirror_x && raw_x < config.width ==> screen_point(config, raw_x, raw_y).0
            == config.width - 1 - raw_x,
        !config.swap_xy && config.mirror_y && raw_y < config.height ==> screen_point(config, raw_x, raw_y).1
            == config.height - 1 - raw_y,
        config.swap_xy && config.mirror_x && raw_y < config.height ==> screen_point(config, raw_x, raw_y).0
            == config.height - 1 - raw_y,
        config.swap_xy && config.mirror_y && raw_x < config.width ==> screen_point(config, raw_x, raw_y).1
            == config.width - 1 - raw_x,
{
}

} // verus!
