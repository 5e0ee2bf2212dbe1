//! The bus work that the drivers plan.
//!
//! The drivers never touch the hardware themselves: every method computes the
//! exact sequence of pin changes, bus transfers and pauses that the hardware
//! must see, as plain values. Whoever owns the buses performs them in order and,
//! for reads, hands the bytes back to the driver.
use vstd::prelude::*;

verus! {

/// One step of work on the SPI panel interface.
#[derive(Debug, Clone, PartialEq, Eq)]
pub enum PanelOp {
    /// Drive the data/command select line: `false` for a command byte, `true` for data.
    SetDc(bool),
    /// Drive the reset line to the given level.
    SetReset(bool),
    /// Write the bytes on the SPI device.
    Write(Vec<u8>),
    /// Pause for the given number of milliseconds.
    DelayMs(u32),
}

/// What a [`PanelOp`] stands for, with its bytes as a sequence.
pub enum PanelOpView {
    SetDc(bool),
    SetReset(bool),
    Write(Seq<u8>),
    DelayMs(u32),
}

impl View for PanelOp {
    type V = PanelOpView;

    open spec fn view(&self) -> PanelOpView {
        match self {
            PanelOp::SetDc(level) => PanelOpView::SetDc(*level),
            PanelOp::SetReset(level) => PanelOpView::SetReset(*level),
            PanelOp::Write(bytes) => PanelOpView::Write(bytes@),
            PanelOp::DelayMs(ms) => PanelOpView::DelayMs(*ms),
        }
    }
}

/// One step of work around an I2C device.
#[derive(Debug, Clone, PartialEq, Eq)]
pub enum I2cOp {
    /// Write the bytes to the device at `address`.
    Write { address: u8, bytes: Vec<u8> },
    /// Read `len` bytes from the device at `address`.
    Read { address: u8, len: usize },
    /// Write the bytes, then read `len` bytes, in one transaction.
    WriteRead { address: u8, bytes: Vec<u8>, len: usize },
    /// Drive the reset line to the given level.
    SetReset(bool),
    /// Pause for the given number of milliseconds.
    DelayMs(u32),
    /// Wait for any edge on the interrupt line.
    WaitForInterrupt,
}

/// What an [`I2cOp`] stands for, with its bytes as a sequence.
pub enum I2cOpView {
    Write { address: u8, bytes: Seq<u8> },
    Read { address: u8, len: usize },
    WriteRead { address: u8, bytes: Seq<u8>, len: usize },
    SetReset(bool),
    DelayMs(u32),
    WaitForInterrupt,
}

impl View for I2cOp {
    type V = I2cOpView;

    open spec fn view(&self) -> I2cOpView {
        match self {
            I2cOp::Write { address, bytes } => I2cOpView::Write { address: *address, bytes: bytes@ },
            I2cOp::Read { address, len } => I2cOpView::Read { address: *address, len: *len },
            I2cOp::WriteRead { address, bytes, len } => I2cOpView::WriteRead {
                address: *address,
                bytes: bytes@,
                len: *len,
            },
            I2cOp::SetReset(level) => I2cOpView::SetReset(*level),
            I2cOp::DelayMs(ms) => I2cOpView::DelayMs(*ms),
            I2cOp::WaitForInterrupt => I2cOpView::WaitForInterrupt,
        }
    }
}

/// The next thing a multi-transfer procedure of an I2C driver needs.
#[derive(Debug, Clone, PartialEq, Eq)]
pub enum Step<O> {
    /// Perform the operations in order, then hand the bytes read by the last one
    /// back to the driver's `resume`.
    Transfer(Vec<I2cOp>),
    /// Perform the operations in order; when they all succeed the procedure is
    /// over with this outcome.
    Done(Vec<I2cOp>, O),
}

/// What a [`Step`] stands for.
pub enum StepView<O> {
    Transfer(Seq<I2cOpView>),
    Done(Seq<I2cOpView>, O),
}

impl<O> View for Step<O> {
    type V = StepView<O>;

    open spec fn view(&self) -> StepView<O> {
        match self {
            Step::Transfer(ops) => StepView::Transfer(i2c_ops_view(ops@)),
            Step::Done(ops, outcome) => StepView::Done(i2c_ops_view(ops@), *outcome),
        }
    }
}

/// The meaning of a sequence of panel operations.
pub open spec fn panel_ops_view(ops: Seq<PanelOp>) -> Seq<PanelOpView> {
    ops.map_values(|op: PanelOp| op@)
}

/// The meaning of a sequence of I2C operations.
pub open spec fn i2c_ops_view(ops: Seq<I2cOp>) -> Seq<I2cOpView> {
    ops.map_values(|op: I2cOp| op@)
}

/// Appends one panel operation to a plan.
pub fn push_panel_op(ops: &mut Vec<PanelOp>, op: PanelOp)
    ensures
        panel_ops_view(final(ops)@) == panel_ops_view(old(ops)@).push(op@),
{
    ops.push(op);
    assert(panel_ops_view(ops@) =~= panel_ops_view(old(ops)@).push(op@));
}

/// Appends one I2C operation to a plan.
pub fn push_i2c_op(ops: &mut Vec<I2cOp>, op: I2cOp)
    ensures
        i2c_ops_view(final(ops)@) == i2c_ops_view(old(ops)@).push(op@),
{
    ops.push(op);
    assert(i2c_ops_view(ops@) =~= i2c_ops_view(old(ops)@).push(op@));
}

/// A failure while performing an operation: of the bus, or of a pin.
#[derive(Debug, Clone, Copy, PartialEq, Eq)]
pub enum Fault<BusError, PinError> {
    Bus(BusError),
    Pin(PinError),
}

/// A plan being performed, operation by operation. The first operation that
/// fails ends the run: nothing after it is handed out, and its failure is the
/// outcome of the whole plan.
pub struct PlanRun<Op, BusError, PinError> {
    ops: Vec<Op>,
    done: usize,
    failure: Option<Fault<BusError, PinError>>,
}

impl<Op, BusError, PinError> PlanRun<Op, BusError, PinError> {
    /// The operations of the plan.
    pub closed spec fn ops(&self) -> Seq<Op> {
        self.ops@
    }

    /// How many operations were performed successfully.
    pub closed spec fn done(&self) -> nat {
        self.done as nat
    }

    /// The failure that ended the run, if one did.
    pub closed spec fn failure(&self) -> Option<Fault<BusError, PinError>> {
        self.failure
    }

    /// The run is over: every operation succeeded, or one failed.
    pub open spec fn finished(&self) -> bool {
        self.failure() is Some || self.done() >= self.ops().len()
    }

    #[verifier::type_invariant]
    spec fn done_within_plan(self) -> bool {
        self.done <= self.ops@.len()
    }

    /// Starts performing a plan.
    pub fn new(ops: Vec<Op>) -> (r: Self)
        ensures
            r.ops() == ops@,
            r.done() == 0,
            r.failure() is None,
    {
        PlanRun { ops, done: 0, failure: None }
    }

    /// The operation to perform next: none once an operation failed or all
    /// were performed.
    pub fn next(&self) -> (r: Option<&Op>)
        ensures
            r is Some <==> !self.finished(),
            r matches Some(op) ==> *op == self.ops()[self.done() as int],
    {
        proof {
            use_type_invariant(self);
        }
        if self.failure.is_none() && self.done < self.ops.len() {
            Some(&self.ops[self.done])
        } else {
            None
        }
    }

    /// Records how the operation handed out by `next` went.
    pub fn record(&mut self, result: Result<(), Fault<BusError, PinError>>)
        requires
            !old(self).finished(),
        ensures
            final(self).ops() == old(self).ops(),
            match result {
                Ok(()) => final(self).done() == old(self).done() + 1 && final(self).failure() is None,
                Err(fault) => final(self).done() == old(self).done() && final(self).failure() == Some(fault),
            },
    {
        proof {
            use_type_invariant(&*self);
        }
        let planned = self.ops.len();
        proof {
            assert(self.done < planned);
        }
        match result {
            Ok(()) => {
                self.done = self.done + 1;
            },
            Err(fault) => {
                self.failure = Some(fault);
            },
        }
    }

    /// Ends a finished run: the operations performed successfully, and the
    /// failure that stopped the plan, if any.
    pub fn finish(self) -> (r: (Vec<Op>, Result<(), Fault<BusError, PinError>>))
        requires
            self.finished(),
        ensures
            r.0@ == self.ops().take(self.done() as int),
            r.1 is Ok <==> self.failure() is None,
            r.1 matches Err(fault) ==> self.failure() == Some(fault),
            r.1 is Ok ==> self.done() == self.ops().len(),
            self.done() <= self.ops().len(),
    {
        proof {
            use_type_invariant(&self);
        }
        let mut performed = self.ops;
        performed.truncate(self.done);
        let outcome = match self.failure {
            Some(fault) => Err(fault),
            None => Ok(()),
        };
        (performed, outcome)
    }
}

/// Whatever the operations report, a run hands out the operations of the plan
/// in order until the first failure, and stops there: the failure is the
/// outcome, and the operations after it are never performed.
pub proof fn law_run_stops_at_first_failure<Op, B, P>(run: PlanRun<Op, B, P>, result: Result<(), Fault<B, P>>, after: PlanRun<Op, B, P>)
    requires
        !run.finished(),
        after.ops() == run.ops(),
        match result {
            Ok(()) => after.done() == run.done() + 1 && after.failure() is None,
            Err(fault) => after.done() == run.done() && after.failure() == Some(fault),
        },
    ensures
        result is Err ==> after.finished() && after.ops().take(after.done() as int) == run.ops().take(
            run.done() as int,
        ),
        result is Ok ==> after.ops().take(after.done() as int) == run.ops().take(run.done() as int).push(
            run.ops()[run.done() as int],
        ),
{
    if result is Ok {
        assert(after.ops().take(after.done() as int) =~= run.ops().take(run.done() as int).push(
            run.ops()[run.done() as int],
        ));
    }
}

} // verus!
