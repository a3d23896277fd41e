//! The board's fixed line assignments and the failure-aware driver that
//! hands an LED frame's writes to the unverified I/O shell one at a time.

use vstd::prelude::*;

use crate::wire::LineWrite;

verus! {

/// How a line is configured when it is claimed.
#[derive(Clone, Copy, PartialEq, Eq, Structural, Debug)]
pub enum LineDirection {
    /// Input.
    In,
    /// Output, driven low at configuration.
    OutLow,
    /// Output, driven high at configuration.
    OutHigh,
}

/// Which level changes the button line reports.
#[derive(Clone, Copy, PartialEq, Eq, Structural, Debug)]
pub enum EdgeMode {
    /// No edge reporting; the line is polled or write-only.
    NoInterrupt,
    /// Rising edges only.
    RisingEdge,
    /// Falling edges only.
    FallingEdge,
    /// Both rising and falling edges.
    BothEdges,
}

/// One line of the board: its pin number and how to configure it.
#[derive(Clone, Copy, PartialEq, Eq, Structural, Debug)]
pub struct LineConfig {
    /// Board pin number.
    pub pin: u64,
    /// Direction and initial level.
    pub direction: LineDirection,
    /// Edge reporting mode.
    pub edge: EdgeMode,
}

/// The fan line: pin 18, output, high (fan on) by default.
pub open spec fn spec_fan_line() -> LineConfig {
    LineConfig { pin: 18, direction: LineDirection::OutHigh, edge: EdgeMode::NoInterrupt }
}

/// The LED data line: pin 15, output, low by default.
pub open spec fn spec_data_line() -> LineConfig {
    LineConfig { pin: 15, direction: LineDirection::OutLow, edge: EdgeMode::NoInterrupt }
}

/// The LED clock line: pin 14, output, low by default.
pub open spec fn spec_clock_line() -> LineConfig {
    LineConfig { pin: 14, direction: LineDirection::OutLow, edge: EdgeMode::NoInterrupt }
}

/// The button line: pin 17, input, reporting both edges. It must be an
/// input — driving it as an output would fight the button — and it reports
/// both edges so that presses and releases alike can wake a waiting poll.
pub open spec fn spec_button_line() -> LineConfig {
    LineConfig { pin: 17, direction: LineDirection::In, edge: EdgeMode::BothEdges }
}

/// The board's four lines, in the order they are claimed: fan, LED data,
/// LED clock, button.
pub fn board_lines() -> (v: Vec<LineConfig>)
    ensures
        v@ =~= seq![spec_fan_line(), spec_data_line(), spec_clock_line(), spec_button_line()],
{
    let mut v: Vec<LineConfig> = Vec::new();
    v.push(LineConfig { pin: 18, direction: LineDirection::OutHigh, edge: EdgeMode::NoInterrupt });
    v.push(LineConfig { pin: 15, direction: LineDirection::OutLow, edge: EdgeMode::NoInterrupt });
    v.push(LineConfig { pin: 14, direction: LineDirection::OutLow, edge: EdgeMode::NoInterrupt });
    v.push(LineConfig { pin: 17, direction: LineDirection::In, edge: EdgeMode::BothEdges });
    v
}

/// What can go wrong while driving the board.
#[derive(Clone, Copy, PartialEq, Eq, Structural, Debug)]
pub enum DeviceError {
    /// A pin could not be claimed or configured at startup; fatal.
    LineExportFailure,
    /// A line write failed mid-operation; the operation aborts at once,
    /// with no retry and no rollback of what was already written.
    LineWriteFailure,
    /// The hold-deadline timer could not be polled; terminal for the
    /// button event sequence.
    TimerFailure,
}

/// Hands a frame's writes out one at a time and enforces the frame's
/// failure rule: the first failed write ends the frame, and no further
/// write is ever handed out for it. Partially written frames are not
/// retried or rolled back; restoring a known state is the caller's
/// business.
pub struct FrameRun {
    /// The frame's writes, in order.
    pub writes: Vec<LineWrite>,
    /// How many writes were performed so far.
    pub pos: usize,
    /// Whether a write failed.
    pub failed: bool,
}

/// A frame run never stands past its last write.
pub open spec fn frame_run_wf(r: FrameRun) -> bool {
    r.pos <= r.writes@.len()
}

impl FrameRun {
    /// Starts a run over a frame's writes.
    pub fn new(writes: Vec<LineWrite>) -> (r: Self)
        ensures
            frame_run_wf(r),
            r.writes == writes,
            r.pos == 0,
            !r.failed,
    {
        FrameRun { writes, pos: 0, failed: false }
    }

    /// The next write to perform: none once every write was performed, and
    /// none after a failure — a failed frame hands out no further write.
    pub fn next_write(&self) -> (w: Option<LineWrite>)
        requires
            frame_run_wf(*self),
        ensures
            self.failed || self.pos == self.writes@.len() ==> w is None,
            !self.failed && self.pos < self.writes@.len() ==> w == Some(self.writes@[self.pos as int]),
    {
        if self.failed || self.pos == self.writes.len() {
            None
        } else {
            Some(self.writes[self.pos])
        }
    }

    /// Records the outcome of the pending write: success moves to the next
    /// write, failure ends the frame.
    pub fn record(&mut self, ok: bool)
        requires
            frame_run_wf(*old(self)),
            !old(self).failed,
            old(self).pos < old(self).writes@.len(),
        ensures
            frame_run_wf(*final(self)),
            final(self).writes == old(self).writes,
            ok ==> final(self).pos == old(self).pos + 1 && !final(self).failed,
            !ok ==> final(self).pos == old(self).pos && final(self).failed,
    {
        if ok {
            let len: usize = self.writes.len();
            assert(self.pos < len);
            self.pos = self.pos + 1;
        } else {
            self.failed = true;
        }
    }

    /// The frame's result once no write is pending: an error exactly when
    /// a write failed, success exactly when every write was performed.
    pub fn outcome(&self) -> (r: Result<(), DeviceError>)
        requires
            frame_run_wf(*self),
            self.failed || self.pos == self.writes@.len(),
        ensures
            r is Ok <==> !self.failed,
            self.failed ==> r == Err::<(), DeviceError>(DeviceError::LineWriteFailure),
    {
        if self.failed {
            Err(DeviceError::LineWriteFailure)
        } else {
            Ok(())
        }
    }
}

} // verus!
