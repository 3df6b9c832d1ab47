//! The driver's control loop as a state machine.
//!
//! The loop runs one-time initialization, then polls forever at a fixed
//! period.  The caller owns the bus: it asks `next_transaction` what to
//! execute, runs the transaction against the peripheral, and hands the
//! outcome to `on_bus_result`, which advances the state and may yield a
//! report line for the console.  A transport failure in either phase is
//! fatal: the loop halts and issues no further bus activity.

use vstd::prelude::*;

use crate::display::{format_time_terminated, spec_time_line};
use crate::protocol::{
    decoded_time, init_transaction, parse_poll_response, poll_transaction, spec_init_ops,
    spec_poll_ops, trans_view, AlarmSetting, BusOp, Timestamp, RTC_I2C_ADDRESS,
};

verus! {

/// Pause between two polls, in milliseconds.
pub const POLL_INTERVAL_MS: u32 = 5000;

/// Where the loop stands.
#[derive(Debug, Clone, Copy, PartialEq, Eq, Structural)]
pub enum Phase {
    /// The initialization transaction has not completed yet.
    Initializing,
    /// Initialization succeeded; the loop polls the clock each cycle.
    Polling,
    /// A transport failure occurred; no further bus activity.
    Halted,
}

/// Outcome of one bus transaction, as the transport reports it: the bytes
/// all read operations produced, in order, or a transport-level failure.
#[derive(Debug, PartialEq, Eq)]
pub enum BusResult {
    Done(Vec<u8>),
    Failed,
}

/// The phase after a bus outcome: any failure halts the loop for good, a
/// successful initialization moves to polling, a successful poll keeps
/// polling, and a halted loop stays halted.
pub open spec fn spec_next_phase(phase: Phase, ok: bool) -> Phase {
    if !ok {
        Phase::Halted
    } else {
        match phase {
            Phase::Initializing => Phase::Polling,
            Phase::Polling => Phase::Polling,
            Phase::Halted => Phase::Halted,
        }
    }
}

/// The control loop's state: its phase plus the time and alarm it programs
/// into the peripheral during initialization.
pub struct ControlLoop {
    pub phase: Phase,
    pub time: Timestamp,
    pub alarm: AlarmSetting,
}

impl ControlLoop {
    /// The time and alarm to be programmed are in range.
    pub open spec fn wf(self) -> bool {
        &&& self.time.valid()
        &&& self.alarm.valid()
    }

    /// A fresh loop that will first program the given time and alarm.
    pub fn new(time: Timestamp, alarm: AlarmSetting) -> (r: ControlLoop)
        requires
            time.valid(),
            alarm.valid(),
        ensures
            r.phase == Phase::Initializing,
            r.time == time,
            r.alarm == alarm,
            r.wf(),
    {
        ControlLoop { phase: Phase::Initializing, time, alarm }
    }

    /// The transaction the loop wants executed next, with the peripheral
    /// address: the initialization burst while initializing, the poll while
    /// polling, and nothing once halted.
    pub fn next_transaction(&self) -> (r: Option<(u8, Vec<BusOp>)>)
        requires
            self.wf(),
        ensures
            r is None <==> self.phase == Phase::Halted,
            self.phase == Phase::Initializing ==> (r matches Some(t) && t.0 == RTC_I2C_ADDRESS
                && trans_view(t.1@) == spec_init_ops(self.time, self.alarm)),
            self.phase == Phase::Polling ==> (r matches Some(t) && t.0 == RTC_I2C_ADDRESS
                && trans_view(t.1@) == spec_poll_ops()),
    {
        match self.phase {
            Phase::Initializing => Some(
                (RTC_I2C_ADDRESS, init_transaction(&self.time, &self.alarm)),
            ),
            Phase::Polling => Some((RTC_I2C_ADDRESS, poll_transaction())),
            Phase::Halted => None,
        }
    }

    /// Feeds the outcome of the transaction back into the loop.
    ///
    /// A failure halts the loop in either phase.  A completed initialization
    /// starts polling.  A completed poll yields the line-terminated report
    /// for the response's timestamp — unless the response is malformed
    /// (wrong length or a field out of range), in which case the report is
    /// skipped and the loop keeps polling.
    pub fn on_bus_result(&mut self, result: BusResult) -> (report: Option<String>)
        ensures
            final(self).phase == spec_next_phase(old(self).phase, result is Done),
            final(self).time == old(self).time,
            final(self).alarm == old(self).alarm,
            report is Some <==> (old(self).phase == Phase::Polling && (result matches
            BusResult::Done(bytes) && bytes@.len() == 8 && decoded_time(bytes@).valid())),
            report matches Some(line) ==> (result matches BusResult::Done(bytes) && line@
                == spec_time_line(decoded_time(bytes@)) + seq!['\r', '\n']),
    {
        match result {
            BusResult::Failed => {
                self.phase = Phase::Halted;
                None
            },
            BusResult::Done(bytes) => match self.phase {
                Phase::Initializing => {
                    self.phase = Phase::Polling;
                    None
                },
                Phase::Polling => match parse_poll_response(bytes.as_slice()) {
                    Ok(time) => Some(format_time_terminated(&time)),
                    Err(_) => None,
                },
                Phase::Halted => None,
            },
        }
    }
}

/// A transport failure prevents any further bus activity: whatever phase the
/// loop was in, a failed transaction leaves it halted, and the halted phase
/// is absorbing, so no later outcome can revive it.  `next_transaction`
/// returns nothing exactly in the halted phase.
pub proof fn lemma_failure_prevents_bus_activity(phase: Phase)
    ensures
        spec_next_phase(phase, false) == Phase::Halted,
        forall|ok: bool| spec_next_phase(Phase::Halted, ok) == Phase::Halted,
{
}

} // verus!
