//! History records: one per executed probe.

use crate::monitor::Monitor;
use crate::probe::PingResponse;
use crate::utils::{gen_id, utc_timestamp, ID_LIMIT, ID_MIN};
use vstd::prelude::*;

verus! {

/// Status recorded for a probe that failed before any response came back.
pub const STATUS_SENTINEL: u16 = 200;

/// Highest status with which a good record still shows its monitor as up.
pub const UP_STATUS_LIMIT: u16 = 400;

/// Longest duration that a record can hold, in milliseconds.
pub const DURATION_MS_MAX: i64 = i64::MAX;

/// Conversion of a stored integer flag to a truth value.
pub trait ToBool {
    /// Whether the value is one of the two that stand for a truth value.
    spec fn is_flag(&self) -> bool;

    /// The truth value that a flag stands for.
    spec fn flag(&self) -> bool;

    /// Reads the flag. Values that are no flag are not accepted.
    fn to_bool(&self) -> (b: bool)
        requires
            self.is_flag(),
        ensures
            b == self.flag(),
    ;
}

impl ToBool for i64 {
    open spec fn is_flag(&self) -> bool {
        *self == 0 || *self == 1
    }

    open spec fn flag(&self) -> bool {
        *self == 1
    }

    fn to_bool(&self) -> (b: bool) {
        *self == 1
    }
}

/// The outcome of one executed probe, as it is kept in the history.
/// A record is written once and never changed.
#[derive(Debug)]
pub struct MonitorPing {
    pub id: i64,
    pub monitor_id: i64,
    pub timestamp: String,
    pub status: u16,
    pub duration_ms: i64,
    pub bad: bool,
}

/// Mathematical content of a [`MonitorPing`].
pub struct MonitorPingView {
    pub id: int,
    pub monitor_id: int,
    pub timestamp: Seq<char>,
    pub status: int,
    pub duration_ms: int,
    pub bad: bool,
}

impl View for MonitorPing {
    type V = MonitorPingView;

    open spec fn view(&self) -> MonitorPingView {
        MonitorPingView {
            id: self.id as int,
            monitor_id: self.monitor_id as int,
            timestamp: self.timestamp@,
            status: self.status as int,
            duration_ms: self.duration_ms as int,
            bad: self.bad,
        }
    }
}

impl Clone for MonitorPing {
    fn clone(&self) -> (copy: Self)
        ensures
            copy == *self,
    {
        MonitorPing {
            id: self.id,
            monitor_id: self.monitor_id,
            timestamp: self.timestamp.clone(),
            status: self.status,
            duration_ms: self.duration_ms,
            bad: self.bad,
        }
    }
}

/// Status that the record of `response` carries: the response's own, or the
/// sentinel where there was none.
pub open spec fn recorded_status(response: PingResponse) -> int {
    match response.status {
        Some(code) => code as int,
        None => STATUS_SENTINEL as int,
    }
}

/// Duration that the record of `response` carries: the probe's, or the
/// longest a record can hold if the probe took longer still.
pub open spec fn recorded_duration(response: PingResponse) -> int {
    if response.duration_ms <= DURATION_MS_MAX {
        response.duration_ms as int
    } else {
        DURATION_MS_MAX as int
    }
}

/// What the record of `response` for monitor `monitor_id` holds besides its
/// identifier and timestamp.
pub open spec fn records(ping: MonitorPingView, monitor_id: int, response: PingResponse) -> bool {
    &&& ping.monitor_id == monitor_id
    &&& ping.bad == !response.is_alive
    &&& ping.status == recorded_status(response)
    &&& ping.duration_ms == recorded_duration(response)
}

impl MonitorPingView {
    /// Whether the record shows its monitor as up.
    pub open spec fn is_up(self) -> bool {
        !self.bad && self.status <= UP_STATUS_LIMIT
    }
}

impl MonitorPing {
    /// Builds the record of `response` for monitor `monitor_id`, under the
    /// given identifier and timestamp.
    pub fn from_response(
        id: i64,
        monitor_id: i64,
        timestamp: String,
        response: &PingResponse,
    ) -> (ping: MonitorPing)
        ensures
            ping@.id == id,
            ping@.timestamp == timestamp@,
            records(ping@, monitor_id as int, *response),
    {
        let status = match response.status {
            Some(code) => code,
            None => STATUS_SENTINEL,
        };
        let duration_ms: i64 = if response.duration_ms <= DURATION_MS_MAX as u128 {
            response.duration_ms as i64
        } else {
            DURATION_MS_MAX
        };
        MonitorPing { id, monitor_id, timestamp, status, duration_ms, bad: !response.is_alive }
    }

    /// Records `response` for `monitor`, under a fresh identifier and the
    /// current time.
    pub fn record(monitor: &Monitor, response: &PingResponse) -> (ping: MonitorPing)
        ensures
            ID_MIN <= ping@.id < ID_LIMIT,
            records(ping@, monitor@.id as int, *response),
    {
        MonitorPing::from_response(gen_id(), monitor.id, utc_timestamp(), response)
    }

    /// Rebuilds a record from the columns of a stored row, where `bad` is
    /// kept as an integer flag.
    pub fn from_row(
        id: i64,
        monitor_id: i64,
        timestamp: String,
        status: u16,
        duration_ms: i64,
        bad: i64,
    ) -> (ping: MonitorPing)
        requires
            bad.is_flag(),
        ensures
            ping@ == (MonitorPingView {
                id: id as int,
                monitor_id: monitor_id as int,
                timestamp: timestamp@,
                status: status as int,
                duration_ms: duration_ms as int,
                bad: bad.flag(),
            }),
    {
        MonitorPing { id, monitor_id, timestamp, status, duration_ms, bad: bad.to_bool() }
    }

    /// Whether the record shows its monitor as up: the probe was good and
    /// its status is at most [`UP_STATUS_LIMIT`].
    pub fn is_up(&self) -> (up: bool)
        ensures
            up == self@.is_up(),
    {
        !self.bad && self.status <= UP_STATUS_LIMIT
    }
}

} // verus!
