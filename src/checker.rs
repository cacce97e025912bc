//! One checker per monitored service: the decisions of its timed loop.
//! The host polls it with the current time, runs the probe it asks for, and
//! reports the outcome; the checker answers with the event to publish.

use vstd::prelude::*;
use crate::event::HealthCheckInfo;
use crate::status::{judge, judged, outcome_reason, HealthCheckStatus, ProbeOutcome, ServiceType};

verus! {

/// Where a checker is in its cycle.
#[derive(Clone, Copy, Debug, PartialEq, Eq, Structural)]
pub enum CheckerPhase {
    /// Waiting for the next tick.
    Idle,
    /// A probe is in flight.
    Checking,
    /// No further ticks will start.
    Stopped,
}

pub open spec fn saturating_add(a: int, b: int) -> u64 {
    if a + b > u64::MAX { u64::MAX } else { (a + b) as u64 }
}

/// The interval in milliseconds, saturated at the largest `u64`.
pub open spec fn period_ms(interval_seconds: u64) -> u64 {
    saturating_add(interval_seconds * 1000, 0)
}

/// When the tick after the one due at `due` falls, given that the probe it
/// started completed at `now`: one period later, or at once if the probe
/// overran that point.
pub open spec fn next_due_after(due: u64, interval_seconds: u64, now: u64) -> u64 {
    let next = saturating_add(due as int, period_ms(interval_seconds) as int);
    if next > now { next } else { now }
}

/// The scheduler of checks for one HTTP (or other) service.
#[derive(Debug)]
pub struct HttpHealthCheckActor {
    pub name: String,
    pub url: String,
    pub interval_seconds: u64,
    /// Per-request timeout in seconds.
    pub timeout: u64,
    /// The one response code counted as healthy, where one is configured;
    /// otherwise any 2xx.
    pub response_code: Option<u16>,
    pub headers: Vec<String>,
    pub service_type: ServiceType,
    pub phase: CheckerPhase,
    /// Set when a stop arrives while a probe is in flight.
    pub stop_requested: bool,
    /// Monotonic milliseconds at which the next tick is due.
    pub next_due_ms: u64,
}

impl HttpHealthCheckActor {
    /// A checker that has not ticked yet: its first tick is due at once.
    pub open spec fn is_fresh(&self) -> bool {
        &&& self.phase == CheckerPhase::Idle
        &&& !self.stop_requested
        &&& self.next_due_ms == 0
    }

    /// `ev` is the event this checker publishes for a probe that observed
    /// `outcome`, took `response_time` ms and finished at `timestamp`.
    pub open spec fn reports(
        &self,
        ev: HealthCheckInfo,
        outcome: ProbeOutcome,
        response_time: u128,
        timestamp: i64,
    ) -> bool {
        &&& ev.name == self.name
        &&& ev.url == self.url
        &&& ev.service_type == self.service_type
        &&& ev.interval_seconds == self.interval_seconds
        &&& (ev.latest_status.status, ev.latest_status.status_message@) == judged(
            outcome,
            outcome_reason(outcome),
            self.response_code,
            self.timeout,
        )
        &&& ev.latest_status.response_time == response_time
        &&& ev.latest_status.timestamp == timestamp
    }

    /// Same service and settings; only the cycle state may differ.
    pub open spec fn same_service(&self, other: &Self) -> bool {
        &&& self.name == other.name
        &&& self.url == other.url
        &&& self.interval_seconds == other.interval_seconds
        &&& self.timeout == other.timeout
        &&& self.response_code == other.response_code
        &&& self.headers == other.headers
        &&& self.service_type == other.service_type
    }

    pub fn new(
        name: String,
        url: String,
        interval_seconds: u64,
        timeout: u64,
        response_code: Option<u16>,
        headers: Vec<String>,
    ) -> (r: Self)
        ensures
            r.name == name,
            r.url == url,
            r.interval_seconds == interval_seconds,
            r.timeout == timeout,
            r.response_code == response_code,
            r.headers == headers,
            r.service_type == ServiceType::Http,
            r.is_fresh(),
    {
        HttpHealthCheckActor {
            name,
            url,
            interval_seconds,
            timeout,
            response_code,
            headers,
            service_type: ServiceType::Http,
            phase: CheckerPhase::Idle,
            stop_requested: false,
            next_due_ms: 0,
        }
    }

    /// Polls the checker at monotonic time `now_ms`. Returns whether a probe
    /// should start now, which happens only when the checker is idle, not
    /// stopping, and its tick is due; the checker is then `Checking` until
    /// `finish`, so probes of one service never overlap.
    pub fn tick(&mut self, now_ms: u64) -> (start: bool)
        ensures
            start == (old(self).phase == CheckerPhase::Idle && !old(self).stop_requested
                && now_ms >= old(self).next_due_ms),
            start ==> *final(self) == (HttpHealthCheckActor {
                phase: CheckerPhase::Checking,
                ..*old(self)
            }),
            !start ==> *final(self) == *old(self),
    {
        if self.phase == CheckerPhase::Idle && !self.stop_requested && now_ms >= self.next_due_ms {
            self.phase = CheckerPhase::Checking;
            true
        } else {
            false
        }
    }

    /// When the host should next poll: the due time while idle, nothing while
    /// a probe is in flight or once stopped.
    pub fn next_wake(&self) -> (r: Option<u64>)
        ensures
            r == (if self.phase == CheckerPhase::Idle && !self.stop_requested {
                Some(self.next_due_ms)
            } else {
                None
            }),
    {
        if self.phase == CheckerPhase::Idle && !self.stop_requested {
            Some(self.next_due_ms)
        } else {
            None
        }
    }

    /// Records the completion, at monotonic time `now_ms`, of the probe that
    /// `tick` started, and returns the event to publish: exactly one per
    /// completed probe, failures included. The next tick is due one interval
    /// after this one, or at once if the probe overran it. After a stop
    /// request the checker is `Stopped` instead. Without a probe in flight
    /// nothing happens and `None` is returned.
    pub fn finish(
        &mut self,
        outcome: ProbeOutcome,
        response_time: u128,
        timestamp: i64,
        now_ms: u64,
    ) -> (r: Option<HealthCheckInfo>)
        ensures
            old(self).phase == CheckerPhase::Checking ==> {
                &&& r is Some
                &&& old(self).reports(r->0, outcome, response_time, timestamp)
                &&& final(self).same_service(old(self))
                &&& final(self).stop_requested == old(self).stop_requested
                &&& final(self).phase == (if old(self).stop_requested {
                    CheckerPhase::Stopped
                } else {
                    CheckerPhase::Idle
                })
                &&& final(self).next_due_ms == next_due_after(
                    old(self).next_due_ms,
                    old(self).interval_seconds,
                    now_ms,
                )
            },
            old(self).phase != CheckerPhase::Checking ==> r is None && *final(self) == *old(self),
    {
        if self.phase != CheckerPhase::Checking {
            return None;
        }
        let latest_status: HealthCheckStatus = judge(
            outcome,
            self.response_code,
            self.timeout,
            response_time,
            timestamp,
        );
        let period: u64 = if self.interval_seconds <= u64::MAX / 1000 {
            self.interval_seconds * 1000
        } else {
            u64::MAX
        };
        let next: u64 = if self.next_due_ms <= u64::MAX - period {
            self.next_due_ms + period
        } else {
            u64::MAX
        };
        self.next_due_ms = if next > now_ms { next } else { now_ms };
        self.phase = if self.stop_requested { CheckerPhase::Stopped } else { CheckerPhase::Idle };
        Some(HealthCheckInfo {
            name: self.name.clone(),
            service_type: self.service_type,
            url: self.url.clone(),
            interval_seconds: self.interval_seconds,
            latest_status,
        })
    }

    /// Stops the checker: no tick starts after this. A probe in flight may
    /// still finish, and the checker is `Stopped` once it has.
    pub fn stop(&mut self)
        ensures
            final(self).same_service(old(self)),
            final(self).next_due_ms == old(self).next_due_ms,
            old(self).phase == CheckerPhase::Checking ==> final(self).phase
                == CheckerPhase::Checking && final(self).stop_requested,
            old(self).phase != CheckerPhase::Checking ==> final(self).phase
                == CheckerPhase::Stopped && final(self).stop_requested == old(self).stop_requested,
    {
        if self.phase == CheckerPhase::Checking {
            self.stop_requested = true;
        } else {
            self.phase = CheckerPhase::Stopped;
        }
    }

    /// Whether the checker has stopped for good.
    pub fn is_stopped(&self) -> (r: bool)
        ensures
            r == (self.phase == CheckerPhase::Stopped),
    {
        self.phase == CheckerPhase::Stopped
    }
}

} // verus!
