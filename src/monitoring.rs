//! Operational monitoring: event counters, duplicate suppression and a health
//! snapshot with alert flags.
use crate::Address;
use std::collections::HashSet;
use vstd::prelude::*;

verus! {

/// How long, in ledgers, a seen-event marker is kept alive.
pub const PERSISTENT_BUMP_LEDGERS: u32 = 518_400;

/// Failed settlements from which the failed-settlement alert is raised.
pub const FAILED_SETTLEMENT_ALERT_THRESHOLD: u64 = 3;

/// Percentage of error events from which the error-rate alert is raised.
pub const ERROR_RATE_ALERT_PERCENT: u64 = 20;

/// Events needed before the error rate is judged at all.
pub const ERROR_RATE_MIN_SAMPLE: u64 = 10;

#[derive(Clone, Copy, Debug, PartialEq, Eq, Structural)]
pub enum Error {
    AlreadyInitialized,
    NotInitialized,
    NotAuthorized,
    DuplicateEvent,
}

#[derive(Clone, Copy, Debug, PartialEq, Eq, Structural)]
pub enum EventKind {
    SettlementSuccess,
    SettlementFailed,
    Error,
    Paused,
    Resumed,
}

/// Counters of ingested events.
#[derive(Clone, Copy, Debug, PartialEq, Eq, Structural)]
pub struct Metrics {
    pub total_events: u64,
    pub settlement_success: u64,
    pub settlement_failed: u64,
    pub error_events: u64,
    pub paused_events: u64,
}

#[derive(Clone, Copy, Debug, PartialEq, Eq, Structural)]
pub struct HealthSnapshot {
    pub paused: bool,
    pub high_error_rate: bool,
    pub failed_settlement_alert: bool,
}

/// Published for each ingested event.
#[derive(Clone, Copy, Debug, PartialEq, Eq, Structural)]
pub struct EventIngested {
    pub event_id: u64,
    pub kind: EventKind,
}

/// Published for each alert that holds after an event: 1 for failed
/// settlements, 2 for the error rate, 3 while paused.
#[derive(Clone, Copy, Debug, PartialEq, Eq, Structural)]
pub struct AlertRaised {
    pub alert: u32,
}

/// `x + 1`, held at `u64::MAX`.
pub open spec fn sat_inc(x: u64) -> u64 {
    if x == u64::MAX {
        x
    } else {
        (x + 1) as u64
    }
}

/// The counters after one more event of kind `kind`.
pub open spec fn counted(m: Metrics, kind: EventKind) -> Metrics {
    let m1 = Metrics { total_events: sat_inc(m.total_events), ..m };
    match kind {
        EventKind::SettlementSuccess => Metrics {
            settlement_success: sat_inc(m.settlement_success),
            ..m1
        },
        EventKind::SettlementFailed => Metrics { settlement_failed: sat_inc(m.settlement_failed), ..m1 },
        EventKind::Error => Metrics { error_events: sat_inc(m.error_events), ..m1 },
        EventKind::Paused => Metrics { paused_events: sat_inc(m.paused_events), ..m1 },
        EventKind::Resumed => m1,
    }
}

/// Whether errors make up at least `ERROR_RATE_ALERT_PERCENT` percent of a
/// sample of at least `ERROR_RATE_MIN_SAMPLE` events (the percentage taken
/// from `error_events * 100`, held at `u64::MAX`, and rounded down).
pub open spec fn high_error_rate(error_events: u64, total_events: u64) -> bool {
    let scaled = if error_events * 100 > u64::MAX {
        u64::MAX as int
    } else {
        error_events * 100
    };
    total_events >= ERROR_RATE_MIN_SAMPLE && scaled / (total_events as int)
        >= ERROR_RATE_ALERT_PERCENT
}

/// The health that `metrics` and the pause flag show.
pub open spec fn health_of(metrics: Metrics, paused: bool) -> HealthSnapshot {
    HealthSnapshot {
        paused,
        high_error_rate: high_error_rate(metrics.error_events, metrics.total_events),
        failed_settlement_alert: metrics.settlement_failed >= FAILED_SETTLEMENT_ALERT_THRESHOLD,
    }
}

/// The zero counters.
pub open spec fn no_metrics() -> Metrics {
    Metrics {
        total_events: 0,
        settlement_success: 0,
        settlement_failed: 0,
        error_events: 0,
        paused_events: 0,
    }
}

impl Metrics {
    /// All counters at zero.
    pub fn zero() -> (r: Self)
        ensures
            r == no_metrics(),
    {
        Metrics {
            total_events: 0,
            settlement_success: 0,
            settlement_failed: 0,
            error_events: 0,
            paused_events: 0,
        }
    }
}

impl Default for Metrics {
    fn default() -> (r: Self)
        ensures
            r == no_metrics(),
    {
        Metrics::zero()
    }
}

fn saturating_inc(x: u64) -> (r: u64)
    ensures
        r == sat_inc(x),
{
    if x == u64::MAX {
        x
    } else {
        x + 1
    }
}

/// Counts one event of kind `kind`; every counter saturates.
pub fn apply_event(metrics: &mut Metrics, kind: &EventKind)
    ensures
        *final(metrics) == counted(*old(metrics), *kind),
{
    metrics.total_events = saturating_inc(metrics.total_events);
    match kind {
        EventKind::SettlementSuccess => metrics.settlement_success = saturating_inc(
            metrics.settlement_success,
        ),
        EventKind::SettlementFailed => metrics.settlement_failed = saturating_inc(
            metrics.settlement_failed,
        ),
        EventKind::Error => metrics.error_events = saturating_inc(metrics.error_events),
        EventKind::Paused => metrics.paused_events = saturating_inc(metrics.paused_events),
        EventKind::Resumed => {},
    }
}

/// Whether the error rate calls for an alert.
pub fn is_high_error_rate(error_events: u64, total_events: u64) -> (r: bool)
    ensures
        r == high_error_rate(error_events, total_events),
{
    if total_events < ERROR_RATE_MIN_SAMPLE || total_events == 0 {
        return false;
    }
    let scaled = if error_events > u64::MAX / 100 {
        u64::MAX
    } else {
        error_events * 100
    };
    scaled / total_events >= ERROR_RATE_ALERT_PERCENT
}

/// The health snapshot of `metrics` under the pause flag.
pub fn evaluate_health(metrics: &Metrics, paused: bool) -> (r: HealthSnapshot)
    ensures
        r == health_of(*metrics, paused),
{
    let high_error_rate = is_high_error_rate(metrics.error_events, metrics.total_events);
    let failed_settlement_alert = metrics.settlement_failed >= FAILED_SETTLEMENT_ALERT_THRESHOLD;
    HealthSnapshot { paused, high_error_rate, failed_settlement_alert }
}

/// The alerts that `health` raises, in the order they are published.
pub open spec fn alerts_of(health: HealthSnapshot) -> Seq<AlertRaised> {
    let a1: Seq<AlertRaised> = if health.failed_settlement_alert {
        seq![AlertRaised { alert: 1 }]
    } else {
        seq![]
    };
    let a2: Seq<AlertRaised> = if health.high_error_rate {
        seq![AlertRaised { alert: 2 }]
    } else {
        seq![]
    };
    let a3: Seq<AlertRaised> = if health.paused {
        seq![AlertRaised { alert: 3 }]
    } else {
        seq![]
    };
    a1 + a2 + a3
}

/// What one accepted event publishes: the event itself, then its alerts.
pub struct Ingested {
    pub metrics: Metrics,
    pub event: EventIngested,
    pub alerts: Vec<AlertRaised>,
}

/// The monitoring contract.
pub struct ContractMonitoring {
    admin: Option<Address>,
    paused: bool,
    metrics: Metrics,
    seen: HashSet<u64>,
}

impl ContractMonitoring {
    pub closed spec fn admin(&self) -> Option<Address> {
        self.admin
    }

    pub closed spec fn paused(&self) -> bool {
        self.paused
    }

    pub closed spec fn metrics(&self) -> Metrics {
        self.metrics
    }

    /// The ids of the events ingested so far.
    pub closed spec fn seen(&self) -> Set<u64> {
        self.seen@
    }

    /// The admin check shared by the mutating operations.
    pub open spec fn admin_check(&self, admin: Address) -> Option<Error> {
        match self.admin() {
            None => Some(Error::NotInitialized),
            Some(a) => if a != admin {
                Some(Error::NotAuthorized)
            } else {
                None
            },
        }
    }

    /// The checks of `ingest_event`, in order.
    pub open spec fn ingest_check(&self, admin: Address, event_id: u64) -> Option<Error> {
        match self.admin_check(admin) {
            Some(e) => Some(e),
            None => if self.seen().contains(event_id) {
                Some(Error::DuplicateEvent)
            } else {
                None
            },
        }
    }

    pub fn new() -> (r: Self)
        ensures
            r.admin() is None,
            !r.paused(),
            r.metrics() == no_metrics(),
            r.seen() == Set::<u64>::empty(),
    {
        ContractMonitoring { admin: None, paused: false, metrics: Metrics::zero(), seen: HashSet::new() }
    }

    pub fn init(&mut self, admin: Address) -> (r: Result<(), Error>)
        ensures
            old(self).admin() is Some ==> r == Err::<(), Error>(Error::AlreadyInitialized)
                && *final(self) == *old(self),
            old(self).admin() is None ==> r is Ok && final(self).admin() == Some(admin)
                && !final(self).paused() && final(self).metrics() == no_metrics()
                && final(self).seen() == old(self).seen(),
    {
        if self.admin.is_some() {
            return Err(Error::AlreadyInitialized);
        }
        self.admin = Some(admin);
        self.paused = false;
        self.metrics = Metrics::zero();
        Ok(())
    }

    fn require_admin(&self, admin: Address) -> (r: Result<(), Error>)
        ensures
            r == match self.admin_check(admin) {
                Some(e) => Err(e),
                None => Ok::<(), Error>(()),
            },
    {
        match self.admin {
            None => Err(Error::NotInitialized),
            Some(a) => if a != admin {
                Err(Error::NotAuthorized)
            } else {
                Ok(())
            },
        }
    }

    /// Counts a new event once; the same event id a second time is refused.
    pub fn ingest_event(&mut self, admin: Address, event_id: u64, kind: EventKind) -> (r: Result<
        Ingested,
        Error,
    >)
        ensures
            r is Err ==> *final(self) == *old(self),
            r is Err <==> old(self).ingest_check(admin, event_id) is Some,
            r matches Err(e) ==> old(self).ingest_check(admin, event_id) == Some(e),
            r matches Ok(out) ==> {
                &&& out.metrics == counted(old(self).metrics(), kind)
                &&& final(self).metrics() == out.metrics
                &&& final(self).seen() == old(self).seen().insert(event_id)
                &&& final(self).admin() == old(self).admin()
                &&& final(self).paused() == old(self).paused()
                &&& out.event == EventIngested { event_id, kind }
                &&& out.alerts@ == alerts_of(health_of(out.metrics, old(self).paused()))
            },
    {
        broadcast use vstd::std_specs::hash::group_hash_axioms;

        match self.require_admin(admin) {
            Err(e) => return Err(e),
            Ok(()) => {},
        }
        if self.seen.contains(&event_id) {
            return Err(Error::DuplicateEvent);
        }
        apply_event(&mut self.metrics, &kind);
        self.seen.insert(event_id);
        let health = evaluate_health(&self.metrics, self.paused);
        let mut alerts: Vec<AlertRaised> = Vec::new();
        if health.failed_settlement_alert {
            alerts.push(AlertRaised { alert: 1 });
        }
        if health.high_error_rate {
            alerts.push(AlertRaised { alert: 2 });
        }
        if health.paused {
            alerts.push(AlertRaised { alert: 3 });
        }
        assert(alerts@ =~= alerts_of(health));
        Ok(Ingested { metrics: self.metrics, event: EventIngested { event_id, kind }, alerts })
    }

    pub fn set_paused(&mut self, admin: Address, paused: bool) -> (r: Result<(), Error>)
        ensures
            r == match old(self).admin_check(admin) {
                Some(e) => Err(e),
                None => Ok::<(), Error>(()),
            },
            r is Ok ==> final(self).paused() == paused && final(self).admin() == old(self).admin()
                && final(self).metrics() == old(self).metrics() && final(self).seen() == old(
                self,
            ).seen(),
            r is Err ==> *final(self) == *old(self),
    {
        match self.require_admin(admin) {
            Err(e) => return Err(e),
            Ok(()) => {},
        }
        self.paused = paused;
        Ok(())
    }

    pub fn get_metrics(&self) -> (r: Metrics)
        ensures
            r == self.metrics(),
    {
        self.metrics
    }

    pub fn get_health(&self) -> (r: HealthSnapshot)
        ensures
            r == health_of(self.metrics(), self.paused()),
    {
        evaluate_health(&self.metrics, self.paused)
    }
}

} // verus!
