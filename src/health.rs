use vstd::prelude::*;

verus! {

/// A state in which the service cannot serve requests.
#[derive(PartialEq, Eq, Structural, Debug, Clone, Copy)]
pub enum UnhealthyStatus {
    Starting,
    Degraded,
    Down,
}

/// A state in which the service serves requests.
#[derive(PartialEq, Eq, Structural, Debug, Clone, Copy)]
pub enum HealthyStatus {
    Running,
    Recovered,
}

/// The health of the service.
#[derive(PartialEq, Eq, Structural, Debug, Clone, Copy)]
pub enum HealthStatus {
    Unhealthy(UnhealthyStatus),
    Healthy(HealthyStatus),
}

/// The health of the service together with whether it has become ready once.
#[derive(PartialEq, Eq, Structural, Debug, Clone, Copy)]
pub struct Health {
    pub status: HealthStatus,
    pub ready: bool,
}

/// The body of the error reported while the service is unhealthy.
#[derive(PartialEq, Eq, Structural, Debug, Clone, Copy)]
pub struct ServiceUnhealthyError {
    pub status: UnhealthyStatus,
}

/// Name of an unhealthy state.
pub open spec fn unhealthy_name(s: UnhealthyStatus) -> Seq<char> {
    match s {
        UnhealthyStatus::Starting => "Starting"@,
        UnhealthyStatus::Degraded => "Degraded"@,
        UnhealthyStatus::Down => "Down"@,
    }
}

/// Name of a healthy state.
pub open spec fn healthy_name(s: HealthyStatus) -> Seq<char> {
    match s {
        HealthyStatus::Running => "Running"@,
        HealthyStatus::Recovered => "Recovered"@,
    }
}

/// Name of a health status: the name of the state it carries.
pub open spec fn status_name(s: HealthStatus) -> Seq<char> {
    match s {
        HealthStatus::Unhealthy(u) => unhealthy_name(u),
        HealthStatus::Healthy(h) => healthy_name(h),
    }
}

impl UnhealthyStatus {
    /// The state's name, as shown to clients.
    pub fn to_string(&self) -> (r: String)
        ensures
            r@ == unhealthy_name(*self),
    {
        match self {
            UnhealthyStatus::Starting => String::from_str("Starting"),
            UnhealthyStatus::Degraded => String::from_str("Degraded"),
            UnhealthyStatus::Down => String::from_str("Down"),
        }
    }
}

impl HealthyStatus {
    /// The state's name, as shown to clients.
    pub fn to_string(&self) -> (r: String)
        ensures
            r@ == healthy_name(*self),
    {
        match self {
            HealthyStatus::Running => String::from_str("Running"),
            HealthyStatus::Recovered => String::from_str("Recovered"),
        }
    }
}

impl HealthStatus {
    /// The name of the state that the status carries.
    pub fn to_string(&self) -> (r: String)
        ensures
            r@ == status_name(*self),
    {
        match self {
            HealthStatus::Unhealthy(status) => status.to_string(),
            HealthStatus::Healthy(status) => status.to_string(),
        }
    }
}

impl Health {
    /// The health of a service that has just been created: down, not ready.
    pub fn new() -> (r: Health)
        ensures
            r.status == HealthStatus::Unhealthy(UnhealthyStatus::Down),
            !r.ready,
    {
        Health { status: HealthStatus::Unhealthy(UnhealthyStatus::Down), ready: false }
    }

    /// Marks the service ready. The flag tells whether it was not ready
    /// before, which is when the readiness is announced.
    pub fn set_ready(&mut self) -> (newly_ready: bool)
        ensures
            final(self).status == old(self).status,
            final(self).ready,
            newly_ready == !old(self).ready,
    {
        let newly_ready = !self.ready;
        self.ready = true;
        newly_ready
    }

    /// Records a new status; a healthy status also marks the service ready.
    /// The flag tells whether the service became ready by this call.
    pub fn set(&mut self, status: HealthStatus) -> (newly_ready: bool)
        ensures
            final(self).status == status,
            final(self).ready == (old(self).ready || status is Healthy),
            newly_ready == (!old(self).ready && status is Healthy),
    {
        self.status = status;
        match status {
            HealthStatus::Healthy(_) => self.set_ready(),
            HealthStatus::Unhealthy(_) => false,
        }
    }

    /// Whether the combination can be asked for readiness: a service that
    /// is healthy has been marked ready.
    pub open spec fn consistent(&self) -> bool {
        self.ready || self.status is Unhealthy
    }

    /// Readiness: the status once the service is ready, else the unhealthy
    /// state that keeps it from being ready.
    pub fn ready_status(&self) -> (r: Result<HealthStatus, UnhealthyStatus>)
        requires
            self.consistent(),
        ensures
            r is Ok <==> self.ready,
            r is Ok ==> r->Ok_0 == self.status,
            r is Err ==> self.status == HealthStatus::Unhealthy(r->Err_0),
    {
        if self.ready {
            Ok(self.status)
        } else {
            match self.status {
                HealthStatus::Unhealthy(status) => Err(status),
                HealthStatus::Healthy(_) => Ok(self.status),
            }
        }
    }

    /// Liveness: the healthy state, or the unhealthy state.
    pub fn live_status(&self) -> (r: Result<HealthyStatus, UnhealthyStatus>)
        ensures
            r is Ok <==> self.status is Healthy,
            r is Ok ==> self.status == HealthStatus::Healthy(r->Ok_0),
            r is Err ==> self.status == HealthStatus::Unhealthy(r->Err_0),
    {
        match self.status {
            HealthStatus::Healthy(status) => Ok(status),
            HealthStatus::Unhealthy(status) => Err(status),
        }
    }
}

/// A shared handle on the health of a running service.
pub trait HealthProxy: Sized {
    /// A handle on the health of a service that has just been created.
    fn new() -> Self;

    /// A copy of the current health.
    fn get(self) -> Health;

    /// Records a new status and marks the service started.
    fn put(self, status: HealthStatus);
}

} // verus!
