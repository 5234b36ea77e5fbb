//! Health reports: per-component status and the overall verdict.

use vstd::prelude::*;

verus! {

/// Milliseconds as reported: the elapsed time, capped at `u64::MAX`.
pub fn duration_to_millis(elapsed_ms: u128) -> (r: u64)
    ensures
        r == if elapsed_ms > u64::MAX as u128 {
            u64::MAX as u128
        } else {
            elapsed_ms
        },
{
    if elapsed_ms > u64::MAX as u128 {
        u64::MAX
    } else {
        elapsed_ms as u64
    }
}

/// Errors of a health probe.
#[derive(Debug, Clone)]
pub enum HealthError {
    /// The database could not be reached or queried.
    DatabaseError(String),
}

impl HealthError {
    /// A one-line description.
    pub fn message(&self) -> (r: String)
        ensures
            self matches HealthError::DatabaseError(cause) ==> r@ == "Database error: "@ + cause@,
    {
        match self {
            HealthError::DatabaseError(cause) => String::from_str("Database error: ").concat(
                cause.as_str(),
            ),
        }
    }
}

/// Health of one component.
#[derive(Debug, Clone)]
pub struct ComponentHealth {
    /// Component name, such as `database` or `application`.
    pub name: String,
    /// `healthy` or `unhealthy`.
    pub status: String,
    /// What went wrong, if anything did.
    pub message: Option<String>,
    /// How long the probe took.
    pub response_time_ms: u64,
}

/// The status text of a healthy component or service.
pub open spec fn healthy() -> Seq<char> {
    "healthy"@
}

impl ComponentHealth {
    /// The application itself, which is healthy whenever it can answer.
    pub fn application(elapsed_ms: u128) -> (r: ComponentHealth)
        ensures
            r.name@ == "application"@,
            r.status@ == healthy(),
            r.message is None,
            r.response_time_ms == duration_to_millis_spec(elapsed_ms),
    {
        ComponentHealth {
            name: String::from_str("application"),
            status: String::from_str("healthy"),
            message: None,
            response_time_ms: duration_to_millis(elapsed_ms),
        }
    }

    /// The database, healthy exactly when its probe succeeded; a failure is
    /// described in `message`.
    pub fn database(outcome: &Result<(), HealthError>, elapsed_ms: u128) -> (r: ComponentHealth)
        ensures
            r.name@ == "database"@,
            outcome is Ok ==> r.status@ == healthy() && r.message is None,
            outcome matches Err(HealthError::DatabaseError(cause)) ==> r.status@ == "unhealthy"@
                && (r.message matches Some(m) && m@ == "Database error: "@ + cause@),
            r.response_time_ms == duration_to_millis_spec(elapsed_ms),
    {
        proof {
            reveal_strlit("healthy");
            reveal_strlit("unhealthy");
        }
        let response_time_ms = duration_to_millis(elapsed_ms);
        match outcome {
            Ok(_) => ComponentHealth {
                name: String::from_str("database"),
                status: String::from_str("healthy"),
                message: None,
                response_time_ms,
            },
            Err(e) => ComponentHealth {
                name: String::from_str("database"),
                status: String::from_str("unhealthy"),
                message: Some(e.message()),
                response_time_ms,
            },
        }
    }

    /// Whether the status is `healthy`.
    pub fn is_healthy(&self) -> (r: bool)
        ensures
            r == (self.status@ == healthy()),
    {
        proof {
            reveal_strlit("healthy");
        }
        self.status == String::from_str("healthy")
    }
}

/// The capped milliseconds of `duration_to_millis`.
pub open spec fn duration_to_millis_spec(elapsed_ms: u128) -> u64 {
    if elapsed_ms > u64::MAX as u128 {
        u64::MAX
    } else {
        elapsed_ms as u64
    }
}

/// Overall health report.
#[derive(Debug, Clone)]
pub struct HealthCheckResponse {
    /// `healthy` when every component is, else `unhealthy`.
    pub status: String,
    /// Version of the service.
    pub version: String,
    /// When the check ran.
    pub timestamp: String,
    /// The components checked.
    pub components: Vec<ComponentHealth>,
    /// How long the whole check took.
    pub total_response_time_ms: u64,
}

impl HealthCheckResponse {
    /// The report over `components`: healthy exactly when each of them is.
    pub fn from_components(
        components: Vec<ComponentHealth>,
        version: String,
        timestamp: String,
        elapsed_ms: u128,
    ) -> (r: HealthCheckResponse)
        ensures
            r.components@ == components@,
            r.version == version,
            r.timestamp == timestamp,
            r.total_response_time_ms == duration_to_millis_spec(elapsed_ms),
            (r.status@ == healthy()) == (forall|i: int|
                0 <= i < components@.len() ==> (#[trigger] components@[i]).status@ == healthy()),
            r.status@ != healthy() ==> r.status@ == "unhealthy"@,
    {
        let n = components.len();
        let mut all_healthy = true;
        let mut i: usize = 0;
        while i < n
            invariant
                n == components@.len(),
                0 <= i <= n,
                all_healthy == (forall|j: int|
                    0 <= j < i ==> (#[trigger] components@[j]).status@ == healthy()),
            decreases n - i,
        {
            if !components[i].is_healthy() {
                all_healthy = false;
            }
            i = i + 1;
        }
        proof {
            reveal_strlit("healthy");
            reveal_strlit("unhealthy");
        }
        let status = if all_healthy {
            String::from_str("healthy")
        } else {
            assert("unhealthy"@.len() != healthy().len());
            String::from_str("unhealthy")
        };
        HealthCheckResponse {
            status,
            version,
            timestamp,
            components,
            total_response_time_ms: duration_to_millis(elapsed_ms),
        }
    }

    /// Whether the overall status is `healthy` (answered with success rather
    /// than "service unavailable").
    pub fn is_healthy(&self) -> (r: bool)
        ensures
            r == (self.status@ == healthy()),
    {
        proof {
            reveal_strlit("healthy");
        }
        self.status == String::from_str("healthy")
    }
}

} // verus!
