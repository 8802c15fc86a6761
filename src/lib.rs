//! Finds out who is on call for a schedule, how to reach them by phone, and
//! rings them through a call-workflow provider.
pub mod config;
pub mod opsgenie;
pub mod text;
pub mod twilio;
pub mod util;

use vstd::prelude::*;

verus! {

pub const APP_NAME: &'static str = "who-you-gonna-call";

/// A schedule named by its identifier.
#[derive(Debug, Clone, PartialEq, Eq, Hash)]
pub struct ScheduleRequestById {
    pub id: String,
}

/// A schedule named by its name.
#[derive(Debug, Clone, PartialEq, Eq, Hash)]
pub struct ScheduleRequestByName {
    pub name: String,
}

/// Which on-call roster to ask about.
#[derive(Debug, Clone, PartialEq, Eq, Hash)]
pub enum Schedule {
    ScheduleById(ScheduleRequestById),
    ScheduleByName(ScheduleRequestByName),
}

/// A request to ring whoever is on call for a schedule, with a workflow.
#[derive(Debug, Clone, PartialEq, Eq, Hash)]
pub struct Alert {
    pub schedule: String,
    pub twilio_workflow: String,
}

#[derive(Debug, Clone, Copy, PartialEq, Eq, Hash, Structural)]
pub enum Health {
    Healthy,
    Sick,
}

/// The answer to a health check.
#[derive(Debug, Clone, Copy, PartialEq, Eq, Hash, Structural)]
pub struct Status {
    pub health: Health,
}

/// The service's answer to a health check: it is up.
pub fn health() -> (r: Status)
    ensures
        r.health == Health::Healthy,
{
    Status { health: Health::Healthy }
}

/// Why a request to the service failed.
#[derive(Debug)]
pub enum RequestError {
    OpsGenie { source: opsgenie::Error },
    Twilio { source: twilio::Error },
}

impl RequestError {
    /// The HTTP status that answers the failed request: the one of the
    /// provider's error.
    pub fn status_code(&self) -> (r: u16)
        ensures
            r == match self {
                RequestError::OpsGenie { source } => match source {
                    opsgenie::Error::RequestOnCallPerson { .. } => 422u16,
                    opsgenie::Error::NoOnCallPerson => 418u16,
                    opsgenie::Error::NoPhoneNumber { .. } => 418u16,
                    _ => 500u16,
                },
                RequestError::Twilio { .. } => 500u16,
            },
    {
        match self {
            RequestError::OpsGenie { source } => source.status_code(),
            RequestError::Twilio { source } => source.status_code(),
        }
    }
}

} // verus!
