//! The unit published on the bus: a service's identity with its latest result.

use vstd::prelude::*;
use crate::status::{HealthCheckStatus, ServiceType};

verus! {

/// One completed check of one service, as published to subscribers.
#[derive(Clone, Debug)]
pub struct HealthCheckInfo {
    pub name: String,
    pub service_type: ServiceType,
    pub url: String,
    pub interval_seconds: u64,
    pub latest_status: HealthCheckStatus,
}

/// The same record under the name that consumers of the stream use.
pub type ServiceHealthCheckInfo = HealthCheckInfo;

impl HealthCheckInfo {
    /// A field-by-field copy.
    pub fn duplicate(&self) -> (r: Self)
        ensures
            r == *self,
    {
        HealthCheckInfo {
            name: self.name.clone(),
            service_type: self.service_type,
            url: self.url.clone(),
            interval_seconds: self.interval_seconds,
            latest_status: self.latest_status.duplicate(),
        }
    }
}

} // verus!
