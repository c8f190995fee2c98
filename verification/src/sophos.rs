//! Data model for the first endpoint-security backend: tenant cases and
//! managed endpoints.

use vstd::prelude::*;

verus! {

#[derive(Debug)]
pub struct Case {
    pub id: String,
    pub description: Option<String>,
    pub severity: Option<String>,
    pub status: Option<String>,
    pub created_at: Option<String>,
    pub case_type: Option<String>,
}

impl Clone for Case {
    fn clone(&self) -> (r: Self)
        ensures
            r == *self,
    {
        Case {
            id: self.id.clone(),
            description: self.description.clone(),
            severity: self.severity.clone(),
            status: self.status.clone(),
            created_at: self.created_at.clone(),
            case_type: self.case_type.clone(),
        }
    }
}

#[derive(Debug)]
pub struct EndpointHealth {
    pub overall: Option<String>,
}

impl Clone for EndpointHealth {
    fn clone(&self) -> (r: Self)
        ensures
            r == *self,
    {
        EndpointHealth { overall: self.overall.clone() }
    }
}

#[derive(Debug, Clone, Copy, PartialEq, Eq, Structural)]
pub struct EndpointIsolation {
    pub is_isolated: Option<bool>,
}

#[derive(Debug)]
pub struct Endpoint {
    pub id: String,
    pub hostname: String,
    pub health: Option<EndpointHealth>,
    pub isolation: Option<EndpointIsolation>,
}

impl Clone for Endpoint {
    fn clone(&self) -> (r: Self)
        ensures
            r == *self,
    {
        Endpoint {
            id: self.id.clone(),
            hostname: self.hostname.clone(),
            health: self.health.clone(),
            isolation: self.isolation,
        }
    }
}

} // verus!
