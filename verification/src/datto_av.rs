//! Data model for the second endpoint-security backend: per-host agent
//! details and their alerts.

use vstd::prelude::*;

verus! {

#[derive(Debug)]
pub struct AgentDetail {
    pub id: String,
    pub hostname: String,
    pub name: Option<String>,
    pub status: Option<String>,
    pub version: Option<String>,
    pub active: Option<bool>,
    pub isolated: Option<bool>,
    pub datto_av_enabled: Option<bool>,
    pub dns_secure_enabled: Option<bool>,
    pub heartbeat: Option<String>,
    pub alert_count: Option<String>,
    pub device_group_name: Option<String>,
    pub organization_name: Option<String>,
}

impl Clone for AgentDetail {
    fn clone(&self) -> (r: Self)
        ensures
            r == *self,
    {
        AgentDetail {
            id: self.id.clone(),
            hostname: self.hostname.clone(),
            name: self.name.clone(),
            status: self.status.clone(),
            version: self.version.clone(),
            active: self.active,
            isolated: self.isolated,
            datto_av_enabled: self.datto_av_enabled,
            dns_secure_enabled: self.dns_secure_enabled,
            heartbeat: self.heartbeat.clone(),
            alert_count: self.alert_count.clone(),
            device_group_name: self.device_group_name.clone(),
            organization_name: self.organization_name.clone(),
        }
    }
}

#[derive(Debug)]
pub struct Alert {
    pub id: String,
    pub name: Option<String>,
    pub alert_type: Option<String>,
    pub description: Option<String>,
    pub severity: Option<String>,
    pub mitre_id: Option<String>,
    pub mitre_tactic: Option<String>,
    pub hostname: Option<String>,
    pub created_on: Option<String>,
    pub event_time: Option<String>,
}

impl Clone for Alert {
    fn clone(&self) -> (r: Self)
        ensures
            r == *self,
    {
        Alert {
            id: self.id.clone(),
            name: self.name.clone(),
            alert_type: self.alert_type.clone(),
            description: self.description.clone(),
            severity: self.severity.clone(),
            mitre_id: self.mitre_id.clone(),
            mitre_tactic: self.mitre_tactic.clone(),
            hostname: self.hostname.clone(),
            created_on: self.created_on.clone(),
            event_time: self.event_time.clone(),
        }
    }
}

} // verus!
