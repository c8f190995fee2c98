//! Data model for the incident feed backend.

use vstd::prelude::*;

verus! {

#[derive(Debug)]
pub struct Incident {
    pub id: i32,
    pub title: String,
    pub status: String,
    pub account_id: i32,
    pub account_name: String,
    pub created_at: String,
    pub resolved_at: Option<String>,
}

impl Clone for Incident {
    fn clone(&self) -> (r: Self)
        ensures
            r == *self,
    {
        Incident {
            id: self.id,
            title: self.title.clone(),
            status: self.status.clone(),
            account_id: self.account_id,
            account_name: self.account_name.clone(),
            created_at: self.created_at.clone(),
            resolved_at: self.resolved_at.clone(),
        }
    }
}

#[derive(Debug)]
pub struct IncidentsResponse {
    pub total_count: i32,
    pub data_count: i32,
    pub data: Vec<Incident>,
}

} // verus!
