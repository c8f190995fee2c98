//! The reconciliation engine: aggregates the incident feed into per-key
//! counts, and joins those counts onto the primary site list by a
//! best-effort key.
//!
//! The lookup key for a site is an explicit override taken from its
//! attached variables when one is present, else its display name
//! lowercased with no other normalization. A missing entry means zero
//! counts, never an error. Two sites may resolve to the same key; both
//! then receive the same aggregate.

use vstd::prelude::*;
use crate::datto::{Site, SiteVariable};
use crate::rocket_cyber::Incident;
use crate::sophos::Case;
use crate::store::KeyedStore;
use crate::strings::{lower_of, lowercase, spec_decimal, decimal_i32, string_is};

verus! {

/// The variable name whose value overrides a site's lookup key.
pub const OVERRIDE_KEY_VAR: &'static str = "tuiMdrId";

/// Aggregate incident counts for one key.
#[derive(Debug, Clone, Copy, PartialEq, Eq, Structural)]
pub struct IncidentStats {
    pub active: i32,
    pub resolved: i32,
}

impl Default for IncidentStats {
    /// Zero counts.
    fn default() -> (r: Self)
        ensures
            r == (IncidentStats { active: 0, resolved: 0 }),
    {
        IncidentStats { active: 0, resolved: 0 }
    }
}

/// A count advances by one per matching incident, stopping at the top of
/// the range rather than wrapping.
pub open spec fn spec_sat_inc(v: i32) -> i32 {
    if v == i32::MAX {
        v
    } else {
        (v + 1) as i32
    }
}

/// One incident added to a count pair: the resolved count advances for a
/// resolved incident, the active count for any other.
pub open spec fn spec_add_one(s: IncidentStats, resolved: bool) -> IncidentStats {
    if resolved {
        IncidentStats { active: s.active, resolved: spec_sat_inc(s.resolved) }
    } else {
        IncidentStats { active: spec_sat_inc(s.active), resolved: s.resolved }
    }
}

/// The counts stored under a key, zero where none are.
pub open spec fn spec_stats_at(m: Map<Seq<char>, IncidentStats>, k: Seq<char>) -> IncidentStats {
    if m.contains_key(k) {
        m[k]
    } else {
        IncidentStats { active: 0, resolved: 0 }
    }
}

/// One incident counted under one key.
pub open spec fn spec_bump_stats(
    m: Map<Seq<char>, IncidentStats>,
    k: Seq<char>,
    resolved: bool,
) -> Map<Seq<char>, IncidentStats> {
    m.insert(k, spec_add_one(spec_stats_at(m, k), resolved))
}

/// An incident is resolved when its status, lowercased, reads "resolved".
pub open spec fn spec_incident_resolved(inc: Incident) -> bool {
    lower_of(inc.status@) == "resolved"@
}

/// One incident counted under both of its keys: the account name
/// lowercased, and the account identifier rendered in decimal.
pub open spec fn spec_apply_incident(
    m: Map<Seq<char>, IncidentStats>,
    inc: Incident,
) -> Map<Seq<char>, IncidentStats> {
    let m1 = spec_bump_stats(m, lower_of(inc.account_name@), spec_incident_resolved(inc));
    spec_bump_stats(m1, spec_decimal(inc.account_id as int), spec_incident_resolved(inc))
}

/// The aggregate of a whole incident feed, counted in order.
pub open spec fn spec_aggregate(incidents: Seq<Incident>) -> Map<Seq<char>, IncidentStats>
    decreases incidents.len(),
{
    if incidents.len() == 0 {
        Map::empty()
    } else {
        spec_apply_incident(spec_aggregate(incidents.drop_last()), incidents.last())
    }
}

/// Adds one incident under one key.
fn bump_stats(stats: &mut KeyedStore<IncidentStats>, key: String, resolved: bool)
    requires
        old(stats).wf(),
    ensures
        final(stats)@ == spec_bump_stats(old(stats)@, key@, resolved),
        final(stats).wf(),
{
    let cur = match stats.get(&key) {
        Some(s) => *s,
        None => IncidentStats { active: 0, resolved: 0 },
    };
    let next = if resolved {
        IncidentStats {
            active: cur.active,
            resolved: if cur.resolved == i32::MAX {
                cur.resolved
            } else {
                cur.resolved + 1
            },
        }
    } else {
        IncidentStats {
            active: if cur.active == i32::MAX {
                cur.active
            } else {
                cur.active + 1
            },
            resolved: cur.resolved,
        }
    };
    stats.insert(key, next);
}

/// Rebuilds the aggregate counts from a fresh incident feed.
pub fn aggregate_incidents(incidents: &Vec<Incident>) -> (r: KeyedStore<IncidentStats>)
    ensures
        r@ == spec_aggregate(incidents@),
        r.wf(),
{
    let mut stats = KeyedStore::<IncidentStats>::new();
    let n = incidents.len();
    let mut i: usize = 0;
    while i < n
        invariant
            n == incidents@.len(),
            i <= n,
            stats.wf(),
            stats@ == spec_aggregate(incidents@.take(i as int)),
        decreases n - i,
    {
        let inc = &incidents[i];
        let resolved = string_is(&lowercase(inc.status.as_str()), "resolved");
        bump_stats(&mut stats, lowercase(inc.account_name.as_str()), resolved);
        bump_stats(&mut stats, decimal_i32(inc.account_id), resolved);
        proof {
            let t = incidents@.take(i + 1);
            assert(t.drop_last() =~= incidents@.take(i as int));
            assert(t.last() == incidents@[i as int]);
        }
        i = i + 1;
    }
    proof {
        assert(incidents@.take(n as int) =~= incidents@);
    }
    stats
}

/// A case counts as resolved when its status, lowercased, reads
/// "resolved" or "closed"; a missing status counts as active.
pub open spec fn spec_case_resolved(c: Case) -> bool {
    match c.status {
        Some(s) => lower_of(s@) == "resolved"@ || lower_of(s@) == "closed"@,
        None => false,
    }
}

/// The counts over a tenant's cases.
pub open spec fn spec_count_cases(cases: Seq<Case>) -> IncidentStats
    decreases cases.len(),
{
    if cases.len() == 0 {
        IncidentStats { active: 0, resolved: 0 }
    } else {
        spec_add_one(spec_count_cases(cases.drop_last()), spec_case_resolved(cases.last()))
    }
}

/// Counts a tenant's cases into a fresh count pair.
pub fn count_cases(cases: &Vec<Case>) -> (r: IncidentStats)
    ensures
        r == spec_count_cases(cases@),
{
    let mut counts = IncidentStats { active: 0, resolved: 0 };
    let n = cases.len();
    let mut i: usize = 0;
    while i < n
        invariant
            n == cases@.len(),
            i <= n,
            counts == spec_count_cases(cases@.take(i as int)),
        decreases n - i,
    {
        let resolved = match &cases[i].status {
            Some(s) => {
                let folded = lowercase(s.as_str());
                string_is(&folded, "resolved") || string_is(&folded, "closed")
            },
            None => false,
        };
        counts = if resolved {
            IncidentStats {
                active: counts.active,
                resolved: if counts.resolved == i32::MAX {
                    counts.resolved
                } else {
                    counts.resolved + 1
                },
            }
        } else {
            IncidentStats {
                active: if counts.active == i32::MAX {
                    counts.active
                } else {
                    counts.active + 1
                },
                resolved: counts.resolved,
            }
        };
        proof {
            let t = cases@.take(i + 1);
            assert(t.drop_last() =~= cases@.take(i as int));
            assert(t.last() == cases@[i as int]);
        }
        i = i + 1;
    }
    proof {
        assert(cases@.take(n as int) =~= cases@);
    }
    counts
}

/// The first variable carrying a given name, if any.
pub open spec fn spec_find_var(vars: Seq<SiteVariable>, name: Seq<char>) -> Option<SiteVariable>
    decreases vars.len(),
{
    if vars.len() == 0 {
        None
    } else if vars[0].name@ == name {
        Some(vars[0])
    } else {
        spec_find_var(vars.drop_first(), name)
    }
}

/// Finds the first variable carrying a given name.
pub fn find_variable<'a>(vars: &'a Vec<SiteVariable>, name: &str) -> (r: Option<&'a SiteVariable>)
    ensures
        match r {
            Some(v) => spec_find_var(vars@, name@) == Some(*v),
            None => spec_find_var(vars@, name@) is None,
        },
{
    let n = vars.len();
    let mut i: usize = 0;
    proof {
        assert(vars@.skip(0) =~= vars@);
    }
    while i < n
        invariant
            n == vars@.len(),
            i <= n,
            spec_find_var(vars@, name@) == spec_find_var(vars@.skip(i as int), name@),
        decreases n - i,
    {
        if string_is(&vars[i].name, name) {
            proof {
                assert(vars@.skip(i as int)[0] == vars@[i as int]);
            }
            return Some(&vars[i]);
        }
        proof {
            assert(vars@.skip(i as int)[0] == vars@[i as int]);
            assert(vars@.skip(i as int).drop_first() =~= vars@.skip(i + 1));
        }
        i = i + 1;
    }
    proof {
        assert(vars@.skip(n as int).len() == 0);
    }
    None
}

/// The value of the first override variable in a site's list, if any.
pub open spec fn spec_override_key(vars: Seq<SiteVariable>) -> Option<Seq<char>> {
    match spec_find_var(vars, OVERRIDE_KEY_VAR@) {
        Some(v) => Some(v.value@),
        None => None,
    }
}

/// The key a site is looked up under: its override variable's value when
/// one is attached, else its display name lowercased.
pub open spec fn spec_lookup_key(site: Site) -> Seq<char> {
    let over = match site.variables {
        Some(vs) => spec_override_key(vs@),
        None => None,
    };
    match over {
        Some(k) => k,
        None => lower_of(site.name@),
    }
}

/// The aggregate a site shows: the counts under its lookup key, zero when
/// the key is absent.
pub open spec fn spec_stats_for(site: Site, m: Map<Seq<char>, IncidentStats>) -> IncidentStats {
    spec_stats_at(m, spec_lookup_key(site))
}

/// Joins the aggregate counts onto one site.
pub fn stats_for_site(site: &Site, stats: &KeyedStore<IncidentStats>) -> (r: IncidentStats)
    requires
        stats.wf(),
    ensures
        r == spec_stats_for(*site, stats@),
{
    let over: Option<String> = match &site.variables {
        Some(vars) => match find_variable(vars, OVERRIDE_KEY_VAR) {
            Some(v) => Some(v.value.clone()),
            None => None,
        },
        None => None,
    };
    let key = match over {
        Some(k) => k,
        None => lowercase(site.name.as_str()),
    };
    match stats.get(&key) {
        Some(s) => *s,
        None => IncidentStats { active: 0, resolved: 0 },
    }
}

} // verus!
