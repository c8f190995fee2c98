//! Modal input handling: while a modal is active, every key routes to it
//! exclusively, and escape closes exactly that layer, restoring the state
//! underneath unchanged.

use vstd::prelude::*;
use vstd::string::StringExecFns;
use vstd::multiset::Multiset;
use crate::app::{bump, make_string, App};
use crate::datto::{
    device_cached_id, udf_values_cache_id, Component, ComponentVariable, Device, QuickJobComponent,
    QuickJobRequest, QuickJobVariable, Udf, UpdateSiteRequest, UDF_COUNT,
};
use crate::debounce::{should_dispatch, spec_should_dispatch};
use crate::list::PaginatedList;
use crate::modal::{
    DeviceSearch, InputField, InputState, Modal, OptimisticEdit, OutputPopup, PendingUdfEdit,
    RunComponentState, RunComponentStep, SiteEditField, SiteEditState,
};
use crate::msg::{DispatchRequest, Key, Ordinals};
use crate::store::spec_bump;
use crate::strings::{contains_seq, lower_of, pop_char, push_char};

verus! {

/// The user-defined fields after writing one slot, compared by contents:
/// the slot holds the new value, the others are kept (an out-of-range slot
/// changes nothing; a missing set becomes a fresh one holding only the
/// slot).
pub open spec fn udf_values_set(a: Option<Udf>, slot: int, v: Seq<char>, vals: Seq<Option<String>>) -> bool {
    match a {
        Some(u) => if slot < u.values@.len() {
            &&& vals.len() == u.values@.len()
            &&& (vals[slot] matches Some(s) && s@ == v)
            &&& forall|j: int| 0 <= j < vals.len() && j != slot ==> vals[j] == u.values@[j]
        } else {
            vals == u.values@
        },
        None => {
            &&& vals.len() == UDF_COUNT
            &&& (vals[slot] matches Some(s) && s@ == v)
            &&& forall|j: int| 0 <= j < vals.len() && j != slot ==> vals[j] is None
        },
    }
}

/// `b` is `a` with one user-defined field written and every other field
/// kept.
pub open spec fn device_udf_set(a: Device, slot: int, v: Seq<char>, b: Device) -> bool {
    &&& b == Device { udf: b.udf, ..a }
    &&& match b.udf {
        Some(u) => udf_values_set(a.udf, slot, v, u.values@),
        None => false,
    }
}

/// Writes one user-defined field of a device.
pub fn set_udf_on_device(d: Device, slot: usize, v: String) -> (r: Device)
    requires
        slot < UDF_COUNT,
    ensures
        device_udf_set(d, slot as int, v@, r),
{
    let mut d = d;
    let mut udf0: Option<Udf> = None;
    core::mem::swap(&mut udf0, &mut d.udf);
    let new_udf = match udf0 {
        Some(mut u) => {
            u.set_value_at(slot, v);
            u
        },
        None => {
            let mut u = Udf::empty();
            u.set_value_at(slot, v);
            u
        },
    };
    d.udf = Some(new_udf);
    d
}

/// What submitting a site update does: it remembers the pre-edit settings
/// for rollback under the new dispatch ordinal and issues the write built
/// from the current settings copy. Without a selected site or a primary
/// backend, nothing happens.
pub open spec fn submit_site_update_post(
    pre: App,
    snapshot: SiteEditState,
    post: App,
    reqs: Seq<DispatchRequest>,
) -> bool {
    if pre.has_rmm && pre.sites.cursor is Some {
        let i = pre.sites.cursor->0 as int;
        &&& post == (App {
            pending_site_edit: Some(
                OptimisticEdit { snapshot, ordinal: spec_bump(pre.ords.site_update) },
            ),
            ords: (Ordinals { site_update: spec_bump(pre.ords.site_update), ..pre.ords }),
            ..pre
        })
        &&& reqs.len() == 1
        &&& reqs[0] matches DispatchRequest::UpdateSite { site_uid, request, ordinal } && {
            &&& site_uid@ == pre.sites.items@[i].uid@
            &&& ordinal == spec_bump(pre.ords.site_update)
            &&& request.name@ == pre.site_edit_state.name@
            &&& (request.description matches Some(d) && d@ == pre.site_edit_state.description@)
            &&& (request.notes matches Some(n) && n@ == pre.site_edit_state.notes@)
            &&& request.on_demand == Some(pre.site_edit_state.on_demand)
            &&& request.splashtop_auto_install == Some(pre.site_edit_state.splashtop_auto_install)
        }
    } else {
        post == pre && reqs == Seq::<DispatchRequest>::empty()
    }
}

/// What submitting a variable edit does: a create or update request for
/// the selected site, built from the modal's buffers. Without a selected
/// site, a primary backend, or (for an update) a variable identifier,
/// nothing happens.
pub open spec fn submit_variable_post(
    pre: App,
    st: InputState,
    post: App,
    reqs: Seq<DispatchRequest>,
) -> bool {
    if pre.has_rmm && pre.sites.cursor is Some {
        let i = pre.sites.cursor->0 as int;
        if st.is_creating {
            &&& post == (App {
                ords: (Ordinals { var_write: spec_bump(pre.ords.var_write), ..pre.ords }),
                ..pre
            })
            &&& reqs.len() == 1
            &&& reqs[0] matches DispatchRequest::CreateSiteVariable { site_uid, request, ordinal }
                && {
                &&& site_uid@ == pre.sites.items@[i].uid@
                &&& ordinal == spec_bump(pre.ords.var_write)
                &&& request.name@ == st.name_buffer@
                &&& request.value@ == st.value_buffer@
                &&& !request.masked
            }
        } else {
            match st.editing_variable_id {
                Some(id) => {
                    &&& post == (App {
                        ords: (Ordinals { var_write: spec_bump(pre.ords.var_write), ..pre.ords }),
                        ..pre
                    })
                    &&& reqs.len() == 1
                    &&& reqs[0] matches DispatchRequest::UpdateSiteVariable {
                        site_uid,
                        variable_id,
                        request,
                        ordinal,
                    } && {
                        &&& site_uid@ == pre.sites.items@[i].uid@
                        &&& variable_id == id
                        &&& ordinal == spec_bump(pre.ords.var_write)
                        &&& request.name@ == st.name_buffer@
                        &&& request.value@ == st.value_buffer@
                    }
                },
                None => post == pre && reqs == Seq::<DispatchRequest>::empty(),
            }
        }
    } else {
        post == pre && reqs == Seq::<DispatchRequest>::empty()
    }
}

/// What submitting a user-defined-field edit does: the value is applied to
/// the selected device at once, the pre-edit fields are remembered for
/// rollback under the new dispatch ordinal, and the write is issued.
/// Without a selected device or a primary backend, nothing happens.
pub open spec fn submit_udf_post(
    pre: App,
    slot: int,
    value: Seq<char>,
    post: App,
    reqs: Seq<DispatchRequest>,
) -> bool {
    match pre.selected_device {
        Some(sd) => if pre.has_rmm {
            &&& post == (App {
                selected_device: post.selected_device,
                pending_udf_edit: post.pending_udf_edit,
                ords: (Ordinals { udf_write: spec_bump(pre.ords.udf_write), ..pre.ords }),
                ..pre
            })
            &&& (post.selected_device matches Some(sd2) && device_udf_set(sd, slot, value, sd2))
            &&& (post.pending_udf_edit matches Some(p) && {
                &&& p.device_uid@ == sd.uid@
                &&& p.ordinal == spec_bump(pre.ords.udf_write)
                &&& match (sd.udf, p.snapshot) {
                    (Some(ua), Some(ub)) => ua.values@ == ub.values@,
                    (None, None) => true,
                    _ => false,
                }
            })
            &&& reqs.len() == 1
            &&& reqs[0] matches DispatchRequest::UpdateDeviceUdf { device_uid, udf, ordinal } && {
                &&& device_uid@ == sd.uid@
                &&& ordinal == spec_bump(pre.ords.udf_write)
                &&& udf_values_set(sd.udf, slot, value, udf.values@)
            }
        } else {
            post == pre && reqs == Seq::<DispatchRequest>::empty()
        },
        None => post == pre && reqs == Seq::<DispatchRequest>::empty(),
    }
}

impl App {
    /// Remembers the pre-edit settings and issues the site update built
    /// from the current settings copy.
    pub fn submit_site_update(&mut self, snapshot: SiteEditState) -> (reqs: Vec<DispatchRequest>)
        requires
            old(self).wf(),
        ensures
            final(self).wf(),
            submit_site_update_post(*old(self), snapshot, *final(self), reqs@),
    {
        let mut reqs: Vec<DispatchRequest> = Vec::new();
        if self.has_rmm {
            if let Some(i) = self.sites.selected() {
                let site_uid = self.sites.items[i].uid.clone();
                let request = UpdateSiteRequest {
                    name: self.site_edit_state.name.clone(),
                    description: Some(self.site_edit_state.description.clone()),
                    notes: Some(self.site_edit_state.notes.clone()),
                    on_demand: Some(self.site_edit_state.on_demand),
                    splashtop_auto_install: Some(self.site_edit_state.splashtop_auto_install),
                };
                let o = bump(&mut self.ords.site_update);
                self.pending_site_edit = Some(OptimisticEdit { snapshot, ordinal: o });
                reqs.push(DispatchRequest::UpdateSite { site_uid, request, ordinal: o });
                proof {
                    assert(reqs@ =~= seq![reqs@[0]]);
                }
            }
        }
        reqs
    }

    /// Issues the variable create or update built from the modal's
    /// buffers.
    pub fn submit_variable(&mut self, st: &InputState) -> (reqs: Vec<DispatchRequest>)
        requires
            old(self).wf(),
        ensures
            final(self).wf(),
            submit_variable_post(*old(self), *st, *final(self), reqs@),
    {
        let mut reqs: Vec<DispatchRequest> = Vec::new();
        if self.has_rmm {
            if let Some(i) = self.sites.selected() {
                let site_uid = self.sites.items[i].uid.clone();
                if st.is_creating {
                    let o = bump(&mut self.ords.var_write);
                    reqs.push(
                        DispatchRequest::CreateSiteVariable {
                            site_uid,
                            request: crate::datto::CreateVariableRequest {
                                name: st.name_buffer.clone(),
                                value: st.value_buffer.clone(),
                                masked: false,
                            },
                            ordinal: o,
                        },
                    );
                    proof {
                        assert(reqs@ =~= seq![reqs@[0]]);
                    }
                } else {
                    if let Some(id) = st.editing_variable_id {
                        let o = bump(&mut self.ords.var_write);
                        reqs.push(
                            DispatchRequest::UpdateSiteVariable {
                                site_uid,
                                variable_id: id,
                                request: crate::datto::UpdateVariableRequest {
                                    name: st.name_buffer.clone(),
                                    value: st.value_buffer.clone(),
                                },
                                ordinal: o,
                            },
                        );
                        proof {
                            assert(reqs@ =~= seq![reqs@[0]]);
                        }
                    }
                }
            }
        }
        reqs
    }

    /// Applies a user-defined-field edit to the selected device at once,
    /// remembers the pre-edit fields for rollback, and issues the write.
    pub fn submit_device_udf(&mut self, slot: usize, value: String) -> (reqs: Vec<DispatchRequest>)
        requires
            old(self).wf(),
            slot < UDF_COUNT,
        ensures
            final(self).wf(),
            submit_udf_post(*old(self), slot as int, value@, *final(self), reqs@),
    {
        let mut reqs: Vec<DispatchRequest> = Vec::new();
        if !self.has_rmm {
            return reqs;
        }
        let mut sd0: Option<Device> = None;
        core::mem::swap(&mut sd0, &mut self.selected_device);
        match sd0 {
            Some(sd) => {
                let device_uid = sd.uid.clone();
                let snapshot: Option<Udf> = match &sd.udf {
                    Some(u) => {
                        let c = u.clone();
                        Some(c)
                    },
                    None => None,
                };
                let updated = set_udf_on_device(sd, slot, value.clone());
                let wire_udf = match &updated.udf {
                    Some(u) => u.clone(),
                    None => Udf::empty(),
                };
                self.selected_device = Some(updated);
                let o = bump(&mut self.ords.udf_write);
                self.pending_udf_edit = Some(
                    PendingUdfEdit { device_uid: device_uid.clone(), snapshot, ordinal: o },
                );
                reqs.push(
                    DispatchRequest::UpdateDeviceUdf { device_uid, udf: wire_udf, ordinal: o },
                );
                proof {
                    assert(reqs@ =~= seq![reqs@[0]]);
                }
            },
            None => (),
        }
        reqs
    }
}

/// The ordering key of a component variable: its declared position, zero
/// when it has none.
pub open spec fn var_sort_key(v: ComponentVariable) -> int {
    match v.variables_idx {
        Some(x) => x as int,
        None => 0,
    }
}

/// The sequence is ordered by the variables' declared positions.
pub open spec fn sorted_by_idx(s: Seq<ComponentVariable>) -> bool {
    forall|a: int, b: int| 0 <= a < b < s.len() ==> var_sort_key(s[a]) <= var_sort_key(s[b])
}

proof fn lemma_insert_to_multiset(s: Seq<ComponentVariable>, j: int, v: ComponentVariable)
    requires
        0 <= j <= s.len(),
    ensures
        s.insert(j, v).to_multiset() =~= s.to_multiset().insert(v),
{
    broadcast use vstd::seq_lib::group_to_multiset_ensures;
    let t = s.insert(j, v);
    assert(t.remove(j) =~= s);
    assert(t[j] == v);
    assert(t.to_multiset().remove(v) =~= s.to_multiset());
    assert(t.to_multiset().contains(v)) by {
        assert(t.contains(v));
    }
    assert forall|x: ComponentVariable| t.to_multiset().count(x) == s.to_multiset().insert(
        v,
    ).count(x) by {
        if x == v {
            assert(t.to_multiset().remove(v).count(v) == t.to_multiset().count(v) - 1);
        } else {
            assert(t.to_multiset().remove(v).count(x) == t.to_multiset().count(x));
        }
    }
}

/// Reads a variable's ordering key.
fn var_key(v: &ComponentVariable) -> (k: i32)
    ensures
        k as int == var_sort_key(*v),
{
    match v.variables_idx {
        Some(x) => x,
        None => 0,
    }
}

/// Orders a component's variables by their declared positions.
pub fn sort_vars(vars: &Vec<ComponentVariable>) -> (r: Vec<ComponentVariable>)
    ensures
        r@.to_multiset() == vars@.to_multiset(),
        sorted_by_idx(r@),
        r@.len() == vars@.len(),
{
    broadcast use vstd::seq_lib::group_to_multiset_ensures;
    let n = vars.len();
    let mut out: Vec<ComponentVariable> = Vec::new();
    let mut i: usize = 0;
    proof {
        assert(vars@.take(0) =~= Seq::<ComponentVariable>::empty());
        assert(out@.to_multiset() =~= vars@.take(0).to_multiset());
    }
    while i < n
        invariant
            n == vars@.len(),
            i <= n,
            out@.len() == i,
            sorted_by_idx(out@),
            out@.to_multiset() == vars@.take(i as int).to_multiset(),
        decreases n - i,
    {
        broadcast use vstd::seq_lib::group_to_multiset_ensures;
        let v = vars[i].clone();
        let key = var_key(&v);
        let mut j = out.len();
        while j > 0 && var_key(&out[j - 1]) > key
            invariant
                j <= out@.len(),
                var_sort_key(v) == key as int,
                sorted_by_idx(out@),
                forall|a: int| j <= a < out@.len() ==> var_sort_key(out@[a]) > var_sort_key(v),
            decreases j,
        {
            j = j - 1;
        }
        let ghost pre_out = out@;
        out.insert(j, v);
        proof {
            lemma_insert_to_multiset(pre_out, j as int, v);
            let t = vars@.take(i + 1);
            assert(t.drop_last() =~= vars@.take(i as int));
            assert(t.last() == vars@[i as int]);
            assert(vars@.take(i + 1).to_multiset() =~= vars@.take(i as int).to_multiset().insert(
                vars@[i as int],
            )) by {
                assert(vars@.take(i as int).push(vars@[i as int]) =~= vars@.take(i + 1));
            }
            assert(v == vars@[i as int]);
            assert(out@.to_multiset() =~= vars@.take(i + 1).to_multiset());
            assert forall|a: int, b: int|
                0 <= a < b < out@.len() implies var_sort_key(out@[a]) <= var_sort_key(
                out@[b],
            ) by {
                if b < j {
                    assert(out@[a] == pre_out[a] && out@[b] == pre_out[b]);
                } else if a > j {
                    assert(out@[a] == pre_out[a - 1] && out@[b] == pre_out[b - 1]);
                } else if a == j {
                    assert(out@[b] == pre_out[b - 1]);
                    assert(var_sort_key(pre_out[b - 1]) > var_sort_key(v));
                } else if b == j {
                    assert(out@[a] == pre_out[a]);
                    if j > 0 {
                        assert(var_sort_key(pre_out[j - 1]) <= var_sort_key(v));
                        assert(var_sort_key(pre_out[a]) <= var_sort_key(pre_out[j - 1]) || a == j
                            - 1);
                    }
                } else {
                    assert(out@[a] == pre_out[a]);
                    assert(out@[b] == pre_out[b - 1]);
                    if j > 0 && a <= j - 1 && j - 1 <= b - 1 {
                        assert(var_sort_key(pre_out[a]) <= var_sort_key(pre_out[b - 1]));
                    }
                }
            }
        }
        i = i + 1;
    }
    proof {
        assert(vars@.take(n as int) =~= vars@);
    }
    out
}

/// The wizard input a component variable seeds: its name, and its default
/// value or empty.
pub open spec fn quick_var_matches(src: ComponentVariable, q: QuickJobVariable) -> bool {
    &&& q.name@ == src.name@
    &&& q.value@ == (match src.default_val {
        Some(d) => d@,
        None => Seq::<char>::empty(),
    })
}

/// The wizard's input list is the component's variables, ordered by their
/// declared positions, each seeded with its default.
pub open spec fn vars_prepared(src: Option<Vec<ComponentVariable>>, out: Seq<QuickJobVariable>) -> bool {
    match src {
        None => out.len() == 0,
        Some(vs) => exists|sorted: Seq<ComponentVariable>|
            {
                &&& #[trigger] sorted.to_multiset() == vs@.to_multiset()
                &&& sorted_by_idx(sorted)
                &&& out.len() == sorted.len()
                &&& forall|k: int| 0 <= k < out.len() ==> quick_var_matches(sorted[k], out[k])
            },
    }
}

/// Seeds the wizard's input list from a component's variables.
pub fn prepare_quick_vars(src: &Option<Vec<ComponentVariable>>) -> (r: Vec<QuickJobVariable>)
    ensures
        vars_prepared(*src, r@),
{
    match src {
        None => Vec::new(),
        Some(vs) => {
            let sorted = sort_vars(vs);
            let n = sorted.len();
            let mut out: Vec<QuickJobVariable> = Vec::new();
            let mut i: usize = 0;
            while i < n
                invariant
                    n == sorted@.len(),
                    i <= n,
                    out@.len() == i,
                    forall|k: int| 0 <= k < i ==> quick_var_matches(sorted@[k], out@[k]),
                decreases n - i,
            {
                out.push(
                    QuickJobVariable {
                        name: sorted[i].name.clone(),
                        value: match &sorted[i].default_val {
                            Some(d) => d.clone(),
                            None => String::new(),
                        },
                    },
                );
                i = i + 1;
            }
            proof {
                assert(vars_prepared(*src, out@)) by {
                    assert(sorted@.to_multiset() == vs@.to_multiset() && sorted_by_idx(sorted@)
                        && out@.len() == sorted@.len() && forall|k: int|
                        0 <= k < out@.len() ==> quick_var_matches(sorted@[k], out@[k]));
                }
            }
            out
        },
    }
}

/// The filtered component indexes a query leaves visible: all of them for
/// an empty query, else those whose lowercased name contains the
/// lowercased query.
pub open spec fn spec_query_matches(c: Component, q: Seq<char>) -> bool {
    q.len() == 0 || contains_seq(lower_of(c.name@), lower_of(q))
}

/// The indexes the filter keeps, in order.
pub open spec fn spec_filter_indices(comps: Seq<Component>, q: Seq<char>) -> Seq<usize>
    decreases comps.len(),
{
    if comps.len() == 0 {
        Seq::empty()
    } else {
        let rest = spec_filter_indices(comps.drop_last(), q);
        if spec_query_matches(comps.last(), q) {
            rest.push((comps.len() - 1) as usize)
        } else {
            rest
        }
    }
}

/// Recomputes the wizard's filtered list from its query, resetting the
/// selection cursor to the first visible row.
pub fn filter_components(w: &mut RunComponentState)
    ensures
        *final(w) == (RunComponentState { filtered: final(w).filtered, ..*old(w) }),
        final(w).filtered == (PaginatedList {
            items: final(w).filtered.items,
            cursor: PaginatedList::<usize>::spec_reset_cursor(final(w).filtered.items@.len()),
            ..old(w).filtered
        }),
        final(w).filtered.items@ == spec_filter_indices(old(w).components@, old(w).search_query@),
        forall|k: int|
            0 <= k < final(w).filtered.items@.len() ==> final(w).filtered.items@[k]
                < final(w).components@.len(),
{
    let n = w.components.len();
    let empty_query = w.search_query.as_str().unicode_len() == 0;
    let lq = crate::strings::lowercase(w.search_query.as_str());
    let mut idxs: Vec<usize> = Vec::new();
    let mut i: usize = 0;
    proof {
        assert(w.components@.take(0) =~= Seq::<Component>::empty());
        assert(idxs@ =~= spec_filter_indices(w.components@.take(0), w.search_query@));
    }
    while i < n
        invariant
            *w == *old(w),
            n == w.components@.len(),
            i <= n,
            empty_query == (w.search_query@.len() == 0),
            lq@ == lower_of(w.search_query@),
            idxs@ == spec_filter_indices(w.components@.take(i as int), w.search_query@),
            forall|k: int| 0 <= k < idxs@.len() ==> idxs@[k] < i,
        decreases n - i,
    {
        let keep = if empty_query {
            true
        } else {
            let ln = crate::strings::lowercase(w.components[i].name.as_str());
            crate::strings::contains_sub(ln.as_str(), lq.as_str())
        };
        if keep {
            idxs.push(i);
        }
        proof {
            let t = w.components@.take(i + 1);
            assert(t.drop_last() =~= w.components@.take(i as int));
            assert(t.last() == w.components@[i as int]);
            assert(idxs@ =~= spec_filter_indices(w.components@.take(i + 1), w.search_query@));
        }
        i = i + 1;
    }
    proof {
        assert(w.components@.take(n as int) =~= w.components@);
    }
    let cursor: Option<usize> = if idxs.len() > 0 {
        Some(0)
    } else {
        None
    };
    w.filtered.items = idxs;
    w.filtered.cursor = cursor;
}

/// `e2` is `e` with one text field replaced and every other field kept.
pub open spec fn edit_with_field(e: SiteEditState, f: SiteEditField, v: Seq<char>, e2: SiteEditState) -> bool {
    &&& e2.active_field == e.active_field
    &&& e2.is_editing == e.is_editing
    &&& e2.on_demand == e.on_demand
    &&& e2.splashtop_auto_install == e.splashtop_auto_install
    &&& match f {
        SiteEditField::Name => e2.name@ == v && e2.description == e.description && e2.notes
            == e.notes,
        SiteEditField::Description => e2.description@ == v && e2.name == e.name && e2.notes
            == e.notes,
        SiteEditField::Notes => e2.notes@ == v && e2.name == e.name && e2.description
            == e.description,
    }
}

/// The modal a closed text input returns to: the field picker it was
/// opened from, or nothing.
pub open spec fn spec_close_text_modal(st: InputState) -> Modal {
    match st.editing_udf_index {
        Some(i) => if i < UDF_COUNT {
            Modal::UdfPicker { cursor: i }
        } else {
            Modal::Idle
        },
        None => Modal::Idle,
    }
}

/// Whether the active field edits the name buffer (the value buffer is
/// the one exception).
pub open spec fn spec_edits_name_buffer(f: InputField) -> bool {
    f != InputField::Value
}

/// What one key does to the text-input modal.
pub open spec fn text_input_post(
    pre: App,
    st: InputState,
    key: Key,
    post: App,
    reqs: Seq<DispatchRequest>,
) -> bool {
    match key {
        Key::Esc => post == (App { modal: spec_close_text_modal(st), ..pre }) && reqs == Seq::<
            DispatchRequest,
        >::empty(),
        Key::Enter => match st.editing_setting {
            Some(field) => exists|es2: SiteEditState|
                {
                    &&& #[trigger] edit_with_field(pre.site_edit_state, field, st.name_buffer@, es2)
                    &&& submit_site_update_post(
                        App { modal: Modal::Idle, site_edit_state: es2, ..pre },
                        pre.site_edit_state,
                        post,
                        reqs,
                    )
                },
            None => match st.editing_udf_index {
                Some(slot) => if slot < UDF_COUNT {
                    submit_udf_post(
                        App { modal: Modal::UdfPicker { cursor: slot }, ..pre },
                        slot as int,
                        st.value_buffer@,
                        post,
                        reqs,
                    )
                } else {
                    post == (App { modal: Modal::Idle, ..pre }) && reqs == Seq::<
                        DispatchRequest,
                    >::empty()
                },
                None => submit_variable_post(App { modal: Modal::Idle, ..pre }, st, post, reqs),
            },
        },
        Key::Tab => post == (App {
            modal: Modal::TextInput(
                InputState {
                    active_field: (if st.editing_udf_index is None {
                        match st.active_field {
                            InputField::Name => InputField::Value,
                            InputField::Value => InputField::Name,
                            other => other,
                        }
                    } else {
                        st.active_field
                    }),
                    ..st
                },
            ),
            ..pre
        }) && reqs == Seq::<DispatchRequest>::empty(),
        Key::Backspace => {
            &&& post == (App { modal: post.modal, ..pre })
            &&& reqs == Seq::<DispatchRequest>::empty()
            &&& match post.modal {
                Modal::TextInput(st2) => if spec_edits_name_buffer(st.active_field) {
                    st2 == (InputState { name_buffer: st2.name_buffer, ..st })
                        && st2.name_buffer@ == (if st.name_buffer@.len() > 0 {
                        st.name_buffer@.drop_last()
                    } else {
                        st.name_buffer@
                    })
                } else {
                    st2 == (InputState { value_buffer: st2.value_buffer, ..st })
                        && st2.value_buffer@ == (if st.value_buffer@.len() > 0 {
                        st.value_buffer@.drop_last()
                    } else {
                        st.value_buffer@
                    })
                },
                _ => false,
            }
        },
        Key::Char(c) => {
            &&& post == (App { modal: post.modal, ..pre })
            &&& reqs == Seq::<DispatchRequest>::empty()
            &&& match post.modal {
                Modal::TextInput(st2) => if spec_edits_name_buffer(st.active_field) {
                    st2 == (InputState { name_buffer: st2.name_buffer, ..st })
                        && st2.name_buffer@ == st.name_buffer@.push(c)
                } else {
                    st2 == (InputState { value_buffer: st2.value_buffer, ..st })
                        && st2.value_buffer@ == st.value_buffer@.push(c)
                },
                _ => false,
            }
        },
        _ => post == pre && reqs == Seq::<DispatchRequest>::empty(),
    }
}

impl App {
    /// Routes one key to the text-input modal: escape closes it back to
    /// where it was opened from with no field applied; enter applies the
    /// buffers to their target and issues the write.
    #[verifier::rlimit(100)]
    pub fn handle_text_input(&mut self, st: InputState, key: Key) -> (reqs: Vec<DispatchRequest>)
        requires
            old(self).wf(),
            old(self).modal is Idle,
        ensures
            final(self).wf(),
            text_input_post(App { modal: Modal::TextInput(st), ..*old(self) }, st, key, *final(self), reqs@),
    {
        let ghost pre = App { modal: Modal::TextInput(st), ..*old(self) };
        let mut st = st;
        match key {
            Key::Esc => {
                self.modal = match st.editing_udf_index {
                    Some(i) => if i < UDF_COUNT {
                        Modal::UdfPicker { cursor: i }
                    } else {
                        Modal::Idle
                    },
                    None => Modal::Idle,
                };
                Vec::new()
            },
            Key::Enter => {
                match st.editing_setting {
                    Some(field) => {
                        let snapshot = self.site_edit_state.clone();
                        match field {
                            SiteEditField::Name => {
                                self.site_edit_state.name = st.name_buffer.clone();
                            },
                            SiteEditField::Description => {
                                self.site_edit_state.description = st.name_buffer.clone();
                            },
                            SiteEditField::Notes => {
                                self.site_edit_state.notes = st.name_buffer.clone();
                            },
                        }
                        proof {
                            assert(edit_with_field(
                                pre.site_edit_state,
                                field,
                                st.name_buffer@,
                                self.site_edit_state,
                            ));
                        }
                        let reqs = self.submit_site_update(snapshot);
                        reqs
                    },
                    None => match st.editing_udf_index {
                        Some(slot) => {
                            if slot < UDF_COUNT {
                                self.modal = Modal::UdfPicker { cursor: slot };
                                let reqs = self.submit_device_udf(slot, st.value_buffer.clone());
                                reqs
                            } else {
                                Vec::new()
                            }
                        },
                        None => {
                            let reqs = self.submit_variable(&st);
                            reqs
                        },
                    },
                }
            },
            Key::Tab => {
                if st.editing_udf_index.is_none() {
                    st.active_field = match st.active_field {
                        InputField::Name => InputField::Value,
                        InputField::Value => InputField::Name,
                        other => other,
                    };
                }
                self.modal = Modal::TextInput(st);
                Vec::new()
            },
            Key::Backspace => {
                match st.active_field {
                    InputField::Value => {
                        pop_char(&mut st.value_buffer);
                    },
                    _ => {
                        pop_char(&mut st.name_buffer);
                    },
                }
                self.modal = Modal::TextInput(st);
                Vec::new()
            },
            Key::Char(c) => {
                match st.active_field {
                    InputField::Value => {
                        push_char(&mut st.value_buffer, c);
                    },
                    _ => {
                        push_char(&mut st.name_buffer, c);
                    },
                }
                self.modal = Modal::TextInput(st);
                Vec::new()
            },
            _ => {
                self.modal = Modal::TextInput(st);
                Vec::new()
            },
        }
    }
}

/// What one key does to the field picker over the selected device.
pub open spec fn udf_picker_post(
    pre: App,
    cursor: usize,
    key: Key,
    post: App,
    reqs: Seq<DispatchRequest>,
) -> bool {
    &&& reqs == Seq::<DispatchRequest>::empty()
    &&& match key {
        Key::Esc => post == (App { modal: Modal::Idle, ..pre }),
        Key::Char(c) => if c == 'v' || c == 'q' {
            post == (App { modal: Modal::Idle, ..pre })
        } else if c == 'j' {
            post == (App {
                modal: Modal::UdfPicker {
                    cursor: (if cursor + 1 >= UDF_COUNT {
                        0usize
                    } else {
                        (cursor + 1) as usize
                    }),
                },
                ..pre
            })
        } else if c == 'k' {
            post == (App {
                modal: Modal::UdfPicker {
                    cursor: (if cursor == 0 {
                        (UDF_COUNT - 1) as usize
                    } else {
                        (cursor - 1) as usize
                    }),
                },
                ..pre
            })
        } else if c == ' ' {
            udf_picker_open_edit(pre, cursor, post)
        } else {
            post == pre
        },
        Key::Down => post == (App {
            modal: Modal::UdfPicker {
                cursor: (if cursor + 1 >= UDF_COUNT {
                    0usize
                } else {
                    (cursor + 1) as usize
                }),
            },
            ..pre
        }),
        Key::Up => post == (App {
            modal: Modal::UdfPicker {
                cursor: (if cursor == 0 {
                    (UDF_COUNT - 1) as usize
                } else {
                    (cursor - 1) as usize
                }),
            },
            ..pre
        }),
        Key::Enter => udf_picker_open_edit(pre, cursor, post),
        _ => post == pre,
    }
}

/// Opening the text edit for the picked field: its label names the
/// one-based field number, its value buffer holds the current value.
pub open spec fn udf_picker_open_edit(pre: App, cursor: usize, post: App) -> bool {
    match pre.selected_device {
        Some(sd) => {
            &&& post == (App { modal: post.modal, ..pre })
            &&& match post.modal {
                Modal::TextInput(st) => {
                    &&& st.name_buffer@ == "UDF "@ + crate::strings::spec_decimal(cursor + 1)
                    &&& st.value_buffer@ == (match sd.udf {
                        Some(u) => match u.spec_value_at(cursor as int) {
                            Some(s) => s@,
                            None => Seq::<char>::empty(),
                        },
                        None => Seq::<char>::empty(),
                    })
                    &&& st.active_field == InputField::Value
                    &&& !st.is_creating
                    &&& st.editing_variable_id is None
                    &&& st.editing_setting is None
                    &&& st.editing_udf_index == Some(cursor)
                },
                _ => false,
            }
        },
        None => post == pre,
    }
}

impl App {
    /// Routes one key to the field picker: row navigation wraps over the
    /// fixed field count; enter opens the text edit for the picked field.
    pub fn handle_udf_picker_input(&mut self, cursor: usize, key: Key) -> (reqs: Vec<DispatchRequest>)
        requires
            old(self).wf(),
            old(self).modal is Idle,
            cursor < UDF_COUNT,
        ensures
            final(self).wf(),
            udf_picker_post(
                App { modal: Modal::UdfPicker { cursor }, ..*old(self) },
                cursor,
                key,
                *final(self),
                reqs@,
            ),
    {
        let ghost pre = App { modal: Modal::UdfPicker { cursor }, ..*old(self) };
        let open_edit = match key {
            Key::Enter => true,
            Key::Char(c) => c == ' ',
            _ => false,
        };
        if open_edit {
            match &self.selected_device {
                Some(sd) => {
                    let label = make_string("UDF ").concat(
                        crate::strings::decimal_i32((cursor as i32) + 1).as_str(),
                    );
                    let value: String = match &sd.udf {
                        Some(u) => match u.value_at(cursor) {
                            Some(s) => s.clone(),
                            None => String::new(),
                        },
                        None => String::new(),
                    };
                    self.modal = Modal::TextInput(
                        InputState {
                            name_buffer: label,
                            value_buffer: value,
                            active_field: InputField::Value,
                            is_creating: false,
                            editing_variable_id: None,
                            editing_setting: None,
                            editing_udf_index: Some(cursor),
                        },
                    );
                },
                None => {
                    self.modal = Modal::UdfPicker { cursor };
                },
            }
            return Vec::new();
        }
        match key {
            Key::Esc => {
                self.modal = Modal::Idle;
            },
            Key::Char(c) => {
                if c == 'v' || c == 'q' {
                    self.modal = Modal::Idle;
                } else if c == 'j' {
                    self.modal = Modal::UdfPicker {
                        cursor: if cursor + 1 >= UDF_COUNT {
                            0
                        } else {
                            cursor + 1
                        },
                    };
                } else if c == 'k' {
                    self.modal = Modal::UdfPicker {
                        cursor: if cursor == 0 {
                            UDF_COUNT - 1
                        } else {
                            cursor - 1
                        },
                    };
                } else {
                    self.modal = Modal::UdfPicker { cursor };
                }
            },
            Key::Down => {
                self.modal = Modal::UdfPicker {
                    cursor: if cursor + 1 >= UDF_COUNT {
                        0
                    } else {
                        cursor + 1
                    },
                };
            },
            Key::Up => {
                self.modal = Modal::UdfPicker {
                    cursor: if cursor == 0 {
                        UDF_COUNT - 1
                    } else {
                        cursor - 1
                    },
                };
            },
            _ => {
                self.modal = Modal::UdfPicker { cursor };
            },
        }
        Vec::new()
    }

    /// Routes one key to the output popup: escape or quit closes it.
    pub fn handle_output_input(&mut self, popup: OutputPopup, key: Key) -> (reqs: Vec<DispatchRequest>)
        requires
            old(self).wf(),
            old(self).modal is Idle,
        ensures
            final(self).wf(),
            output_popup_post(
                App { modal: Modal::Output(popup), ..*old(self) },
                popup,
                key,
                *final(self),
                reqs@,
            ),
    {
        let close = match key {
            Key::Esc => true,
            Key::Char(c) => c == 'q',
            _ => false,
        };
        if close {
            self.modal = Modal::Idle;
        } else {
            self.modal = Modal::Output(popup);
        }
        Vec::new()
    }
}

/// Whether a device's antivirus product, lowercased, contains a text.
pub open spec fn spec_av_contains(d: Device, needle: Seq<char>) -> bool {
    match d.antivirus {
        Some(av) => match av.antivirus_product {
            Some(p) => contains_seq(lower_of(p@), needle),
            None => false,
        },
        None => false,
    }
}

/// The tenant identifier and optional region the device's site carries
/// for the first security backend, if any.
pub open spec fn spec_sophos_params(sites: Seq<crate::datto::Site>, site_uid: Seq<char>) -> Option<
    (crate::datto::SiteVariable, Option<crate::datto::SiteVariable>),
> {
    match crate::events::spec_first_site_index(sites, site_uid) {
        Some(i) => match sites[i].variables {
            Some(vs) => match crate::stats::spec_find_var(vs@, "tuiMdrId"@) {
                Some(idv) => Some((idv, crate::stats::spec_find_var(vs@, "tuiMdrRegion"@))),
                None => None,
            },
            None => None,
        },
        None => None,
    }
}

/// What entering the device screen does: the device becomes selected, any
/// modal closes, and the fetches the screen needs are issued — the
/// matching security lookups, the device's recent activity, and its open
/// alerts.
pub open spec fn enter_device_detail_post(
    pre: App,
    device: Device,
    post: App,
    reqs: Seq<DispatchRequest>,
) -> bool {
    let sophos = pre.has_sophos && spec_av_contains(device, "sophos"@) && spec_sophos_params(
        pre.sites.items@,
        device.site_uid@,
    ) is Some;
    let datto = pre.has_datto_av && spec_av_contains(device, "datto"@);
    let s: int = if sophos {
        1
    } else {
        0
    };
    let t: int = if datto {
        1
    } else {
        0
    };
    let u: int = if pre.has_rmm {
        2
    } else {
        0
    };
    &&& post == (App {
        current_view: crate::modal::CurrentView::DeviceDetail,
        modal: Modal::Idle,
        selected_device: Some(device),
        sophos_loading: post.sophos_loading,
        sophos_endpoint_ordinals: post.sophos_endpoint_ordinals,
        datto_av_loading: post.datto_av_loading,
        datto_av_agent_ordinals: post.datto_av_agent_ordinals,
        activity_logs: post.activity_logs,
        open_alerts: post.open_alerts,
        ords: post.ords,
        ..pre
    })
    &&& reqs.len() == s + t + u
    &&& if sophos {
        let params = spec_sophos_params(pre.sites.items@, device.site_uid@)->0;
        &&& post.sophos_loading@ == pre.sophos_loading@.insert(device.hostname@, true)
        &&& post.sophos_endpoint_ordinals@ == pre.sophos_endpoint_ordinals@.insert(
            device.hostname@,
            spec_bump(pre.sophos_endpoint_ordinals.spec_ordinal(device.hostname@)),
        )
        &&& reqs[0] matches DispatchRequest::FetchSophosEndpoint {
            tenant_id,
            data_region,
            hostname,
            ordinal,
        } && {
            &&& tenant_id@ == params.0.value@
            &&& (match params.1 {
                Some(rv) => data_region matches Some(dr) && dr@ == rv.value@,
                None => data_region is None,
            })
            &&& hostname@ == device.hostname@
            &&& ordinal == spec_bump(pre.sophos_endpoint_ordinals.spec_ordinal(device.hostname@))
        }
    } else {
        post.sophos_loading == pre.sophos_loading && post.sophos_endpoint_ordinals
            == pre.sophos_endpoint_ordinals
    }
    &&& if datto {
        &&& post.datto_av_loading@ == pre.datto_av_loading@.insert(device.hostname@, true)
        &&& post.datto_av_agent_ordinals@ == pre.datto_av_agent_ordinals@.insert(
            device.hostname@,
            spec_bump(pre.datto_av_agent_ordinals.spec_ordinal(device.hostname@)),
        )
        &&& reqs[s] matches DispatchRequest::FetchDattoAvAgent { hostname, agent_id, ordinal } && {
            &&& hostname@ == device.hostname@
            &&& ordinal == spec_bump(pre.datto_av_agent_ordinals.spec_ordinal(device.hostname@))
            &&& (if crate::datto::spec_cached_agent_id(device).len() > 0 {
                agent_id matches Some(h) && h@ == crate::datto::spec_cached_agent_id(device)
            } else {
                agent_id is None
            })
        }
    } else {
        post.datto_av_loading == pre.datto_av_loading && post.datto_av_agent_ordinals
            == pre.datto_av_agent_ordinals
    }
    &&& if pre.has_rmm {
        &&& post.activity_logs.items@.len() == 0
        &&& post.activity_logs.cursor is None
        &&& post.activity_logs.loading
        &&& post.activity_logs.last_error is None
        &&& post.open_alerts.items@.len() == 0
        &&& post.open_alerts.cursor is None
        &&& post.open_alerts.loading
        &&& post.open_alerts.last_error is None
        &&& post.ords == (Ordinals {
            activity_logs: spec_bump(pre.ords.activity_logs),
            open_alerts: spec_bump(pre.ords.open_alerts),
            ..pre.ords
        })
        &&& reqs[s + t] matches DispatchRequest::FetchActivityLogs { device_id, site_id, ordinal }
            && device_id == device.id && site_id == device.site_id && ordinal == spec_bump(
            pre.ords.activity_logs,
        )
        &&& reqs[s + t + 1] matches DispatchRequest::FetchOpenAlerts { device_uid, ordinal }
            && device_uid@ == device.uid@ && ordinal == spec_bump(pre.ords.open_alerts)
    } else {
        post.activity_logs == pre.activity_logs && post.open_alerts == pre.open_alerts && post.ords
            == pre.ords
    }
}

impl App {
    /// Enters the device screen for one device, issuing the fetches it
    /// needs.
    #[verifier::rlimit(100)]
    pub fn enter_device_detail(&mut self, device: Device) -> (reqs: Vec<DispatchRequest>)
        requires
            old(self).wf(),
        ensures
            final(self).wf(),
            enter_device_detail_post(*old(self), device, *final(self), reqs@),
    {
        let mut reqs: Vec<DispatchRequest> = Vec::new();
        let is_sophos = match &device.antivirus {
            Some(av) => match &av.antivirus_product {
                Some(p) => crate::strings::contains_sub(
                    crate::strings::lowercase(p.as_str()).as_str(),
                    "sophos",
                ),
                None => false,
            },
            None => false,
        };
        let is_datto = match &device.antivirus {
            Some(av) => match &av.antivirus_product {
                Some(p) => crate::strings::contains_sub(
                    crate::strings::lowercase(p.as_str()).as_str(),
                    "datto",
                ),
                None => false,
            },
            None => false,
        };
        if is_sophos {
            let params: Option<(String, Option<String>)> = match crate::events::find_site_index(
                &self.sites.items,
                device.site_uid.as_str(),
            ) {
                Some(i) => match &self.sites.items[i].variables {
                    Some(vs) => match crate::stats::find_variable(vs, "tuiMdrId") {
                        Some(idv) => Some(
                            (
                                idv.value.clone(),
                                match crate::stats::find_variable(vs, "tuiMdrRegion") {
                                    Some(rv) => Some(rv.value.clone()),
                                    None => None,
                                },
                            ),
                        ),
                        None => None,
                    },
                    None => None,
                },
                None => None,
            };
            if let Some((tenant, region)) = params {
                let mut more = self.fetch_sophos_endpoint(tenant, region, device.hostname.clone());
                reqs.append(&mut more);
            }
        }
        if is_datto {
            let hint: Option<String> = match &device.udf {
                Some(u) => match u.value_at(crate::datto::AGENT_ID_UDF_SLOT) {
                    Some(id) => if id.as_str().unicode_len() > 0 {
                        Some(id.clone())
                    } else {
                        None
                    },
                    None => None,
                },
                None => None,
            };
            proof {
                if crate::datto::spec_cached_agent_id(device).len() > 0 {
                } else {
                    assert(match hint {
                        Some(_) => false,
                        None => true,
                    });
                }
            }
            let mut more = self.fetch_datto_av_agent(device.hostname.clone(), hint);
            reqs.append(&mut more);
        }
        let mut more = self.fetch_activity_logs(device.id, device.site_id);
        reqs.append(&mut more);
        let mut more2 = self.fetch_open_alerts(device.uid.clone());
        reqs.append(&mut more2);
        self.current_view = crate::modal::CurrentView::DeviceDetail;
        self.modal = Modal::Idle;
        self.selected_device = Some(device);
        proof {
            assert(enter_device_detail_post(*old(self), device, *self, reqs@));
        }
        reqs
    }
}

/// What one key does to the output popup: escape or quit closes it.
pub open spec fn output_popup_post(
    pre: App,
    popup: OutputPopup,
    key: Key,
    post: App,
    reqs: Seq<DispatchRequest>,
) -> bool {
    &&& reqs == Seq::<DispatchRequest>::empty()
    &&& match key {
        Key::Esc => post == (App { modal: Modal::Idle, ..pre }),
        Key::Char(c) => if c == 'q' {
            post == (App { modal: Modal::Idle, ..pre })
        } else {
            post == (App { modal: Modal::Output(popup), ..pre })
        },
        _ => post == (App { modal: Modal::Output(popup), ..pre }),
    }
}

/// What one key does to the device-search list picker.
pub open spec fn search_input_post(
    pre: App,
    ds: DeviceSearch,
    key: Key,
    now_ms: u64,
    post: App,
    reqs: Seq<DispatchRequest>,
) -> bool {
    match key {
        Key::Esc => post == (App { modal: Modal::Idle, ..pre }) && reqs == Seq::<
            DispatchRequest,
        >::empty(),
        Key::Enter => match ds.results.cursor {
            Some(i) => exists|d: Device|
                {
                    &&& #[trigger] crate::datto::device_eq(ds.results.items@[i as int], d)
                    &&& enter_device_detail_post(pre, d, post, reqs)
                },
            None => post == pre && reqs == Seq::<DispatchRequest>::empty(),
        },
        Key::Char(c) => {
            &&& reqs == Seq::<DispatchRequest>::empty()
            &&& post == (App { modal: post.modal, ..pre })
            &&& match post.modal {
                Modal::ListPicker(ds2) => {
                    &&& ds2 == (DeviceSearch {
                        query: ds2.query,
                        last_input_at: Some(now_ms),
                        ..ds
                    })
                    &&& ds2.query@ == ds.query@.push(c)
                },
                _ => false,
            }
        },
        Key::Backspace => {
            &&& reqs == Seq::<DispatchRequest>::empty()
            &&& post == (App { modal: post.modal, ..pre })
            &&& match post.modal {
                Modal::ListPicker(ds2) => {
                    &&& ds2 == (DeviceSearch {
                        query: ds2.query,
                        last_input_at: Some(now_ms),
                        ..ds
                    })
                    &&& ds2.query@ == (if ds.query@.len() > 0 {
                        ds.query@.drop_last()
                    } else {
                        ds.query@
                    })
                },
                _ => false,
            }
        },
        Key::Down | Key::Tab => post == (App {
            modal: Modal::ListPicker(
                DeviceSearch {
                    results: (PaginatedList { cursor: ds.results.spec_next_cursor(), ..ds.results }),
                    ..ds
                },
            ),
            ..pre
        }) && reqs == Seq::<DispatchRequest>::empty(),
        Key::Up | Key::BackTab => post == (App {
            modal: Modal::ListPicker(
                DeviceSearch {
                    results: (PaginatedList { cursor: ds.results.spec_prev_cursor(), ..ds.results }),
                    ..ds
                },
            ),
            ..pre
        }) && reqs == Seq::<DispatchRequest>::empty(),
        _ => post == pre && reqs == Seq::<DispatchRequest>::empty(),
    }
}

impl App {
    /// Routes one key to the device-search picker: typing edits the query
    /// and stamps the keystroke time for the debounce engine; enter opens
    /// the picked device's screen.
    #[verifier::rlimit(100)]
    pub fn handle_device_search_input(&mut self, ds: DeviceSearch, key: Key, now_ms: u64) -> (reqs:
        Vec<DispatchRequest>)
        requires
            old(self).wf(),
            old(self).modal is Idle,
            ds.results.cursor_ok(),
        ensures
            final(self).wf(),
            search_input_post(
                App { modal: Modal::ListPicker(ds), ..*old(self) },
                ds,
                key,
                now_ms,
                *final(self),
                reqs@,
            ),
    {
        let ghost pre = App { modal: Modal::ListPicker(ds), ..*old(self) };
        let mut ds = ds;
        match key {
            Key::Esc => {
                self.modal = Modal::Idle;
                Vec::new()
            },
            Key::Enter => {
                match ds.results.selected() {
                    Some(i) => {
                        let device = ds.results.items[i].clone();
                        let reqs = self.enter_device_detail(device);
                        reqs
                    },
                    None => {
                        self.modal = Modal::ListPicker(ds);
                        Vec::new()
                    },
                }
            },
            Key::Char(c) => {
                push_char(&mut ds.query, c);
                ds.last_input_at = Some(now_ms);
                self.modal = Modal::ListPicker(ds);
                Vec::new()
            },
            Key::Backspace => {
                pop_char(&mut ds.query);
                ds.last_input_at = Some(now_ms);
                self.modal = Modal::ListPicker(ds);
                Vec::new()
            },
            Key::Down | Key::Tab => {
                ds.results.select_next();
                self.modal = Modal::ListPicker(ds);
                Vec::new()
            },
            Key::Up | Key::BackTab => {
                ds.results.select_prev();
                self.modal = Modal::ListPicker(ds);
                Vec::new()
            },
            _ => {
                self.modal = Modal::ListPicker(ds);
                Vec::new()
            },
        }
    }
}

/// The wizard cursor after one step down: wraps over the filtered rows;
/// with no selection it stays unset.
pub open spec fn spec_wizard_next(l: PaginatedList<usize>) -> Option<usize> {
    match l.cursor {
        Some(i) => Some(
            if i + 1 >= l.items@.len() {
                0usize
            } else {
                (i + 1) as usize
            },
        ),
        None => None,
    }
}

/// The wizard cursor after one step up.
pub open spec fn spec_wizard_prev(l: PaginatedList<usize>) -> Option<usize> {
    match l.cursor {
        Some(i) => Some(
            if i == 0 {
                (l.items@.len() - 1) as usize
            } else {
                (i - 1) as usize
            },
        ),
        None => None,
    }
}

/// `vs` is `w`'s input list with the active input saved over the entry at
/// `idx`.
pub open spec fn saved_vars(w: RunComponentState, idx: int, vs: Seq<QuickJobVariable>) -> bool {
    &&& vs.len() == w.variables@.len()
    &&& vs[idx].name == w.variables@[idx].name
    &&& vs[idx].value@ == w.variable_input@
    &&& forall|j: int| 0 <= j < vs.len() && j != idx ==> vs[j] == w.variables@[j]
}

/// What submitting the review step does: the quick job built from the
/// picked component and the filled inputs is issued for the selected
/// device. Without a device, a picked component, or a primary backend,
/// nothing happens.
pub open spec fn run_component_job_post(
    pre: App,
    w: RunComponentState,
    post: App,
    reqs: Seq<DispatchRequest>,
) -> bool {
    if pre.has_rmm && pre.selected_device is Some && w.selected is Some {
        let sd = pre.selected_device->0;
        let ci = w.selected->0 as int;
        &&& post == (App {
            modal: Modal::Wizard(RunComponentState { loading: true, error: None, ..w }),
            ords: (Ordinals { quick_job: spec_bump(pre.ords.quick_job), ..pre.ords }),
            ..pre
        })
        &&& reqs.len() == 1
        &&& reqs[0] matches DispatchRequest::RunQuickJob { device_uid, request, ordinal } && {
            &&& device_uid@ == sd.uid@
            &&& ordinal == spec_bump(pre.ords.quick_job)
            &&& request.job_name@ == "Run Component: "@ + pre_component_name(pre, w)
            &&& request.job_component.component_uid@ == w.components@[ci].uid@
            &&& request.job_component.variables@.len() == w.variables@.len()
            &&& forall|k: int|
                0 <= k < w.variables@.len() ==> #[trigger] request.job_component.variables@[k].name@
                    == w.variables@[k].name@ && request.job_component.variables@[k].value@
                    == w.variables@[k].value@
        }
    } else {
        post == (App { modal: Modal::Wizard(w), ..pre }) && reqs == Seq::<DispatchRequest>::empty()
    }
}

/// The picked component's name.
pub open spec fn pre_component_name(pre: App, w: RunComponentState) -> Seq<char> {
    w.components@[w.selected->0 as int].name@
}

impl App {
    /// Issues the quick job built from the wizard's picked component and
    /// filled inputs.
    #[verifier::rlimit(100)]
    pub fn run_component_job(&mut self, w: RunComponentState) -> (reqs: Vec<DispatchRequest>)
        requires
            old(self).wf(),
            old(self).modal is Idle,
            w.filtered.cursor_ok(),
            forall|i: int| 0 <= i < w.filtered.items@.len() ==> w.filtered.items@[i]
                < w.components@.len(),
            match w.selected {
                Some(ci) => ci < w.components@.len(),
                None => true,
            },
            w.step == RunComponentStep::FillVariables ==> w.variable_index < w.variables@.len(),
        ensures
            final(self).wf(),
            run_component_job_post(
                App { modal: Modal::Wizard(w), ..*old(self) },
                w,
                *final(self),
                reqs@,
            ),
            final(self).modal is Wizard,
    {
        let ghost pre = App { modal: Modal::Wizard(w), ..*old(self) };
        let ghost w0 = w;
        let mut w = w;
        let can_run = self.has_rmm && self.selected_device.is_some() && w.selected.is_some();
        if can_run {
            let ci = match w.selected {
                Some(c) => c,
                None => 0,
            };
            let device_uid = match &self.selected_device {
                Some(sd) => sd.uid.clone(),
                None => String::new(),
            };
            let n = w.variables.len();
            let mut vars: Vec<QuickJobVariable> = Vec::new();
            let mut k: usize = 0;
            while k < n
                invariant
                    n == w.variables@.len(),
                    k <= n,
                    vars@.len() == k,
                    forall|j: int|
                        0 <= j < k ==> #[trigger] vars@[j].name@ == w.variables@[j].name@
                            && vars@[j].value@ == w.variables@[j].value@,
                decreases n - k,
            {
                vars.push(
                    QuickJobVariable {
                        name: w.variables[k].name.clone(),
                        value: w.variables[k].value.clone(),
                    },
                );
                k = k + 1;
            }
            let request = QuickJobRequest {
                job_name: make_string("Run Component: ").concat(w.components[ci].name.as_str()),
                job_component: QuickJobComponent {
                    component_uid: w.components[ci].uid.clone(),
                    variables: vars,
                },
            };
            w.loading = true;
            w.error = None;
            self.modal = Modal::Wizard(w);
            let o = bump(&mut self.ords.quick_job);
            let mut reqs: Vec<DispatchRequest> = Vec::new();
            reqs.push(DispatchRequest::RunQuickJob { device_uid, request, ordinal: o });
            proof {
                assert(reqs@ =~= seq![reqs@[0]]);
                assert(*self == (App {
                    modal: Modal::Wizard(RunComponentState { loading: true, error: None, ..w0 }),
                    ords: (Ordinals { quick_job: spec_bump(pre.ords.quick_job), ..pre.ords }),
                    ..pre
                }));
                assert(reqs@.len() == 1);
                assert(reqs@[0] matches DispatchRequest::RunQuickJob { device_uid: du, request: r, ordinal: oo } && {
                    &&& du@ == pre.selected_device->0.uid@
                    &&& oo == spec_bump(pre.ords.quick_job)
                    &&& r.job_name@ == "Run Component: "@ + pre_component_name(pre, w0)
                    &&& r.job_component.component_uid@ == w0.components@[w0.selected->0 as int].uid@
                    &&& r.job_component.variables@.len() == w0.variables@.len()
                });
                assert(run_component_job_post(pre, w0, *self, reqs@));
            }
            reqs
        } else {
            self.modal = Modal::Wizard(w);
            let reqs: Vec<DispatchRequest> = Vec::new();
            proof {
                assert(run_component_job_post(pre, w0, *self, reqs@));
            }
            reqs
        }
    }
}

/// What one key does to the run-component wizard, by step: the search
/// list, the per-variable inputs, the review, and the terminal result.
pub open spec fn wizard_post(
    pre: App,
    w: RunComponentState,
    key: Key,
    post: App,
    reqs: Seq<DispatchRequest>,
) -> bool {
    match w.step {
        RunComponentStep::Search => match key {
            Key::Esc => post == (App { modal: Modal::Idle, ..pre }) && reqs == Seq::<
                DispatchRequest,
            >::empty(),
            Key::Down => wizard_nav_next(pre, w, post) && reqs == Seq::<DispatchRequest>::empty(),
            Key::Up => wizard_nav_prev(pre, w, post) && reqs == Seq::<DispatchRequest>::empty(),
            Key::Enter => wizard_pick(pre, w, post) && reqs == Seq::<DispatchRequest>::empty(),
            Key::Char(c) => if c == 'j' {
                wizard_nav_next(pre, w, post) && reqs == Seq::<DispatchRequest>::empty()
            } else if c == 'k' {
                wizard_nav_prev(pre, w, post) && reqs == Seq::<DispatchRequest>::empty()
            } else {
                &&& reqs == Seq::<DispatchRequest>::empty()
                &&& post == (App { modal: post.modal, ..pre })
                &&& match post.modal {
                    Modal::Wizard(w2) => {
                        &&& w2 == (RunComponentState {
                            search_query: w2.search_query,
                            filtered: w2.filtered,
                            ..w
                        })
                        &&& w2.search_query@ == w.search_query@.push(c)
                        &&& w2.filtered.items@ == spec_filter_indices(
                            w.components@,
                            w2.search_query@,
                        )
                        &&& w2.filtered.cursor == PaginatedList::<usize>::spec_reset_cursor(
                            w2.filtered.items@.len(),
                        )
                        &&& w2.filtered.loading == w.filtered.loading
                        &&& w2.filtered.last_error == w.filtered.last_error
                    },
                    _ => false,
                }
            },
            Key::Backspace => {
                &&& reqs == Seq::<DispatchRequest>::empty()
                &&& post == (App { modal: post.modal, ..pre })
                &&& match post.modal {
                    Modal::Wizard(w2) => {
                        &&& w2 == (RunComponentState {
                            search_query: w2.search_query,
                            filtered: w2.filtered,
                            ..w
                        })
                        &&& w2.search_query@ == (if w.search_query@.len() > 0 {
                            w.search_query@.drop_last()
                        } else {
                            w.search_query@
                        })
                        &&& w2.filtered.items@ == spec_filter_indices(
                            w.components@,
                            w2.search_query@,
                        )
                        &&& w2.filtered.cursor == PaginatedList::<usize>::spec_reset_cursor(
                            w2.filtered.items@.len(),
                        )
                        &&& w2.filtered.loading == w.filtered.loading
                        &&& w2.filtered.last_error == w.filtered.last_error
                    },
                    _ => false,
                }
            },
            _ => post == (App { modal: Modal::Wizard(w), ..pre }) && reqs == Seq::<
                DispatchRequest,
            >::empty(),
        },
        RunComponentStep::FillVariables => match key {
            Key::Esc => post == (App {
                modal: Modal::Wizard(RunComponentState { step: RunComponentStep::Search, ..w }),
                ..pre
            }) && reqs == Seq::<DispatchRequest>::empty(),
            Key::Enter => {
                &&& reqs == Seq::<DispatchRequest>::empty()
                &&& post == (App { modal: post.modal, ..pre })
                &&& match post.modal {
                    Modal::Wizard(w2) => {
                        &&& saved_vars(w, w.variable_index as int, w2.variables@)
                        &&& if w.variable_index + 1 < w.variables@.len() {
                            &&& w2 == (RunComponentState {
                                variables: w2.variables,
                                variable_index: (w.variable_index + 1) as usize,
                                variable_input: w2.variable_input,
                                ..w
                            })
                            &&& w2.variable_input@ == w.variables@[w.variable_index + 1].value@
                        } else {
                            w2 == (RunComponentState {
                                variables: w2.variables,
                                step: RunComponentStep::Review,
                                ..w
                            })
                        }
                    },
                    _ => false,
                }
            },
            Key::Up => if w.variable_index > 0 {
                &&& reqs == Seq::<DispatchRequest>::empty()
                &&& post == (App { modal: post.modal, ..pre })
                &&& match post.modal {
                    Modal::Wizard(w2) => {
                        &&& saved_vars(w, w.variable_index as int, w2.variables@)
                        &&& w2 == (RunComponentState {
                            variables: w2.variables,
                            variable_index: (w.variable_index - 1) as usize,
                            variable_input: w2.variable_input,
                            ..w
                        })
                        &&& w2.variable_input@ == w.variables@[w.variable_index - 1].value@
                    },
                    _ => false,
                }
            } else {
                post == (App { modal: Modal::Wizard(w), ..pre }) && reqs == Seq::<
                    DispatchRequest,
                >::empty()
            },
            Key::Char(c) => {
                &&& reqs == Seq::<DispatchRequest>::empty()
                &&& post == (App { modal: post.modal, ..pre })
                &&& match post.modal {
                    Modal::Wizard(w2) => w2 == (RunComponentState {
                        variable_input: w2.variable_input,
                        ..w
                    }) && w2.variable_input@ == w.variable_input@.push(c),
                    _ => false,
                }
            },
            Key::Backspace => {
                &&& reqs == Seq::<DispatchRequest>::empty()
                &&& post == (App { modal: post.modal, ..pre })
                &&& match post.modal {
                    Modal::Wizard(w2) => w2 == (RunComponentState {
                        variable_input: w2.variable_input,
                        ..w
                    }) && w2.variable_input@ == (if w.variable_input@.len() > 0 {
                        w.variable_input@.drop_last()
                    } else {
                        w.variable_input@
                    }),
                    _ => false,
                }
            },
            _ => post == (App { modal: Modal::Wizard(w), ..pre }) && reqs == Seq::<
                DispatchRequest,
            >::empty(),
        },
        RunComponentStep::Review => match key {
            Key::Esc => if w.variables@.len() == 0 {
                post == (App {
                    modal: Modal::Wizard(RunComponentState { step: RunComponentStep::Search, ..w }),
                    ..pre
                }) && reqs == Seq::<DispatchRequest>::empty()
            } else {
                &&& reqs == Seq::<DispatchRequest>::empty()
                &&& post == (App { modal: post.modal, ..pre })
                &&& match post.modal {
                    Modal::Wizard(w2) => {
                        &&& w2 == (RunComponentState {
                            step: RunComponentStep::FillVariables,
                            variable_index: (w.variables@.len() - 1) as usize,
                            variable_input: w2.variable_input,
                            ..w
                        })
                        &&& w2.variable_input@ == w.variables@[w.variables@.len() - 1].value@
                    },
                    _ => false,
                }
            },
            Key::Enter => run_component_job_post(pre, w, post, reqs),
            _ => post == (App { modal: Modal::Wizard(w), ..pre }) && reqs == Seq::<
                DispatchRequest,
            >::empty(),
        },
        RunComponentStep::Result => match key {
            Key::Enter | Key::Esc => post == (App { modal: Modal::Idle, ..pre }) && reqs == Seq::<
                DispatchRequest,
            >::empty(),
            _ => post == (App { modal: Modal::Wizard(w), ..pre }) && reqs == Seq::<
                DispatchRequest,
            >::empty(),
        },
    }
}

/// One step down the wizard's filtered rows.
pub open spec fn wizard_nav_next(pre: App, w: RunComponentState, post: App) -> bool {
    post == (App {
        modal: Modal::Wizard(
            RunComponentState {
                filtered: (PaginatedList { cursor: spec_wizard_next(w.filtered), ..w.filtered }),
                ..w
            },
        ),
        ..pre
    })
}

/// One step up the wizard's filtered rows.
pub open spec fn wizard_nav_prev(pre: App, w: RunComponentState, post: App) -> bool {
    post == (App {
        modal: Modal::Wizard(
            RunComponentState {
                filtered: (PaginatedList { cursor: spec_wizard_prev(w.filtered), ..w.filtered }),
                ..w
            },
        ),
        ..pre
    })
}

/// Picking the component under the cursor: its inputs are seeded from its
/// variables; with none to fill, the wizard goes straight to review.
pub open spec fn wizard_pick(pre: App, w: RunComponentState, post: App) -> bool {
    match w.filtered.cursor {
        Some(i) => {
            let ci = w.filtered.items@[i as int];
            let comp = w.components@[ci as int];
            &&& post == (App { modal: post.modal, ..pre })
            &&& match post.modal {
                Modal::Wizard(w2) => {
                    &&& w2 == (RunComponentState {
                        selected: Some(ci),
                        variables: w2.variables,
                        variable_index: w2.variable_index,
                        variable_input: w2.variable_input,
                        step: w2.step,
                        ..w
                    })
                    &&& vars_prepared(comp.variables, w2.variables@)
                    &&& if w2.variables@.len() == 0 {
                        &&& w2.step == RunComponentStep::Review
                        &&& w2.variable_index == w.variable_index
                        &&& w2.variable_input == w.variable_input
                    } else {
                        &&& w2.step == RunComponentStep::FillVariables
                        &&& w2.variable_index == 0
                        &&& w2.variable_input@ == w2.variables@[0].value@
                    }
                },
                _ => false,
            }
        },
        None => post == (App { modal: Modal::Wizard(w), ..pre }),
    }
}

impl App {
    /// Routes one key to the wizard's search step.
    #[verifier::rlimit(100)]
    fn handle_wizard_search(&mut self, w: RunComponentState, key: Key) -> (reqs: Vec<DispatchRequest>)
        requires
            old(self).wf(),
            old(self).modal is Idle,
            w.step == RunComponentStep::Search,
            w.filtered.cursor_ok(),
            forall|i: int| 0 <= i < w.filtered.items@.len() ==> w.filtered.items@[i]
                < w.components@.len(),
            match w.selected {
                Some(s) => s < w.components@.len(),
                None => true,
            },
        ensures
            final(self).wf(),
            wizard_post(
                App { modal: Modal::Wizard(w), ..*old(self) },
                w,
                key,
                *final(self),
                reqs@,
            ),
    {
        let ghost pre = App { modal: Modal::Wizard(w), ..*old(self) };
        let ghost w0 = w;
        let mut w = w;
        let nav_next = match key {
            Key::Down => true,
            Key::Char(c) => c == 'j',
            _ => false,
        };
        let nav_prev = match key {
            Key::Up => true,
            Key::Char(c) => c == 'k',
            _ => false,
        };
        if nav_next {
            let len = w.filtered.items.len();
            w.filtered.cursor = match w.filtered.cursor {
                Some(i) => {
                    proof {
                        assert(i < w.filtered.items@.len());
                    }
                    Some(
                        if i >= len - 1 {
                            0
                        } else {
                            i + 1
                        },
                    )
                },
                None => None,
            };
            self.modal = Modal::Wizard(w);
            return Vec::new();
        }
        if nav_prev {
            let len = w.filtered.items.len();
            w.filtered.cursor = match w.filtered.cursor {
                Some(i) => {
                    proof {
                        assert(i < w.filtered.items@.len());
                    }
                    Some(
                        if i == 0 {
                            len - 1
                        } else {
                            i - 1
                        },
                    )
                },
                None => None,
            };
            self.modal = Modal::Wizard(w);
            return Vec::new();
        }
        match key {
            Key::Esc => {
                self.modal = Modal::Idle;
                Vec::new()
            },
            Key::Enter => {
                match w.filtered.selected() {
                    Some(i) => {
                        let ci = w.filtered.items[i];
                        let vars = prepare_quick_vars(&w.components[ci].variables);
                        w.selected = Some(ci);
                        if vars.len() == 0 {
                            w.variables = vars;
                            w.step = RunComponentStep::Review;
                        } else {
                            w.variable_input = vars[0].value.clone();
                            w.variable_index = 0;
                            w.variables = vars;
                            w.step = RunComponentStep::FillVariables;
                        }
                        self.modal = Modal::Wizard(w);
                        proof {
                            assert(wizard_pick(pre, w0, *self));
                        }
                        Vec::new()
                    },
                    None => {
                        self.modal = Modal::Wizard(w);
                        Vec::new()
                    },
                }
            },
            Key::Char(c) => {
                push_char(&mut w.search_query, c);
                filter_components(&mut w);
                self.modal = Modal::Wizard(w);
                Vec::new()
            },
            Key::Backspace => {
                pop_char(&mut w.search_query);
                filter_components(&mut w);
                self.modal = Modal::Wizard(w);
                Vec::new()
            },
            _ => {
                self.modal = Modal::Wizard(w);
                Vec::new()
            },
        }
    }

    /// Routes one key to the wizard's per-variable input step.
    #[verifier::rlimit(100)]
    fn handle_wizard_fill(&mut self, w: RunComponentState, key: Key) -> (reqs: Vec<DispatchRequest>)
        requires
            old(self).wf(),
            old(self).modal is Idle,
            w.step == RunComponentStep::FillVariables,
            w.filtered.cursor_ok(),
            forall|i: int| 0 <= i < w.filtered.items@.len() ==> w.filtered.items@[i]
                < w.components@.len(),
            match w.selected {
                Some(s) => s < w.components@.len(),
                None => true,
            },
            w.variable_index < w.variables@.len(),
        ensures
            final(self).wf(),
            wizard_post(
                App { modal: Modal::Wizard(w), ..*old(self) },
                w,
                key,
                *final(self),
                reqs@,
            ),
    {
        let ghost pre = App { modal: Modal::Wizard(w), ..*old(self) };
        let ghost w0 = w;
        let mut w = w;
        match key {
            Key::Esc => {
                w.step = RunComponentStep::Search;
                self.modal = Modal::Wizard(w);
                Vec::new()
            },
            Key::Enter => {
                let idx = w.variable_index;
                let name = w.variables[idx].name.clone();
                w.variables.set(idx, QuickJobVariable { name, value: w.variable_input.clone() });
                if idx < w.variables.len() - 1 {
                    w.variable_index = idx + 1;
                    w.variable_input = w.variables[idx + 1].value.clone();
                } else {
                    w.step = RunComponentStep::Review;
                }
                self.modal = Modal::Wizard(w);
                Vec::new()
            },
            Key::Up => {
                let idx = w.variable_index;
                if idx > 0 {
                    let name = w.variables[idx].name.clone();
                    w.variables.set(
                        idx,
                        QuickJobVariable { name, value: w.variable_input.clone() },
                    );
                    w.variable_index = idx - 1;
                    w.variable_input = w.variables[idx - 1].value.clone();
                }
                self.modal = Modal::Wizard(w);
                Vec::new()
            },
            Key::Char(c) => {
                push_char(&mut w.variable_input, c);
                self.modal = Modal::Wizard(w);
                Vec::new()
            },
            Key::Backspace => {
                pop_char(&mut w.variable_input);
                self.modal = Modal::Wizard(w);
                Vec::new()
            },
            _ => {
                self.modal = Modal::Wizard(w);
                Vec::new()
            },
        }
    }

    /// Routes one key to the wizard's review and terminal steps.
    #[verifier::rlimit(100)]
    fn handle_wizard_review(&mut self, w: RunComponentState, key: Key) -> (reqs: Vec<DispatchRequest>)
        requires
            old(self).wf(),
            old(self).modal is Idle,
            w.step == RunComponentStep::Review || w.step == RunComponentStep::Result,
            w.filtered.cursor_ok(),
            forall|i: int| 0 <= i < w.filtered.items@.len() ==> w.filtered.items@[i]
                < w.components@.len(),
            match w.selected {
                Some(s) => s < w.components@.len(),
                None => true,
            },
        ensures
            final(self).wf(),
            wizard_post(
                App { modal: Modal::Wizard(w), ..*old(self) },
                w,
                key,
                *final(self),
                reqs@,
            ),
    {
        let ghost pre = App { modal: Modal::Wizard(w), ..*old(self) };
        let mut w = w;
        match w.step {
            RunComponentStep::Result => {
                match key {
                    Key::Enter | Key::Esc => {
                        self.modal = Modal::Idle;
                        Vec::new()
                    },
                    _ => {
                        self.modal = Modal::Wizard(w);
                        Vec::new()
                    },
                }
            },
            _ => {
                match key {
                    Key::Esc => {
                        if w.variables.len() == 0 {
                            w.step = RunComponentStep::Search;
                        } else {
                            w.step = RunComponentStep::FillVariables;
                            let last = w.variables.len() - 1;
                            w.variable_index = last;
                            w.variable_input = w.variables[last].value.clone();
                        }
                        self.modal = Modal::Wizard(w);
                        Vec::new()
                    },
                    Key::Enter => {
                        let reqs = self.run_component_job(w);
                        reqs
                    },
                    _ => {
                        self.modal = Modal::Wizard(w);
                        Vec::new()
                    },
                }
            },
        }
    }

    /// Routes one key to the run-component wizard, by its step.
    pub fn handle_run_component_input(&mut self, w: RunComponentState, key: Key) -> (reqs: Vec<
        DispatchRequest,
    >)
        requires
            old(self).wf(),
            old(self).modal is Idle,
            w.filtered.cursor_ok(),
            forall|i: int| 0 <= i < w.filtered.items@.len() ==> w.filtered.items@[i]
                < w.components@.len(),
            match w.selected {
                Some(s) => s < w.components@.len(),
                None => true,
            },
            w.step == RunComponentStep::FillVariables ==> w.variable_index < w.variables@.len(),
        ensures
            final(self).wf(),
            wizard_post(
                App { modal: Modal::Wizard(w), ..*old(self) },
                w,
                key,
                *final(self),
                reqs@,
            ),
    {
        match w.step {
            RunComponentStep::Search => self.handle_wizard_search(w, key),
            RunComponentStep::FillVariables => self.handle_wizard_fill(w, key),
            RunComponentStep::Review => self.handle_wizard_review(w, key),
            RunComponentStep::Result => self.handle_wizard_review(w, key),
        }
    }
}

/// What opening the variable edit does: with a site and one of its
/// variables selected, the text input opens seeded with that variable's
/// name and value and targeting it by identifier; otherwise nothing
/// changes.
pub open spec fn open_edit_variable_post(pre: App, post: App) -> bool {
    &&& post == (App { modal: post.modal, ..pre })
    &&& ({
        let editable = {
            &&& pre.sites.cursor is Some
            &&& pre.variables_cursor is Some
            &&& match pre.sites.items@[pre.sites.cursor->0 as int].variables {
                Some(vs) => pre.variables_cursor->0 < vs@.len(),
                None => false,
            }
        };
        if editable {
            let vs = pre.sites.items@[pre.sites.cursor->0 as int].variables->0;
            let v = vs@[pre.variables_cursor->0 as int];
            match post.modal {
                Modal::TextInput(st) => {
                    &&& st.name_buffer@ == v.name@
                    &&& st.value_buffer@ == v.value@
                    &&& st.active_field == InputField::Value
                    &&& !st.is_creating
                    &&& st.editing_variable_id == Some(v.id)
                    &&& st.editing_setting is None
                    &&& st.editing_udf_index is None
                },
                _ => false,
            }
        } else {
            post.modal == pre.modal
        }
    })
}

/// What opening the settings edit does: a text row opens the text input
/// seeded with its current value and targeting its field, with nothing
/// else changed; a toggle row changes nothing here.
pub open spec fn open_edit_setting_post(pre: App, post: App) -> bool {
    &&& post == (App { modal: post.modal, ..pre })
    &&& ({
        let row = match pre.settings_cursor {
            Some(i) => i as int,
            None => 0,
        };
        if row <= 2 {
            match post.modal {
                Modal::TextInput(st) => {
                    &&& st.name_buffer@ == (if row == 0 {
                        pre.site_edit_state.name@
                    } else if row == 1 {
                        pre.site_edit_state.description@
                    } else {
                        pre.site_edit_state.notes@
                    })
                    &&& st.value_buffer@ == Seq::<char>::empty()
                    &&& st.active_field == (if row == 0 {
                        InputField::SiteName
                    } else if row == 1 {
                        InputField::SiteDescription
                    } else {
                        InputField::SiteNotes
                    })
                    &&& !st.is_creating
                    &&& st.editing_variable_id is None
                    &&& st.editing_setting == Some(
                        if row == 0 {
                            SiteEditField::Name
                        } else if row == 1 {
                            SiteEditField::Description
                        } else {
                            SiteEditField::Notes
                        },
                    )
                    &&& st.editing_udf_index is None
                },
                _ => false,
            }
        } else {
            post.modal == pre.modal
        }
    })
}

/// What opening the create-variable input does: the text input opens with
/// empty buffers, creating, the name field active; nothing else changes.
pub open spec fn open_create_variable_post(pre: App, post: App) -> bool {
    &&& post == (App { modal: post.modal, ..pre })
    &&& match post.modal {
        Modal::TextInput(st) => {
            &&& st.name_buffer@ == Seq::<char>::empty()
            &&& st.value_buffer@ == Seq::<char>::empty()
            &&& st.active_field == InputField::Name
            &&& st.is_creating
            &&& st.editing_variable_id is None
            &&& st.editing_setting is None
            &&& st.editing_udf_index is None
        },
        _ => false,
    }
}

/// What the settings action does: a toggle row flips its value at once,
/// keeps the pre-toggle settings for rollback, and issues the write; a
/// text row opens its edit input and issues nothing.
pub open spec fn toggle_setting_post(pre: App, post: App, reqs: Seq<DispatchRequest>) -> bool {
    let row = match pre.settings_cursor {
        Some(i) => i as int,
        None => 0,
    };
    if row == 3 || row == 4 {
        &&& post.site_edit_state.on_demand == (if row == 3 {
            !pre.site_edit_state.on_demand
        } else {
            pre.site_edit_state.on_demand
        })
        &&& post.site_edit_state.splashtop_auto_install == (if row == 4 {
            !pre.site_edit_state.splashtop_auto_install
        } else {
            pre.site_edit_state.splashtop_auto_install
        })
        &&& post.site_edit_state == (SiteEditState {
            on_demand: post.site_edit_state.on_demand,
            splashtop_auto_install: post.site_edit_state.splashtop_auto_install,
            ..pre.site_edit_state
        })
        &&& exists|mid: App|
            {
                &&& #[trigger] submit_site_update_post(mid, pre.site_edit_state, post, reqs)
                &&& mid == (App { site_edit_state: post.site_edit_state, ..pre })
            }
    } else {
        reqs == Seq::<DispatchRequest>::empty() && open_edit_setting_post(pre, post)
    }
}

impl App {
    /// Opens the create-variable text input with empty buffers.
    pub fn open_create_variable_modal(&mut self)
        requires
            old(self).wf(),
        ensures
            final(self).wf(),
            open_create_variable_post(*old(self), *final(self)),
    {
        self.modal = Modal::TextInput(
            InputState {
                name_buffer: String::new(),
                value_buffer: String::new(),
                active_field: InputField::Name,
                is_creating: true,
                editing_variable_id: None,
                editing_setting: None,
                editing_udf_index: None,
            },
        );
    }

    /// Opens the edit text input for the selected variable of the
    /// selected site; with nothing selected, nothing happens.
    pub fn open_edit_variable_modal(&mut self)
        requires
            old(self).wf(),
        ensures
            final(self).wf(),
            open_edit_variable_post(*old(self), *final(self)),
    {
        if let Some(si) = self.sites.selected() {
            if let Some(vi) = self.variables_cursor {
                match &self.sites.items[si].variables {
                    Some(vs) => {
                        if vi < vs.len() {
                            self.modal = Modal::TextInput(
                                InputState {
                                    name_buffer: vs[vi].name.clone(),
                                    value_buffer: vs[vi].value.clone(),
                                    active_field: InputField::Value,
                                    is_creating: false,
                                    editing_variable_id: Some(vs[vi].id),
                                    editing_setting: None,
                                    editing_udf_index: None,
                                },
                            );
                        }
                    },
                    None => (),
                }
            }
        }
    }

    /// Opens the edit text input for the selected settings row: the three
    /// text rows open an input seeded with the current value; the two
    /// toggle rows are edited by the toggle action instead.
    pub fn open_edit_setting_modal(&mut self)
        requires
            old(self).wf(),
        ensures
            final(self).wf(),
            open_edit_setting_post(*old(self), *final(self)),
    {
        let row = match self.settings_cursor {
            Some(i) => i,
            None => 0,
        };
        if row <= 2 {
            let (field, value, active) = if row == 0 {
                (SiteEditField::Name, self.site_edit_state.name.clone(), InputField::SiteName)
            } else if row == 1 {
                (
                    SiteEditField::Description,
                    self.site_edit_state.description.clone(),
                    InputField::SiteDescription,
                )
            } else {
                (SiteEditField::Notes, self.site_edit_state.notes.clone(), InputField::SiteNotes)
            };
            self.modal = Modal::TextInput(
                InputState {
                    name_buffer: value,
                    value_buffer: String::new(),
                    active_field: active,
                    is_creating: false,
                    editing_variable_id: None,
                    editing_setting: Some(field),
                    editing_udf_index: None,
                },
            );
        }
    }

    /// Acts on the selected settings row: a toggle row flips its value at
    /// once and issues the write (the pre-toggle settings are kept for
    /// rollback); a text row opens its edit input.
    pub fn toggle_setting(&mut self) -> (reqs: Vec<DispatchRequest>)
        requires
            old(self).wf(),
        ensures
            final(self).wf(),
            toggle_setting_post(*old(self), *final(self), reqs@),
    {
        let row = match self.settings_cursor {
            Some(i) => i,
            None => 0,
        };
        if row == 3 {
            let snapshot = self.site_edit_state.clone();
            self.site_edit_state.on_demand = !self.site_edit_state.on_demand;
            let reqs = self.submit_site_update(snapshot);
            reqs
        } else if row == 4 {
            let snapshot = self.site_edit_state.clone();
            self.site_edit_state.splashtop_auto_install =
                !self.site_edit_state.splashtop_auto_install;
            let reqs = self.submit_site_update(snapshot);
            reqs
        } else {
            self.open_edit_setting_modal();
            Vec::new()
        }
    }
}

/// What a timer tick does: while the search picker is open, the debounce
/// rule runs against the time of the last keystroke; when it fires, the
/// buffer is recorded as dispatched at once (so later ticks stay quiet)
/// and the search is issued.
pub open spec fn tick_post(pre: App, now_ms: u64, post: App, reqs: Seq<DispatchRequest>) -> bool {
    match pre.modal {
        Modal::ListPicker(ds) => match ds.last_input_at {
            Some(t) => if now_ms >= t && spec_should_dispatch(
                ds.query@,
                ds.last_searched@,
                (now_ms - t) as u64,
            ) {
                &&& post == (App { modal: post.modal, ords: post.ords, ..pre })
                &&& match post.modal {
                    Modal::ListPicker(ds2) => {
                        &&& ds2.query == ds.query
                        &&& ds2.last_input_at == ds.last_input_at
                        &&& ds2.last_searched@ == ds.query@
                        &&& if pre.has_rmm {
                            &&& ds2.results.items@.len() == 0
                            &&& ds2.results.cursor is None
                            &&& ds2.results.loading
                            &&& ds2.results.last_error is None
                        } else {
                            ds2.results == ds.results
                        }
                    },
                    _ => false,
                }
                &&& if pre.has_rmm {
                    &&& post.ords == (Ordinals { search: spec_bump(pre.ords.search), ..pre.ords })
                    &&& reqs.len() == 1
                    &&& reqs[0] matches DispatchRequest::SearchDevices { query, ordinal } && query@
                        == ds.query@ && ordinal == spec_bump(pre.ords.search)
                } else {
                    post.ords == pre.ords && reqs == Seq::<DispatchRequest>::empty()
                }
            } else {
                post == pre && reqs == Seq::<DispatchRequest>::empty()
            },
            None => post == pre && reqs == Seq::<DispatchRequest>::empty(),
        },
        _ => post == pre && reqs == Seq::<DispatchRequest>::empty(),
    }
}

impl App {
    /// Applies one timer tick.
    #[verifier::rlimit(100)]
    pub fn handle_tick(&mut self, now_ms: u64) -> (reqs: Vec<DispatchRequest>)
        requires
            old(self).wf(),
        ensures
            final(self).wf(),
            tick_post(*old(self), now_ms, *final(self), reqs@),
    {
        let mut reqs: Vec<DispatchRequest> = Vec::new();
        let mut modal = Modal::Idle;
        core::mem::swap(&mut modal, &mut self.modal);
        match modal {
            Modal::ListPicker(mut ds) => {
                let fire = match ds.last_input_at {
                    Some(t) => now_ms >= t && should_dispatch(
                        &ds.query,
                        &ds.last_searched,
                        now_ms - t,
                    ),
                    None => false,
                };
                if fire {
                    ds.last_searched = ds.query.clone();
                    if self.has_rmm {
                        ds.results.begin_load();
                        ds.results.clear_items();
                        let o = bump(&mut self.ords.search);
                        reqs.push(
                            DispatchRequest::SearchDevices { query: ds.query.clone(), ordinal: o },
                        );
                        proof {
                            assert(reqs@ =~= seq![reqs@[0]]);
                        }
                    }
                }
                self.modal = Modal::ListPicker(ds);
            },
            other => {
                self.modal = other;
            },
        }
        reqs
    }

    /// Opens the device-search picker with a cleared query and result
    /// list; keys route to it until it closes.
    pub fn open_device_search(&mut self)
        requires
            old(self).wf(),
        ensures
            final(self).wf(),
            *final(self) == (App { modal: final(self).modal, ..*old(self) }),
            match final(self).modal {
                Modal::ListPicker(ds) => {
                    &&& ds.query@ == Seq::<char>::empty()
                    &&& ds.results.items@.len() == 0
                    &&& ds.results.cursor is None
                    &&& !ds.results.loading
                    &&& ds.results.last_error is None
                    &&& ds.last_input_at is None
                    &&& ds.last_searched@ == Seq::<char>::empty()
                },
                _ => false,
            },
    {
        self.modal = Modal::ListPicker(
            DeviceSearch {
                query: String::new(),
                results: PaginatedList::new(),
                last_input_at: None,
                last_searched: String::new(),
            },
        );
    }
}

/// The folded-name order on catalogue components: code-point order of the
/// lowercased names.
pub open spec fn folded_name_le(a: Component, b: Component) -> bool {
    crate::strings::seq_le(lower_of(a.name@), lower_of(b.name@))
}

/// The catalogue is ordered by folded name.
pub open spec fn sorted_by_folded_name(s: Seq<Component>) -> bool {
    forall|i: int, j: int| 0 <= i < j < s.len() ==> folded_name_le(s[i], s[j])
}

/// Compares two components by folded name.
fn folded_le(a: &Component, b: &Component) -> (r: bool)
    ensures
        r == folded_name_le(*a, *b),
{
    let fa = crate::strings::lowercase(a.name.as_str());
    let fb = crate::strings::lowercase(b.name.as_str());
    crate::strings::str_le(fa.as_str(), fb.as_str())
}

/// Finds a component no other precedes in folded-name order.
fn min_folded_index(input: &Vec<Component>) -> (m: usize)
    requires
        input@.len() > 0,
    ensures
        m < input@.len(),
        forall|j: int| 0 <= j < input@.len() ==> folded_name_le(input@[m as int], input@[j]),
{
    let n = input.len();
    let mut m: usize = 0;
    let mut j: usize = 1;
    proof {
        crate::strings::lemma_seq_le_total(lower_of(input@[0].name@), lower_of(input@[0].name@));
    }
    while j < n
        invariant
            n == input@.len(),
            m < n,
            1 <= j <= n,
            forall|k: int| 0 <= k < j ==> folded_name_le(input@[m as int], input@[k]),
        decreases n - j,
    {
        if !folded_le(&input[m], &input[j]) {
            proof {
                crate::strings::lemma_seq_le_total(
                    lower_of(input@[m as int].name@),
                    lower_of(input@[j as int].name@),
                );
                assert forall|k: int| 0 <= k < j implies folded_name_le(
                    input@[j as int],
                    input@[k],
                ) by {
                    crate::strings::lemma_seq_le_trans(
                        lower_of(input@[j as int].name@),
                        lower_of(input@[m as int].name@),
                        lower_of(input@[k].name@),
                    );
                }
                crate::strings::lemma_seq_le_total(
                    lower_of(input@[j as int].name@),
                    lower_of(input@[j as int].name@),
                );
            }
            m = j;
        }
        j = j + 1;
    }
    m
}

/// Orders the catalogue ascending by the code-point order of the
/// lowercased names: the result is a permutation of the input.
pub fn sort_components(input: Vec<Component>) -> (r: Vec<Component>)
    ensures
        r@.to_multiset() == input@.to_multiset(),
        r@.len() == input@.len(),
        sorted_by_folded_name(r@),
{
    broadcast use vstd::seq_lib::group_to_multiset_ensures;
    let ghost orig = input@;
    let mut input = input;
    let mut out: Vec<Component> = Vec::new();
    proof {
        assert(out@.to_multiset().add(input@.to_multiset()) =~= orig.to_multiset());
    }
    while input.len() > 0
        invariant
            out@.to_multiset().add(input@.to_multiset()) == orig.to_multiset(),
            out@.len() + input@.len() == orig.len(),
            sorted_by_folded_name(out@),
            forall|a: int, b: int|
                0 <= a < out@.len() && 0 <= b < input@.len() ==> folded_name_le(
                    out@[a],
                    input@[b],
                ),
        decreases input@.len(),
    {
        broadcast use vstd::seq_lib::group_to_multiset_ensures;
        let m = min_folded_index(&input);
        let ghost pre_in = input@;
        let ghost pre_out = out@;
        let e = input.remove(m);
        out.push(e);
        proof {
            assert forall|b: int| 0 <= b < input@.len() implies input@[b] == pre_in[if b < m {
                b
            } else {
                b + 1
            }] by {
                if b < m {
                    assert(input@[b] == pre_in.subrange(0, m as int)[b]);
                } else {
                    assert(input@[b] == pre_in.subrange(m + 1, pre_in.len() as int)[b - m]);
                }
            }
            assert(out@.to_multiset() =~= pre_out.to_multiset().insert(e));
            assert(input@.to_multiset() =~= pre_in.to_multiset().remove(e));
            assert(pre_in.to_multiset().count(e) > 0) by {
                assert(pre_in.contains(e));
            }
            assert forall|x: Component|
                out@.to_multiset().add(input@.to_multiset()).count(x) == pre_out.to_multiset().add(
                    pre_in.to_multiset(),
                ).count(x) by {}
            assert(out@.to_multiset().add(input@.to_multiset()) =~= pre_out.to_multiset().add(
                pre_in.to_multiset(),
            ));
            assert forall|a: int, b: int|
                0 <= a < b < out@.len() implies folded_name_le(out@[a], out@[b]) by {
                if b < out@.len() - 1 {
                    assert(folded_name_le(pre_out[a], pre_out[b]));
                } else {
                    assert(out@[b] == pre_in[m as int]);
                    assert(folded_name_le(pre_out[a], pre_in[m as int]));
                }
            }
            assert forall|a: int, b: int|
                0 <= a < out@.len() && 0 <= b < input@.len() implies folded_name_le(
                out@[a],
                input@[b],
            ) by {
                let pb: int = if b < m {
                    b
                } else {
                    b + 1
                };
                if a < out@.len() - 1 {
                    assert(folded_name_le(pre_out[a], pre_in[pb]));
                } else {
                    assert(out@[a] == pre_in[m as int]);
                    assert(folded_name_le(pre_in[m as int], pre_in[pb]));
                }
            }
        }
    }
    proof {
        broadcast use vstd::seq_lib::group_to_multiset_ensures;
        assert(input@.to_multiset() =~= Multiset::<Component>::empty());
        assert(out@.to_multiset() =~= orig.to_multiset());
    }
    out
}

} // verus!