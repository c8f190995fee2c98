//! The navigation and overlay state: which screen is active, which modal
//! (if any) sits over it, and the editing buffers each modal carries.
//!
//! At most one modal is active, by construction of the tagged union. Each
//! modal variant owns its transient state, so closing it restores the
//! underlying screen exactly.

use vstd::prelude::*;
use crate::datto::{Component, Device, QuickJobResponse, QuickJobVariable, Udf};
use crate::list::PaginatedList;

verus! {

/// The active top-level screen. Exactly one is active at a time.
#[derive(Debug, Clone, Copy, PartialEq, Eq, Structural)]
pub enum CurrentView {
    List,
    Detail,
    DeviceDetail,
    ActivityDetail,
}

/// The tab shown on the site detail screen.
#[derive(Debug, Clone, Copy, PartialEq, Eq, Structural)]
pub enum SiteDetailTab {
    Devices,
    Variables,
    Settings,
}

/// The tab shown on the device detail screen.
#[derive(Debug, Clone, Copy, PartialEq, Eq, Structural)]
pub enum DeviceDetailTab {
    OpenAlerts,
    Activities,
}

/// Which site setting a text edit targets.
#[derive(Debug, Clone, Copy, PartialEq, Eq, Structural)]
pub enum SiteEditField {
    Name,
    Description,
    Notes,
}

/// Which input buffer of the text modal is active.
#[derive(Debug, Clone, Copy, PartialEq, Eq, Structural)]
pub enum InputField {
    Name,
    Value,
    SiteName,
    SiteDescription,
    SiteNotes,
}

/// The steps of the run-component wizard, strictly forward on submit and
/// strictly backward on cancel.
#[derive(Debug, Clone, Copy, PartialEq, Eq, Structural)]
pub enum RunComponentStep {
    Search,
    FillVariables,
    Review,
    Result,
}

/// The editable copy of the selected site's settings.
#[derive(Debug)]
pub struct SiteEditState {
    pub name: String,
    pub description: String,
    pub notes: String,
    pub on_demand: bool,
    pub splashtop_auto_install: bool,
    pub active_field: SiteEditField,
    pub is_editing: bool,
}

impl Clone for SiteEditState {
    fn clone(&self) -> (r: Self)
        ensures
            r == *self,
    {
        SiteEditState {
            name: self.name.clone(),
            description: self.description.clone(),
            notes: self.notes.clone(),
            on_demand: self.on_demand,
            splashtop_auto_install: self.splashtop_auto_install,
            active_field: self.active_field,
            is_editing: self.is_editing,
        }
    }
}

impl Default for SiteEditState {
    /// Empty texts, both toggles off, the name field active.
    fn default() -> (r: Self)
        ensures
            r.name@ == Seq::<char>::empty(),
            r.description@ == Seq::<char>::empty(),
            r.notes@ == Seq::<char>::empty(),
            !r.on_demand,
            !r.splashtop_auto_install,
            r.active_field == SiteEditField::Name,
            !r.is_editing,
    {
        SiteEditState {
            name: String::new(),
            description: String::new(),
            notes: String::new(),
            on_demand: false,
            splashtop_auto_install: false,
            active_field: SiteEditField::Name,
            is_editing: false,
        }
    }
}

/// The text-input modal's buffers, and the context naming what a submit
/// writes: a site setting, a user-defined field of the selected device,
/// or a site variable (created or updated).
#[derive(Debug)]
pub struct InputState {
    pub name_buffer: String,
    pub value_buffer: String,
    pub active_field: InputField,
    pub is_creating: bool,
    pub editing_variable_id: Option<i32>,
    pub editing_setting: Option<SiteEditField>,
    pub editing_udf_index: Option<usize>,
}

impl Clone for InputState {
    fn clone(&self) -> (r: Self)
        ensures
            r == *self,
    {
        InputState {
            name_buffer: self.name_buffer.clone(),
            value_buffer: self.value_buffer.clone(),
            active_field: self.active_field,
            is_creating: self.is_creating,
            editing_variable_id: self.editing_variable_id,
            editing_setting: self.editing_setting,
            editing_udf_index: self.editing_udf_index,
        }
    }
}

impl Default for InputState {
    /// Empty buffers, creating a variable, the name field active.
    fn default() -> (r: Self)
        ensures
            r.name_buffer@ == Seq::<char>::empty(),
            r.value_buffer@ == Seq::<char>::empty(),
            r.active_field == InputField::Name,
            r.is_creating,
            r.editing_variable_id is None,
            r.editing_setting is None,
            r.editing_udf_index is None,
    {
        InputState {
            name_buffer: String::new(),
            value_buffer: String::new(),
            active_field: InputField::Name,
            is_creating: true,
            editing_variable_id: None,
            editing_setting: None,
            editing_udf_index: None,
        }
    }
}

/// A local mutation applied before its write completed, with the pre-edit
/// settings for rollback.
#[derive(Debug)]
pub struct OptimisticEdit {
    pub snapshot: SiteEditState,
    pub ordinal: u64,
}

/// A user-defined-field edit applied to the selected device before its
/// write completed, with the pre-edit fields for rollback.
#[derive(Debug)]
pub struct PendingUdfEdit {
    pub device_uid: String,
    pub snapshot: Option<Udf>,
    pub ordinal: u64,
}

/// The device-search list picker.
#[derive(Debug)]
pub struct DeviceSearch {
    pub query: String,
    pub results: PaginatedList<Device>,
    /// When the last keystroke landed, in milliseconds.
    pub last_input_at: Option<u64>,
    /// The query the last search dispatch carried.
    pub last_searched: String,
}

/// The run-component wizard. The filtered list holds indexes into
/// `components`, so filtering copies nothing.
#[derive(Debug)]
pub struct RunComponentState {
    pub step: RunComponentStep,
    pub components: Vec<Component>,
    pub filtered: PaginatedList<usize>,
    pub search_query: String,
    pub selected: Option<usize>,
    pub variables: Vec<QuickJobVariable>,
    pub variable_index: usize,
    pub variable_input: String,
    pub last_job_response: Option<QuickJobResponse>,
    pub error: Option<String>,
    pub loading: bool,
}

/// The job-output popup.
#[derive(Debug)]
pub struct OutputPopup {
    pub title: String,
    pub content: String,
    pub loading: bool,
}

/// The single active overlay, if any. While one is active, every key
/// routes to it exclusively; escape closes exactly this layer.
#[derive(Debug)]
pub enum Modal {
    /// No overlay: keys go to the active screen.
    Idle,
    /// A single- or two-field text input.
    TextInput(InputState),
    /// The device-search list picker.
    ListPicker(DeviceSearch),
    /// The run-component multi-step wizard.
    Wizard(RunComponentState),
    /// The selected device's user-defined fields, one selectable per row.
    UdfPicker { cursor: usize },
    /// A job-output text popup.
    Output(OutputPopup),
}

} // verus!
