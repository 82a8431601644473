//! The state of a unit at the time of a listing.
use vstd::prelude::*;
use vstd::string::*;

verus! {

/// The four states of a unit, taken together at one listing and never changed
/// one by one.
#[derive(Debug, PartialEq, Eq)]
pub struct ServiceState {
    load: String,
    active: String,
    sub: String,
    file: String,
}

/// A [`ServiceState`] as a mathematical value.
pub struct ServiceStateView {
    pub load_state: Seq<char>,
    pub active_state: Seq<char>,
    pub sub_state: Seq<char>,
    pub unit_file_state: Seq<char>,
}

impl View for ServiceState {
    type V = ServiceStateView;

    closed spec fn view(&self) -> ServiceStateView {
        ServiceStateView {
            load_state: self.load@,
            active_state: self.active@,
            sub_state: self.sub@,
            unit_file_state: self.file@,
        }
    }
}

impl ServiceState {
    /// The state made of the four given parts.
    pub fn new(load: String, active: String, sub: String, file: String) -> (state: Self)
        ensures
            state@ == (ServiceStateView {
                load_state: load@,
                active_state: active@,
                sub_state: sub@,
                unit_file_state: file@,
            }),
    {
        ServiceState { load, active, sub, file }
    }

    /// Whether the unit's definition was loaded.
    pub fn load(&self) -> (text: &str)
        ensures
            text@ == self@.load_state,
    {
        self.load.as_str()
    }

    /// Whether the unit runs.
    pub fn active(&self) -> (text: &str)
        ensures
            text@ == self@.active_state,
    {
        self.active.as_str()
    }

    /// The finer state within the active state.
    pub fn sub(&self) -> (text: &str)
        ensures
            text@ == self@.sub_state,
    {
        self.sub.as_str()
    }

    /// Whether the unit is enabled.
    pub fn file(&self) -> (text: &str)
        ensures
            text@ == self@.unit_file_state,
    {
        self.file.as_str()
    }
}

impl Clone for ServiceState {
    fn clone(&self) -> (state: Self)
        ensures
            state@ == self@,
    {
        ServiceState {
            load: self.load.clone(),
            active: self.active.clone(),
            sub: self.sub.clone(),
            file: self.file.clone(),
        }
    }
}

} // verus!
