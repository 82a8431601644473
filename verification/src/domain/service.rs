//! One service of a listing.
use vstd::prelude::*;
use vstd::string::*;
use crate::domain::service_property::{ServiceProperty, ServicePropertyView};
use crate::domain::service_state::{ServiceState, ServiceStateView};

verus! {

/// The extended properties of a service, which are fetched only on demand:
/// not asked for yet, fetched, or asked for in vain.
#[derive(Debug, PartialEq, Eq)]
pub enum ExtendedProperties {
    NotFetched,
    Fetched(ServiceProperty),
    FetchFailed(String),
}

/// [`ExtendedProperties`] as a mathematical value.
pub enum ExtendedPropertiesView {
    NotFetched,
    Fetched(ServicePropertyView),
    FetchFailed(Seq<char>),
}

impl View for ExtendedProperties {
    type V = ExtendedPropertiesView;

    open spec fn view(&self) -> ExtendedPropertiesView {
        match self {
            ExtendedProperties::NotFetched => ExtendedPropertiesView::NotFetched,
            ExtendedProperties::Fetched(property) => ExtendedPropertiesView::Fetched(property@),
            ExtendedProperties::FetchFailed(reason) => ExtendedPropertiesView::FetchFailed(
                reason@,
            ),
        }
    }
}

impl Clone for ExtendedProperties {
    fn clone(&self) -> (properties: Self)
        ensures
            properties@ == self@,
    {
        match self {
            ExtendedProperties::NotFetched => ExtendedProperties::NotFetched,
            ExtendedProperties::Fetched(property) => ExtendedProperties::Fetched(
                property.clone(),
            ),
            ExtendedProperties::FetchFailed(reason) => ExtendedProperties::FetchFailed(
                reason.clone(),
            ),
        }
    }
}

/// A service: its name, by which it is known within one listing, what it is
/// for, its state at the listing, and its extended properties.
#[derive(Debug, PartialEq, Eq)]
pub struct Service {
    name: String,
    description: String,
    state: ServiceState,
    properties: ExtendedProperties,
}

/// A [`Service`] as a mathematical value.
pub struct ServiceView {
    pub name: Seq<char>,
    pub description: Seq<char>,
    pub state: ServiceStateView,
    pub properties: ExtendedPropertiesView,
}

impl View for Service {
    type V = ServiceView;

    closed spec fn view(&self) -> ServiceView {
        ServiceView {
            name: self.name@,
            description: self.description@,
            state: self.state@,
            properties: self.properties@,
        }
    }
}

impl Service {
    /// A service as a listing gives it: its extended properties are not
    /// fetched yet.
    pub fn new(name: String, description: String, state: ServiceState) -> (service: Self)
        ensures
            service@ == (ServiceView {
                name: name@,
                description: description@,
                state: state@,
                properties: ExtendedPropertiesView::NotFetched,
            }),
    {
        Service { name, description, state, properties: ExtendedProperties::NotFetched }
    }

    /// The name of the service.
    pub fn name(&self) -> (text: &str)
        ensures
            text@ == self@.name,
    {
        self.name.as_str()
    }

    /// Tells whether the service has the name `name`.
    pub fn is_named(&self, name: &String) -> (same: bool)
        ensures
            same == (self@.name == name@),
    {
        self.name == *name
    }

    /// What the service is for.
    pub fn description(&self) -> (text: &str)
        ensures
            text@ == self@.description,
    {
        self.description.as_str()
    }

    /// The state of the service at the listing.
    pub fn state(&self) -> (state: &ServiceState)
        ensures
            state@ == self@.state,
    {
        &self.state
    }

    /// The extended properties, as far as they were fetched.
    pub fn properties(&self) -> (properties: &ExtendedProperties)
        ensures
            properties@ == self@.properties,
    {
        &self.properties
    }

    /// Records the extended properties that were fetched.
    pub fn update_properties(&mut self, properties: ServiceProperty)
        ensures
            final(self)@ == (ServiceView {
                properties: ExtendedPropertiesView::Fetched(properties@),
                ..old(self)@
            }),
    {
        self.properties = ExtendedProperties::Fetched(properties);
    }

    /// Records that the extended properties could not be fetched, and why.
    pub fn fail_properties(&mut self, reason: String)
        ensures
            final(self)@ == (ServiceView {
                properties: ExtendedPropertiesView::FetchFailed(reason@),
                ..old(self)@
            }),
    {
        self.properties = ExtendedProperties::FetchFailed(reason);
    }
}

impl Clone for Service {
    fn clone(&self) -> (service: Self)
        ensures
            service@ == self@,
    {
        Service {
            name: self.name.clone(),
            description: self.description.clone(),
            state: self.state.clone(),
            properties: self.properties.clone(),
        }
    }
}

/// The view of a service that may be absent.
pub open spec fn service_ref_view(service: Option<&Service>) -> Option<ServiceView> {
    match service {
        Some(service) => Some(service@),
        None => None,
    }
}

/// The views of the services in `services`, in order.
pub open spec fn service_views(services: Seq<Service>) -> Seq<ServiceView> {
    services.map_values(|service: Service| service@)
}

} // verus!
