//! What the adapter to systemd decides: which units of a listing are
//! services, how a unit becomes a [`Service`], and which output of the
//! journal reader is the log.
//!
//! The calls over the bus and the run of the journal reader are made by the
//! front end, which hands their results to the functions here.
use vstd::prelude::*;
use vstd::string::*;
use crate::domain::service::{service_views, ExtendedPropertiesView, Service, ServiceView};
use crate::domain::service_state::{ServiceState, ServiceStateView};
use crate::text::{ends_with, has_suffix};

verus! {

/// One unit as systemd lists it, as far as the dashboard reads it.
#[derive(Debug, PartialEq, Eq)]
pub struct SystemdUnit {
    pub name: String,
    pub description: String,
    pub load_state: String,
    pub active_state: String,
    pub sub_state: String,
    /// Whether the unit is enabled, where systemd could say; asked for
    /// service units only.
    pub unit_file_state: Option<String>,
}

/// A [`SystemdUnit`] as a mathematical value.
pub struct SystemdUnitView {
    pub name: Seq<char>,
    pub description: Seq<char>,
    pub load_state: Seq<char>,
    pub active_state: Seq<char>,
    pub sub_state: Seq<char>,
    pub unit_file_state: Option<Seq<char>>,
}

impl View for SystemdUnit {
    type V = SystemdUnitView;

    open spec fn view(&self) -> SystemdUnitView {
        SystemdUnitView {
            name: self.name@,
            description: self.description@,
            load_state: self.load_state@,
            active_state: self.active_state@,
            sub_state: self.sub_state@,
            unit_file_state: match self.unit_file_state {
                Some(state) => Some(state@),
                None => None,
            },
        }
    }
}

impl SystemdUnitView {
    /// The unit is a service: its name ends in `.service`.
    pub open spec fn is_service(self) -> bool {
        has_suffix(self.name, ".service"@)
    }

    /// The service that the unit stands for. Where systemd could not say
    /// whether the unit is enabled, that state is `unknown`.
    pub open spec fn service(self) -> ServiceView {
        ServiceView {
            name: self.name,
            description: self.description,
            state: ServiceStateView {
                load_state: self.load_state,
                active_state: self.active_state,
                sub_state: self.sub_state,
                unit_file_state: match self.unit_file_state {
                    Some(state) => state,
                    None => "unknown"@,
                },
            },
            properties: ExtendedPropertiesView::NotFetched,
        }
    }
}

/// The views of the units in `units`, in order.
pub open spec fn unit_views(units: Seq<SystemdUnit>) -> Seq<SystemdUnitView> {
    units.map_values(|unit: SystemdUnit| unit@)
}

/// The services among `units`, in the order of `units`.
pub open spec fn services_of(units: Seq<SystemdUnitView>) -> Seq<ServiceView> {
    units.filter(|unit: SystemdUnitView| unit.is_service()).map_values(
        |unit: SystemdUnitView| unit.service(),
    )
}

/// The adapter to systemd.
pub struct SystemdServiceAdapter;

impl SystemdServiceAdapter {
    /// Tells whether a unit of the name `name` is a service.
    pub fn is_service(name: &str) -> (service: bool)
        ensures
            service == has_suffix(name@, ".service"@),
    {
        ends_with(name, ".service")
    }

    /// The service that `unit` stands for.
    pub fn service_from_unit(unit: &SystemdUnit) -> (service: Service)
        ensures
            service@ == unit@.service(),
    {
        let unit_file_state = match &unit.unit_file_state {
            Some(state) => state.clone(),
            None => String::from_str("unknown"),
        };
        let state = ServiceState::new(
            unit.load_state.clone(),
            unit.active_state.clone(),
            unit.sub_state.clone(),
            unit_file_state,
        );
        Service::new(unit.name.clone(), unit.description.clone(), state)
    }

    /// The services among the units of a listing, in the order of the listing.
    pub fn services_from_units(units: &Vec<SystemdUnit>) -> (services: Vec<Service>)
        ensures
            service_views(services@) == services_of(unit_views(units@)),
    {
        let ghost all = unit_views(units@);
        let ghost keep = |unit: SystemdUnitView| unit.is_service();
        let ghost convert = |unit: SystemdUnitView| unit.service();
        let mut services: Vec<Service> = Vec::new();
        let mut at: usize = 0;
        proof {
            assert(all.take(0) =~= Seq::<SystemdUnitView>::empty());
            assert(all.take(0).filter(keep) =~= Seq::<SystemdUnitView>::empty()) by {
                reveal(Seq::filter);
            }
            assert(service_views(services@) =~= all.take(0).filter(
                keep,
            ).map_values(convert));
        }
        while at < units.len()
            invariant
                at <= units@.len(),
                all == unit_views(units@),
                keep == (|unit: SystemdUnitView| unit.is_service()),
                convert == (|unit: SystemdUnitView| unit.service()),
                service_views(services@) == all.take(at as int).filter(
                    keep,
                ).map_values(convert),
            decreases units@.len() - at,
        {
            let ghost before = services@;
            let unit = &units[at];
            proof {
                assert(all.take(at + 1) =~= all.take(at as int).push(all[at as int]));
                all.take(at as int).lemma_filter_push(all[at as int], keep);
            }
            if Self::is_service(unit.name.as_str()) {
                let service = Self::service_from_unit(unit);
                services.push(service);
                assert(service_views(services@)
                    =~= service_views(before).push(service@));
                assert(all.take(at as int).filter(keep).push(all[at as int]).map_values(convert)
                    =~= all.take(at as int).filter(keep).map_values(convert).push(
                    convert(all[at as int]),
                ));
            }
            at = at + 1;
        }
        proof {
            assert(all.take(units@.len() as int) =~= all);
        }
        services
    }

    /// The definition of a unit from a run of the command that prints it:
    /// what the command wrote to its output where it ended well, else a
    /// failure with what it wrote to its error output.
    pub fn unit_file_text(success: bool, stdout: String, stderr: String) -> (text: Result<
        String,
        String,
    >)
        ensures
            success ==> text == Ok::<String, String>(stdout),
            !success ==> text == Err::<String, String>(stderr),
    {
        if success {
            Ok(stdout)
        } else {
            Err(stderr)
        }
    }

    /// The log of a service from a run of the journal reader: what it wrote
    /// to its output where it ended well, else what it wrote to its error
    /// output.
    pub fn log_text(success: bool, stdout: String, stderr: String) -> (log: String)
        ensures
            log@ == if success {
                stdout@
            } else {
                stderr@
            },
    {
        if success {
            stdout
        } else {
            stderr
        }
    }
}

} // verus!
