//! What the dashboard asks of the service manager, and what comes back.
//!
//! The dashboard never talks to the service manager itself. It hands out a
//! [`Request`]; whoever drives it performs the call, which may block, and hands
//! back the [`Outcome`]. A failure carries a message for the user and no more.
use vstd::prelude::*;
use vstd::string::*;
use crate::domain::service::{service_views, Service, ServiceView};

verus! {

/// The operations that change a service.
#[derive(Clone, Copy, Debug, PartialEq, Eq, Structural)]
pub enum Operation {
    Start,
    Stop,
    Restart,
    Enable,
    Disable,
}

impl Operation {
    /// The word for the operation in messages.
    pub open spec fn word(self) -> Seq<char> {
        match self {
            Operation::Start => "start"@,
            Operation::Stop => "stop"@,
            Operation::Restart => "restart"@,
            Operation::Enable => "enable"@,
            Operation::Disable => "disable"@,
        }
    }

    /// The word for the operation in messages.
    pub fn as_str(&self) -> (text: &'static str)
        ensures
            text@ == self.word(),
    {
        match self {
            Operation::Start => "start",
            Operation::Stop => "stop",
            Operation::Restart => "restart",
            Operation::Enable => "enable",
            Operation::Disable => "disable",
        }
    }
}

/// The texts that can be fetched for one service.
#[derive(Clone, Copy, Debug, PartialEq, Eq, Structural)]
pub enum FetchKind {
    /// The definition of the unit.
    UnitFile,
    /// The tail of its log.
    Logs,
}

impl FetchKind {
    /// The word for the text in messages.
    pub open spec fn word(self) -> Seq<char> {
        match self {
            FetchKind::UnitFile => "unit file"@,
            FetchKind::Logs => "logs"@,
        }
    }

    /// The word for the text in messages.
    pub fn as_str(&self) -> (text: &'static str)
        ensures
            text@ == self.word(),
    {
        match self {
            FetchKind::UnitFile => "unit file",
            FetchKind::Logs => "logs",
        }
    }
}

/// One call to the service manager.
#[derive(Debug, PartialEq, Eq)]
pub enum Request {
    /// List all services.
    List,
    /// Perform `operation` on the service named `service`.
    Control { operation: Operation, service: String },
    /// Fetch a text of the service named `service`.
    Fetch { kind: FetchKind, service: String },
}

/// A [`Request`] as a mathematical value.
pub enum RequestView {
    List,
    Control { operation: Operation, service: Seq<char> },
    Fetch { kind: FetchKind, service: Seq<char> },
}

impl View for Request {
    type V = RequestView;

    open spec fn view(&self) -> RequestView {
        match self {
            Request::List => RequestView::List,
            Request::Control { operation, service } => RequestView::Control {
                operation: *operation,
                service: service@,
            },
            Request::Fetch { kind, service } => RequestView::Fetch { kind: *kind, service: service@ },
        }
    }
}

/// The view of a request that may be absent.
pub open spec fn request_view(request: Option<Request>) -> Option<RequestView> {
    match request {
        Some(request) => Some(request@),
        None => None,
    }
}

/// What came back from one call to the service manager. An `Err` holds the
/// message of the failure.
#[derive(Debug, PartialEq, Eq)]
pub enum Outcome {
    /// The answer to [`Request::List`]: the services, in the order of the listing.
    Listed(Result<Vec<Service>, String>),
    /// The answer to [`Request::Control`].
    Controlled(Result<(), String>),
    /// The answer to [`Request::Fetch`]: the text.
    Fetched(Result<String, String>),
}

/// An [`Outcome`] as a mathematical value.
pub enum OutcomeView {
    Listed(Result<Seq<ServiceView>, Seq<char>>),
    Controlled(Result<(), Seq<char>>),
    Fetched(Result<Seq<char>, Seq<char>>),
}

/// The view of the answer to a listing.
pub open spec fn listing_view(listing: Result<Vec<Service>, String>) -> Result<
    Seq<ServiceView>,
    Seq<char>,
> {
    match listing {
        Ok(services) => Ok(service_views(services@)),
        Err(reason) => Err(reason@),
    }
}

impl View for Outcome {
    type V = OutcomeView;

    open spec fn view(&self) -> OutcomeView {
        match self {
            Outcome::Listed(listing) => OutcomeView::Listed(listing_view(*listing)),
            Outcome::Controlled(Ok(())) => OutcomeView::Controlled(Ok(())),
            Outcome::Controlled(Err(reason)) => OutcomeView::Controlled(Err(reason@)),
            Outcome::Fetched(Ok(text)) => OutcomeView::Fetched(Ok(text@)),
            Outcome::Fetched(Err(reason)) => OutcomeView::Fetched(Err(reason@)),
        }
    }
}

} // verus!
