//! What can go wrong, as the user gets to see it.
use vstd::prelude::*;
use vstd::string::*;
use crate::domain::service_repository::{FetchKind, Operation};

verus! {

/// The failures of the dashboard. The first three come from the service
/// manager and leave the dashboard running; the last one ends it.
#[derive(Debug, PartialEq, Eq)]
pub enum AppError {
    /// The services could not be listed.
    BackendUnavailable { reason: String },
    /// The service manager refused `operation` on `service`.
    OperationFailed { service: String, operation: Operation, reason: String },
    /// A text about `service` could not be fetched.
    FetchFailed { service: String, kind: FetchKind, reason: String },
    /// The event bus was closed: no input can arrive any more.
    ChannelClosed,
}

/// An [`AppError`] as a mathematical value.
pub enum AppErrorView {
    BackendUnavailable { reason: Seq<char> },
    OperationFailed { service: Seq<char>, operation: Operation, reason: Seq<char> },
    FetchFailed { service: Seq<char>, kind: FetchKind, reason: Seq<char> },
    ChannelClosed,
}

impl AppErrorView {
    /// The line shown to the user.
    pub open spec fn message(self) -> Seq<char> {
        match self {
            AppErrorView::BackendUnavailable { reason } => "service manager unavailable: "@
                + reason,
            AppErrorView::OperationFailed { service, operation, reason } => "could not "@
                + operation.word() + " "@ + service + ": "@ + reason,
            AppErrorView::FetchFailed { service, kind, reason } => "could not fetch the "@
                + kind.word() + " of "@ + service + ": "@ + reason,
            AppErrorView::ChannelClosed => "input channel closed"@,
        }
    }

    /// Whether the dashboard ends on this failure.
    pub open spec fn is_fatal(self) -> bool {
        self is ChannelClosed
    }
}

impl View for AppError {
    type V = AppErrorView;

    open spec fn view(&self) -> AppErrorView {
        match self {
            AppError::BackendUnavailable { reason } => AppErrorView::BackendUnavailable {
                reason: reason@,
            },
            AppError::OperationFailed { service, operation, reason } => AppErrorView::OperationFailed {
                service: service@,
                operation: *operation,
                reason: reason@,
            },
            AppError::FetchFailed { service, kind, reason } => AppErrorView::FetchFailed {
                service: service@,
                kind: *kind,
                reason: reason@,
            },
            AppError::ChannelClosed => AppErrorView::ChannelClosed,
        }
    }
}

/// The view of a failure that may be absent.
pub open spec fn error_view(error: Option<&AppError>) -> Option<AppErrorView> {
    match error {
        Some(error) => Some(error@),
        None => None,
    }
}

impl AppError {
    /// The line shown to the user.
    pub fn message(&self) -> (line: String)
        ensures
            line@ == self@.message(),
    {
        match self {
            AppError::BackendUnavailable { reason } => {
                let mut line = String::from_str("service manager unavailable: ");
                line.append(reason.as_str());
                line
            },
            AppError::OperationFailed { service, operation, reason } => {
                let mut line = String::from_str("could not ");
                line.append(operation.as_str());
                line.append(" ");
                line.append(service.as_str());
                line.append(": ");
                line.append(reason.as_str());
                line
            },
            AppError::FetchFailed { service, kind, reason } => {
                let mut line = String::from_str("could not fetch the ");
                line.append(kind.as_str());
                line.append(" of ");
                line.append(service.as_str());
                line.append(": ");
                line.append(reason.as_str());
                line
            },
            AppError::ChannelClosed => String::from_str("input channel closed"),
        }
    }

    /// Whether the dashboard ends on this failure.
    pub fn is_fatal(&self) -> (fatal: bool)
        ensures
            fatal == self@.is_fatal(),
    {
        match self {
            AppError::ChannelClosed => true,
            _ => false,
        }
    }
}

} // verus!
