//! The controller: it owns the views, takes every event and every outcome of
//! a backend call, and says which backend call to make next.
//!
//! The controller makes no call itself. [`App::handle_event`] and
//! [`App::resolve`] return the [`Request`] to perform, if any; the outcome of
//! that call goes to [`App::resolve`]. Between the two the controller waits:
//! it handles no event, so at most one call is in flight.
use vstd::prelude::*;
use vstd::string::*;
use crate::domain::service::{Service, ServiceView};
use crate::domain::service_repository::{
    listing_view, request_view, FetchKind, Operation, Outcome, OutcomeView, Request, RequestView,
};
use crate::error::{error_view, AppError, AppErrorView};
use crate::terminal::components::details::{DetailsIntent, DetailsView, ServiceDetails};
use crate::terminal::components::filter::{Filter, FilterSignal, FilterView, InputMode};
use crate::terminal::components::list::{TableIntent, TableServices, TableView};
use crate::terminal::components::list::{
    lemma_key_keeps_selection_on_rows, lemma_refresh_keeps_selection_on_rows,
};
use crate::terminal::event::{pressed, KeyCode, KeyEvent};

verus! {

/// The view on screen.
#[derive(Clone, Copy, Debug, PartialEq, Eq, Structural)]
pub enum Status {
    List,
    Details,
}

/// The events that are no key presses.
#[derive(Clone, Copy, Debug, PartialEq, Eq, Structural)]
pub enum Actions {
    /// Go back to the list.
    GoList,
    /// Open the details of the selected service with the definition of its unit.
    GoDetails,
    /// Read the services anew.
    RefreshRequested,
    /// Open the details of the selected service with the tail of its log.
    ViewLogRequested,
}

/// What travels on the event bus.
#[derive(Clone, Copy, Debug, PartialEq, Eq, Structural)]
pub enum AppEvent {
    Key(KeyEvent),
    Action(Actions),
}

/// The backend call that is in flight, with what its outcome is needed for.
#[allow(inconsistent_fields)]
pub enum PendingView {
    /// A listing, to be filtered with `predicate`.
    List { predicate: Seq<char> },
    /// `operation` on the service named `service`.
    Control { operation: Operation, service: Seq<char> },
    /// A text about `service`, to be shown in the details.
    Fetch { kind: FetchKind, service: ServiceView },
}

impl PendingView {
    /// The call as it was handed out.
    pub open spec fn request(self) -> RequestView {
        match self {
            PendingView::List { predicate } => RequestView::List,
            PendingView::Control { operation, service } => RequestView::Control {
                operation,
                service,
            },
            PendingView::Fetch { kind, service } => RequestView::Fetch {
                kind,
                service: service.name,
            },
        }
    }

    /// `outcome` is an answer to the call.
    pub open spec fn answered_by(self, outcome: OutcomeView) -> bool {
        match (self, outcome) {
            (PendingView::List { .. }, OutcomeView::Listed(_)) => true,
            (PendingView::Control { .. }, OutcomeView::Controlled(_)) => true,
            (PendingView::Fetch { .. }, OutcomeView::Fetched(_)) => true,
            _ => false,
        }
    }
}

/// The controller as a mathematical value.
pub struct AppView {
    /// False once the user asked to quit or the event bus was closed.
    pub running: bool,
    pub status: Status,
    pub table: TableView,
    pub filter: FilterView,
    pub details: DetailsView,
    /// The backend call in flight, if any.
    pub pending: Option<PendingView>,
    /// The failure on display, if any.
    pub notification: Option<AppErrorView>,
}

impl AppView {
    /// The controller at the start: the empty list on screen, nothing in flight.
    pub open spec fn initial() -> Self {
        AppView {
            running: true,
            status: Status::List,
            table: TableView {
                services: Seq::empty(),
                predicate: Seq::empty(),
                selected: None,
                ignore_key_events: false,
            },
            filter: FilterView { input: Seq::empty(), cursor: 0, mode: InputMode::Normal },
            details: DetailsView::empty(),
            pending: None,
            notification: None,
        }
    }

    /// What holds of the controller at every moment: the selection lies on the
    /// rows, the cursor of the filter lies on its text, the list reads keys
    /// exactly while the filter is not edited, and the details view is on
    /// screen only with a service in it.
    pub open spec fn wf(self) -> bool {
        &&& self.table.wf()
        &&& self.filter.wf()
        &&& self.table.ignore_key_events == (self.filter.mode == InputMode::Editing)
        &&& self.status == Status::Details ==> self.details.service is Some
    }

    /// A listing asked for, to be filtered with `predicate`.
    pub open spec fn request_listing(self, predicate: Seq<char>) -> (Self, Option<RequestView>) {
        (
            AppView { pending: Some(PendingView::List { predicate }), ..self },
            Some(RequestView::List),
        )
    }

    /// `operation` asked for on the selected service. Without a selection
    /// nothing is asked for.
    pub open spec fn request_control(self, operation: Operation) -> (Self, Option<RequestView>) {
        match self.table.selected_name() {
            Some(service) => (
                AppView { pending: Some(PendingView::Control { operation, service }), ..self },
                Some(RequestView::Control { operation, service }),
            ),
            None => (self, None),
        }
    }

    /// A text about the selected service asked for. Without a selection
    /// nothing is asked for.
    pub open spec fn request_fetch(self, kind: FetchKind) -> (Self, Option<RequestView>) {
        match self.table.selected_service() {
            Some(service) => (
                AppView { pending: Some(PendingView::Fetch { kind, service }), ..self },
                Some(RequestView::Fetch { kind, service: service.name }),
            ),
            None => (self, None),
        }
    }

    /// The list on screen and the details emptied.
    pub open spec fn go_list(self) -> Self {
        AppView { status: Status::List, details: DetailsView::empty(), ..self }
    }

    /// The controller after `action`, and the backend call to make.
    pub open spec fn apply_action(self, action: Actions) -> (Self, Option<RequestView>) {
        match action {
            Actions::GoList => (self.go_list(), None),
            Actions::GoDetails => self.request_fetch(FetchKind::UnitFile),
            Actions::RefreshRequested => self.request_listing(self.table.predicate),
            Actions::ViewLogRequested => self.request_fetch(FetchKind::Logs),
        }
    }

    /// The controller after `key` with the list on screen.
    ///
    /// `v` asks for the log of the selected service, unless the filter is
    /// edited. Every other key goes to the list and then to the filter. What
    /// the filter signals switches the key reading of the list; a commit asks
    /// for a listing with the text of the filter. Otherwise what the list
    /// asks for is done.
    pub open spec fn on_list_key(self, key: KeyEvent) -> (Self, Option<RequestView>) {
        if key.code == KeyCode::Char('v') && self.filter.mode == InputMode::Normal {
            self.request_fetch(FetchKind::Logs)
        } else {
            let (table, intent) = self.table.on_key(key);
            let (filter, signal) = self.filter.on_key(key);
            let table = match signal {
                FilterSignal::Idle => table,
                FilterSignal::Suppress => table.ignoring(true),
                FilterSignal::Resume => table.ignoring(false),
                FilterSignal::Commit => table.ignoring(false),
            };
            let next = AppView { table, filter, ..self };
            if signal == FilterSignal::Commit {
                next.request_listing(filter.input)
            } else {
                match intent {
                    TableIntent::Idle => (next, None),
                    TableIntent::Refresh => next.request_listing(table.predicate),
                    TableIntent::Control(operation) => next.request_control(operation),
                }
            }
        }
    }

    /// The controller after `key` with the details on screen.
    pub open spec fn on_details_key(self, key: KeyEvent) -> (Self, Option<RequestView>) {
        let (details, intent) = self.details.on_key(key);
        let next = AppView { details, ..self };
        match intent {
            DetailsIntent::Stay => (next, None),
            DetailsIntent::Leave => next.apply_action(Actions::GoList),
        }
    }

    /// The controller after `key`. The interrupt chord ends the dashboard
    /// whatever is on screen; every other key goes to the view on screen.
    pub open spec fn on_key(self, key: KeyEvent) -> (Self, Option<RequestView>) {
        if key.is_interrupt() {
            (AppView { running: false, ..self }, None)
        } else {
            match self.status {
                Status::List => self.on_list_key(key),
                Status::Details => self.on_details_key(key),
            }
        }
    }

    /// The controller after `event`, and the backend call to make.
    ///
    /// While a backend call is in flight, and once the dashboard has ended,
    /// the event is dropped. Otherwise the failure on display is taken away
    /// and the event is handled.
    pub open spec fn handle_event(self, event: AppEvent) -> (Self, Option<RequestView>) {
        if self.pending is Some || !self.running {
            (self, None)
        } else {
            let cleared = AppView { notification: None, ..self };
            match event {
                AppEvent::Key(key) => cleared.on_key(key),
                AppEvent::Action(action) => cleared.apply_action(action),
            }
        }
    }

    /// The controller after the answer to a listing that was to be filtered
    /// with `predicate`.
    pub open spec fn resolve_listing(
        self,
        predicate: Seq<char>,
        listing: Result<Seq<ServiceView>, Seq<char>>,
    ) -> (Self, Option<RequestView>) {
        (
            AppView {
                table: self.table.refresh(predicate, listing),
                notification: match listing {
                    Ok(_) => self.notification,
                    Err(reason) => Some(AppErrorView::BackendUnavailable { reason }),
                },
                pending: None,
                ..self
            },
            None,
        )
    }

    /// The controller after the answer to `operation` on `service`: a listing
    /// with the filter in force is asked for where it went well, and the
    /// failure is put on display where it did not.
    pub open spec fn resolve_control(
        self,
        operation: Operation,
        service: Seq<char>,
        result: Result<(), Seq<char>>,
    ) -> (Self, Option<RequestView>) {
        match result {
            Ok(_) => (AppView { pending: None, ..self }).request_listing(self.table.predicate),
            Err(reason) => (
                AppView {
                    notification: Some(
                        AppErrorView::OperationFailed { service, operation, reason },
                    ),
                    pending: None,
                    ..self
                },
                None,
            ),
        }
    }

    /// The controller after the answer to a fetch about `service`: the details
    /// come on screen with the text where it went well, and the failure is put
    /// on display where it did not.
    pub open spec fn resolve_fetch(
        self,
        kind: FetchKind,
        service: ServiceView,
        result: Result<Seq<char>, Seq<char>>,
    ) -> (Self, Option<RequestView>) {
        match result {
            Ok(content) => (
                AppView {
                    status: Status::Details,
                    details: self.details.show(service, content),
                    pending: None,
                    ..self
                },
                None,
            ),
            Err(reason) => (
                AppView {
                    notification: Some(
                        AppErrorView::FetchFailed { service: service.name, kind, reason },
                    ),
                    pending: None,
                    ..self
                },
                None,
            ),
        }
    }

    /// The controller after `outcome`, and the backend call to make next.
    ///
    /// An outcome that does not answer the call in flight is dropped.
    pub open spec fn resolve(self, outcome: OutcomeView) -> (Self, Option<RequestView>) {
        match (self.pending, outcome) {
            (Some(PendingView::List { predicate }), OutcomeView::Listed(listing)) => {
                self.resolve_listing(predicate, listing)
            },
            (
                Some(PendingView::Control { operation, service }),
                OutcomeView::Controlled(result),
            ) => self.resolve_control(operation, service, result),
            (Some(PendingView::Fetch { kind, service }), OutcomeView::Fetched(result)) => {
                self.resolve_fetch(kind, service, result)
            },
            _ => (self, None),
        }
    }

    /// The controller after the event bus was closed: the dashboard ends.
    pub open spec fn channel_closed(self) -> Self {
        AppView { running: false, notification: Some(AppErrorView::ChannelClosed), ..self }
    }
}

/// The backend call that is in flight, with what its outcome is needed for.
#[allow(inconsistent_fields)]
enum Pending {
    List { predicate: String },
    Control { operation: Operation, service: String },
    Fetch { kind: FetchKind, service: Service },
}

impl View for Pending {
    type V = PendingView;

    closed spec fn view(&self) -> PendingView {
        match self {
            Pending::List { predicate } => PendingView::List { predicate: predicate@ },
            Pending::Control { operation, service } => PendingView::Control {
                operation: *operation,
                service: service@,
            },
            Pending::Fetch { kind, service } => PendingView::Fetch { kind: *kind, service: service@ },
        }
    }
}

/// The controller.
pub struct App {
    running: bool,
    status: Status,
    table_service: TableServices,
    filter: Filter,
    details: ServiceDetails,
    pending: Option<Pending>,
    notification: Option<AppError>,
}

impl View for App {
    type V = AppView;

    closed spec fn view(&self) -> AppView {
        AppView {
            running: self.running,
            status: self.status,
            table: self.table_service@,
            filter: self.filter@,
            details: self.details@,
            pending: match self.pending {
                Some(pending) => Some(pending@),
                None => None,
            },
            notification: match self.notification {
                Some(error) => Some(error@),
                None => None,
            },
        }
    }
}

impl App {
    /// The controller at the start.
    pub fn new() -> (app: Self)
        ensures
            app@ == AppView::initial(),
    {
        Self {
            running: true,
            status: Status::List,
            table_service: TableServices::new(),
            filter: Filter::new(),
            details: ServiceDetails::new(),
            pending: None,
            notification: None,
        }
    }

    /// Asks for the first listing: the same as the event
    /// [`Actions::RefreshRequested`].
    pub fn init(&mut self) -> (request: Option<Request>)
        ensures
            (final(self)@, request_view(request)) == old(self)@.handle_event(
                AppEvent::Action(Actions::RefreshRequested),
            ),
    {
        self.handle_event(AppEvent::Action(Actions::RefreshRequested))
    }

    /// Handles one event from the event bus and returns the backend call to
    /// make, if any. The outcome of that call goes to [`App::resolve`].
    pub fn handle_event(&mut self, event: AppEvent) -> (request: Option<Request>)
        ensures
            (final(self)@, request_view(request)) == old(self)@.handle_event(event),
    {
        if self.pending.is_some() || !self.running {
            return None;
        }
        self.notification = None;
        match event {
            AppEvent::Key(key) => self.on_key_event(key),
            AppEvent::Action(action) => self.apply_action(action),
        }
    }

    /// Takes the outcome of the backend call in flight and returns the call to
    /// make next, if any.
    pub fn resolve(&mut self, outcome: Outcome) -> (request: Option<Request>)
        ensures
            (final(self)@, request_view(request)) == old(self)@.resolve(outcome@),
    {
        let pending = self.pending.take();
        match (pending, outcome) {
            (Some(Pending::List { predicate }), Outcome::Listed(listing)) => {
                match self.table_service.refresh(predicate, listing) {
                    Some(reason) => {
                        self.notification = Some(AppError::BackendUnavailable { reason });
                    },
                    None => {},
                }
                None
            },
            (Some(Pending::Control { operation, service }), Outcome::Controlled(result)) => {
                match result {
                    Ok(_) => {
                        let predicate = self.table_service.predicate().to_owned();
                        self.request_listing(predicate)
                    },
                    Err(reason) => {
                        self.notification = Some(
                            AppError::OperationFailed { service, operation, reason },
                        );
                        None
                    },
                }
            },
            (Some(Pending::Fetch { kind, service }), Outcome::Fetched(result)) => {
                match result {
                    Ok(content) => {
                        self.details.show(service, content);
                        self.status = Status::Details;
                        None
                    },
                    Err(reason) => {
                        let name = service.name().to_owned();
                        self.notification = Some(
                            AppError::FetchFailed { service: name, kind, reason },
                        );
                        None
                    },
                }
            },
            (pending, _) => {
                self.pending = pending;
                None
            },
        }
    }

    /// Handles one key and returns the backend call to make, if any.
    fn on_key_event(&mut self, key: KeyEvent) -> (request: Option<Request>)
        ensures
            (final(self)@, request_view(request)) == old(self)@.on_key(key),
    {
        if key.interrupts() {
            self.quit();
            return None;
        }
        match self.status {
            Status::List => self.on_list_key(key),
            Status::Details => match self.details.on_key_event(key) {
                DetailsIntent::Stay => None,
                DetailsIntent::Leave => self.apply_action(Actions::GoList),
            },
        }
    }

    /// Handles one key with the list on screen.
    fn on_list_key(&mut self, key: KeyEvent) -> (request: Option<Request>)
        ensures
            (final(self)@, request_view(request)) == old(self)@.on_list_key(key),
    {
        let views_logs = match key.code {
            KeyCode::Char(c) => c == 'v',
            _ => false,
        };
        if views_logs && self.filter.input_mode() == InputMode::Normal {
            return self.log();
        }
        let intent = self.table_service.on_key_event(key);
        let signal = self.filter.on_key_event(key);
        match signal {
            FilterSignal::Idle => {},
            FilterSignal::Suppress => self.table_service.toogle_ignore_key_events(true),
            FilterSignal::Resume => self.table_service.toogle_ignore_key_events(false),
            FilterSignal::Commit => self.table_service.toogle_ignore_key_events(false),
        }
        match signal {
            FilterSignal::Commit => {
                let predicate = self.filter.input().to_owned();
                self.request_listing(predicate)
            },
            _ => match intent {
                TableIntent::Idle => None,
                TableIntent::Refresh => {
                    let predicate = self.table_service.predicate().to_owned();
                    self.request_listing(predicate)
                },
                TableIntent::Control(operation) => self.request_control(operation),
            },
        }
    }

    /// Handles one event that is no key press and returns the backend call to
    /// make, if any.
    fn apply_action(&mut self, action: Actions) -> (request: Option<Request>)
        ensures
            (final(self)@, request_view(request)) == old(self)@.apply_action(action),
    {
        match action {
            Actions::GoList => {
                self.details.reset();
                self.status = Status::List;
                None
            },
            Actions::GoDetails => self.request_fetch(FetchKind::UnitFile),
            Actions::RefreshRequested => {
                let predicate = self.table_service.predicate().to_owned();
                self.request_listing(predicate)
            },
            Actions::ViewLogRequested => self.log(),
        }
    }

    /// Asks for the log of the selected service.
    fn log(&mut self) -> (request: Option<Request>)
        ensures
            (final(self)@, request_view(request)) == old(self)@.request_fetch(FetchKind::Logs),
    {
        self.request_fetch(FetchKind::Logs)
    }

    /// Ends the dashboard.
    pub fn quit(&mut self)
        ensures
            final(self)@ == (AppView { running: false, ..old(self)@ }),
    {
        self.running = false;
    }

    /// Ends the dashboard because the event bus was closed.
    pub fn channel_closed(&mut self)
        ensures
            final(self)@ == old(self)@.channel_closed(),
    {
        self.running = false;
        self.notification = Some(AppError::ChannelClosed);
    }

    /// Records a listing as in flight.
    fn request_listing(&mut self, predicate: String) -> (request: Option<Request>)
        ensures
            (final(self)@, request_view(request)) == old(self)@.request_listing(predicate@),
    {
        self.pending = Some(Pending::List { predicate });
        Some(Request::List)
    }

    /// Records `operation` on the selected service as in flight.
    fn request_control(&mut self, operation: Operation) -> (request: Option<Request>)
        ensures
            (final(self)@, request_view(request)) == old(self)@.request_control(operation),
    {
        match self.table_service.selected_name() {
            Some(service) => {
                self.pending = Some(Pending::Control { operation, service: service.clone() });
                Some(Request::Control { operation, service })
            },
            None => None,
        }
    }

    /// Records a fetch about the selected service as in flight.
    fn request_fetch(&mut self, kind: FetchKind) -> (request: Option<Request>)
        ensures
            (final(self)@, request_view(request)) == old(self)@.request_fetch(kind),
    {
        let selected = match self.table_service.get_selected_service() {
            Some(service) => Some(service.clone()),
            None => None,
        };
        match selected {
            Some(service) => {
                let name = service.name().to_owned();
                self.pending = Some(Pending::Fetch { kind, service });
                Some(Request::Fetch { kind, service: name })
            },
            None => None,
        }
    }

    /// False once the user asked to quit or the event bus was closed.
    pub fn is_running(&self) -> (running: bool)
        ensures
            running == self@.running,
    {
        self.running
    }

    /// Whether a backend call is in flight.
    pub fn is_waiting(&self) -> (waiting: bool)
        ensures
            waiting == (self@.pending is Some),
    {
        self.pending.is_some()
    }

    /// The view on screen.
    pub fn status(&self) -> (status: Status)
        ensures
            status == self@.status,
    {
        self.status
    }

    /// The list.
    pub fn table_service(&self) -> (table: &TableServices)
        ensures
            table@ == self@.table,
    {
        &self.table_service
    }

    /// The filter line.
    pub fn filter(&self) -> (filter: &Filter)
        ensures
            filter@ == self@.filter,
    {
        &self.filter
    }

    /// The details pane.
    pub fn details(&self) -> (details: &ServiceDetails)
        ensures
            details@ == self@.details,
    {
        &self.details
    }

    /// The failure on display, if any.
    pub fn notification(&self) -> (error: Option<&AppError>)
        ensures
            error_view(error) == self@.notification,
    {
        self.notification.as_ref()
    }
}

/// The controller starts with all that [`AppView::wf`] asks for.
pub proof fn lemma_initial_state_is_well_formed()
    ensures
        AppView::initial().wf(),
{
    let table = AppView::initial().table;
    assert(table.shown() =~= Seq::<ServiceView>::empty()) by {
        reveal(Seq::filter);
    }
}

/// Whatever event arrives, the selection stays on the rows, the cursor of the
/// filter on its text, the list reads keys exactly while the filter is not
/// edited, and the details view is on screen only with a service in it.
pub proof fn lemma_event_keeps_invariants(app: AppView, event: AppEvent)
    requires
        app.wf(),
    ensures
        app.handle_event(event).0.wf(),
{
    match event {
        AppEvent::Key(key) => {
            lemma_key_keeps_selection_on_rows(app.table, key);
        },
        AppEvent::Action(_) => {},
    }
}

/// Whatever the backend answers, the same holds after the answer.
pub proof fn lemma_outcome_keeps_invariants(app: AppView, outcome: OutcomeView)
    requires
        app.wf(),
    ensures
        app.resolve(outcome).0.wf(),
{
    match (app.pending, outcome) {
        (Some(PendingView::List { predicate }), OutcomeView::Listed(listing)) => {
            lemma_refresh_keeps_selection_on_rows(app.table, predicate, listing);
        },
        _ => {},
    }
}

/// At most one backend call is in flight. While one is, every event is
/// dropped; a call is handed out only when none is in flight, and the call
/// handed out is the one recorded as in flight.
pub proof fn lemma_one_call_in_flight(app: AppView, event: AppEvent)
    ensures
        app.pending is Some ==> app.handle_event(event) == (app, None::<RequestView>),
        app.pending is None ==> app.handle_event(event).1 == match app.handle_event(
            event,
        ).0.pending {
            Some(pending) => Some(pending.request()),
            None => None,
        },
{
}

/// An answer to the call in flight ends that call. Where a call follows, it
/// is the one recorded as in flight; no call follows a failure.
pub proof fn lemma_outcome_ends_call(app: AppView, outcome: OutcomeView)
    requires
        app.pending is Some,
        app.pending.unwrap().answered_by(outcome),
    ensures
        app.resolve(outcome).1 == match app.resolve(outcome).0.pending {
            Some(pending) => Some(pending.request()),
            None => None,
        },
        app.resolve(outcome).1 is Some ==> outcome matches OutcomeView::Controlled(Ok(_)),
{
}

/// An outcome that answers no call in flight changes nothing.
pub proof fn lemma_stray_outcome_is_dropped(app: AppView, outcome: OutcomeView)
    requires
        app.pending matches Some(pending) ==> !pending.answered_by(outcome),
    ensures
        app.resolve(outcome) == (app, None::<RequestView>),
{
}

/// While the filter is edited no key moves the selection or changes what
/// the list holds: with the list on screen, `i` and then Down leave the
/// selection where it was.
pub proof fn lemma_editing_suppresses_navigation(app: AppView)
    requires
        app.running,
        app.pending is None,
        app.status == Status::List,
        app.filter.mode == InputMode::Normal,
    ensures
        ({
            let (editing, first) = app.handle_event(AppEvent::Key(pressed(KeyCode::Char('i'))));
            let (after, second) = editing.handle_event(AppEvent::Key(pressed(KeyCode::Down)));
            &&& editing.filter.mode == InputMode::Editing
            &&& editing.table == app.table.ignoring(true)
            &&& after.table == editing.table
            &&& after.table.selected == app.table.selected
            &&& first is None
            &&& second is None
        }),
{
}

/// With the list on screen and the filter in edit, no key changes the full
/// set, the filter in force or the selection.
pub proof fn lemma_keys_bypass_list_while_editing(app: AppView, key: KeyEvent)
    requires
        app.wf(),
        app.running,
        app.pending is None,
        app.status == Status::List,
        app.filter.mode == InputMode::Editing,
    ensures
        app.handle_event(AppEvent::Key(key)).0.table.services == app.table.services,
        app.handle_event(AppEvent::Key(key)).0.table.predicate == app.table.predicate,
        app.handle_event(AppEvent::Key(key)).0.table.selected == app.table.selected,
{
}

/// From the list, `v` and a log that arrives bring the details on screen
/// with that log; `q` then brings back the list as it was, selection
/// included, and leaves the details empty.
pub proof fn lemma_view_log_and_back(app: AppView, log: Seq<char>)
    requires
        app.running,
        app.pending is None,
        app.status == Status::List,
        app.filter.mode == InputMode::Normal,
        app.table.selected_service() is Some,
    ensures
        ({
            let service = app.table.selected_service().unwrap();
            let (waiting, first) = app.handle_event(AppEvent::Key(pressed(KeyCode::Char('v'))));
            let (shown, second) = waiting.resolve(OutcomeView::Fetched(Ok(log)));
            let (back, third) = shown.handle_event(AppEvent::Key(pressed(KeyCode::Char('q'))));
            &&& first == Some(RequestView::Fetch { kind: FetchKind::Logs, service: service.name })
            &&& waiting.table == app.table
            &&& second is None
            &&& shown.status == Status::Details
            &&& shown.details == (DetailsView { service: Some(service), content: log, scroll: 0 })
            &&& shown.table == app.table
            &&& third is None
            &&& back.status == Status::List
            &&& back.table == app.table
            &&& back.filter == app.filter
            &&& back.details == DetailsView::empty()
            &&& back.pending is None
        }),
{
}

/// A `start` that the backend refuses leaves the list and the selection as
/// they were and puts exactly that failure on display; no call follows, so
/// nothing is tried again.
pub proof fn lemma_failed_start_changes_nothing(app: AppView, reason: Seq<char>)
    requires
        app.running,
        app.pending is None,
        app.status == Status::List,
        app.filter.mode == InputMode::Normal,
        !app.table.ignore_key_events,
        app.table.selected_service() is Some,
    ensures
        ({
            let name = app.table.selected_service().unwrap().name;
            let (waiting, first) = app.handle_event(AppEvent::Key(pressed(KeyCode::Char('s'))));
            let (after, second) = waiting.resolve(OutcomeView::Controlled(Err(reason)));
            &&& first == Some(
                RequestView::Control { operation: Operation::Start, service: name },
            )
            &&& second is None
            &&& after.pending is None
            &&& after.table == app.table
            &&& after.status == app.status
            &&& after.details == app.details
            &&& after.filter == app.filter
            &&& after.notification == Some(
                AppErrorView::OperationFailed {
                    service: name,
                    operation: Operation::Start,
                    reason,
                },
            )
        }),
{
}

/// Whatever operation the backend refuses, the list, the selection and the
/// view on screen stay as they were, the failure is put on display, and no
/// call follows.
pub proof fn lemma_failed_operation_changes_nothing(
    app: AppView,
    operation: Operation,
    service: Seq<char>,
    reason: Seq<char>,
)
    requires
        app.pending == Some(PendingView::Control { operation, service }),
    ensures
        ({
            let (after, next) = app.resolve(OutcomeView::Controlled(Err(reason)));
            &&& next is None
            &&& after == (AppView {
                pending: None,
                notification: Some(AppErrorView::OperationFailed { service, operation, reason }),
                ..app
            })
        }),
{
}

/// An operation that went well is followed by one listing, which is
/// filtered with the filter in force.
pub proof fn lemma_operation_is_followed_by_refresh(
    app: AppView,
    operation: Operation,
    service: Seq<char>,
)
    requires
        app.pending == Some(PendingView::Control { operation, service }),
    ensures
        ({
            let (after, next) = app.resolve(OutcomeView::Controlled(Ok(())));
            &&& next == Some(RequestView::List)
            &&& after.pending == Some(PendingView::List { predicate: app.table.predicate })
            &&& after.table == app.table
        }),
{
}

} // verus!
