//! The list of services: the full set of the last listing, the part of it that
//! the filter lets through, and the selection among that part.
use vstd::prelude::*;
use vstd::string::*;
use crate::domain::service::{service_ref_view, service_views, Service, ServiceView};
use crate::domain::service_repository::{
    listing_view, request_view, Operation, Request, RequestView,
};
use crate::terminal::event::{Direction, KeyCode, KeyEvent};
use crate::text::{chars_of, contains_chars, is_substring, lemma_empty_is_substring, text_view};

verus! {

/// The number of rows that a page key moves the selection by.
pub const PAGE_SIZE: usize = 10;

/// What the owner of the list has to do after a key.
#[derive(Clone, Copy, Debug, PartialEq, Eq, Structural)]
pub enum TableIntent {
    /// Nothing.
    Idle,
    /// Read the services anew, with the filter that is in force.
    Refresh,
    /// Perform the operation on the selected service.
    Control(Operation),
}

/// The filter `predicate` lets `service` through: it stands in the name or in
/// the description. The empty filter lets everything through.
pub open spec fn service_matches(service: ServiceView, predicate: Seq<char>) -> bool {
    is_substring(predicate, service.name) || is_substring(predicate, service.description)
}

/// The services that `predicate` lets through, in their order in `services`.
pub open spec fn filter_services(services: Seq<ServiceView>, predicate: Seq<char>) -> Seq<
    ServiceView,
> {
    services.filter(|service: ServiceView| service_matches(service, predicate))
}

/// The index of the first service named `name` in `shown` at or after `from`.
pub open spec fn first_named(shown: Seq<ServiceView>, name: Seq<char>, from: int) -> Option<int>
    decreases shown.len() - from,
{
    if from < 0 || from >= shown.len() {
        None
    } else if shown[from].name == name {
        Some(from)
    } else {
        first_named(shown, name, from + 1)
    }
}

/// The selection on `shown` after a refresh, where `previous` is the name of
/// the service that was selected before: that service if it is still shown,
/// else the first row, and none where nothing is shown.
pub open spec fn reselect(previous: Option<Seq<char>>, shown: Seq<ServiceView>) -> Option<int> {
    if shown.len() == 0 {
        None
    } else {
        match previous {
            Some(name) => match first_named(shown, name, 0) {
                Some(at) => Some(at),
                None => Some(0),
            },
            None => Some(0),
        }
    }
}

/// The list as a mathematical value.
pub struct TableView {
    /// The full set of the last listing, in its order.
    pub services: Seq<ServiceView>,
    /// The filter in force.
    pub predicate: Seq<char>,
    /// The selected row of [`TableView::shown`], if any.
    pub selected: Option<int>,
    /// Keys are not read while this holds.
    pub ignore_key_events: bool,
}

impl TableView {
    /// The rows on display: the services that the filter lets through.
    pub open spec fn shown(self) -> Seq<ServiceView> {
        filter_services(self.services, self.predicate)
    }

    /// The selection is a row on display, and is absent only where no row is
    /// on display.
    pub open spec fn wf(self) -> bool {
        match self.selected {
            Some(at) => 0 <= at < self.shown().len(),
            None => self.shown().len() == 0,
        }
    }

    /// The selected service, if any.
    pub open spec fn selected_service(self) -> Option<ServiceView> {
        match self.selected {
            Some(at) => if 0 <= at < self.shown().len() {
                Some(self.shown()[at])
            } else {
                None
            },
            None => None,
        }
    }

    /// The name of the selected service, if any.
    pub open spec fn selected_name(self) -> Option<Seq<char>> {
        match self.selected_service() {
            Some(service) => Some(service.name),
            None => None,
        }
    }

    /// The list after a refresh with `predicate`, where `listing` is what the
    /// service manager answered. A failed listing leaves the full set as it
    /// was; the filter is applied and the selection found again either way.
    pub open spec fn refresh(
        self,
        predicate: Seq<char>,
        listing: Result<Seq<ServiceView>, Seq<char>>,
    ) -> Self {
        let services = match listing {
            Ok(services) => services,
            Err(_) => self.services,
        };
        TableView {
            services,
            predicate,
            selected: reselect(self.selected_name(), filter_services(services, predicate)),
            ignore_key_events: self.ignore_key_events,
        }
    }

    /// The row that the selection moves to from `at`, kept on the rows on display.
    pub open spec fn target(self, at: int, direction: Direction) -> int {
        let last = self.shown().len() - 1;
        let wanted = match direction {
            Direction::Up => at - 1,
            Direction::Down => at + 1,
            Direction::PageUp => at - PAGE_SIZE,
            Direction::PageDown => at + PAGE_SIZE,
        };
        if wanted < 0 {
            0
        } else if wanted > last {
            last
        } else {
            wanted
        }
    }

    /// The list after the selection moved.
    pub open spec fn move_selection(self, direction: Direction) -> Self {
        match self.selected {
            Some(at) => TableView { selected: Some(self.target(at, direction)), ..self },
            None => self,
        }
    }

    /// The list with key reading switched off or on.
    pub open spec fn ignoring(self, ignore: bool) -> Self {
        TableView { ignore_key_events: ignore, ..self }
    }

    /// The request that performs `operation` on the selected service; none
    /// where nothing is selected.
    pub open spec fn apply_action(self, operation: Operation) -> Option<RequestView> {
        match self.selected_name() {
            Some(name) => Some(RequestView::Control { operation, service: name }),
            None => None,
        }
    }

    /// The list after `key`, and what its owner has to do. While key reading
    /// is off, no key does anything.
    pub open spec fn on_key(self, key: KeyEvent) -> (Self, TableIntent) {
        if self.ignore_key_events {
            (self, TableIntent::Idle)
        } else {
            match key.code {
                KeyCode::Up => (self.move_selection(Direction::Up), TableIntent::Idle),
                KeyCode::Down => (self.move_selection(Direction::Down), TableIntent::Idle),
                KeyCode::PageUp => (self.move_selection(Direction::PageUp), TableIntent::Idle),
                KeyCode::PageDown => (self.move_selection(Direction::PageDown), TableIntent::Idle),
                KeyCode::Char(c) => if c == 's' {
                    (self, TableIntent::Control(Operation::Start))
                } else if c == 'x' {
                    (self, TableIntent::Control(Operation::Stop))
                } else if c == 'r' {
                    (self, TableIntent::Control(Operation::Restart))
                } else if c == 'e' {
                    (self, TableIntent::Control(Operation::Enable))
                } else if c == 'd' {
                    (self, TableIntent::Control(Operation::Disable))
                } else if c == 'u' {
                    (self, TableIntent::Refresh)
                } else {
                    (self, TableIntent::Idle)
                },
                _ => (self, TableIntent::Idle),
            }
        }
    }
}

/// A row as a mathematical value.
pub open spec fn row_view(row: Option<usize>) -> Option<int> {
    match row {
        Some(at) => Some(at as int),
        None => None,
    }
}

/// The services of `services` at the indices `visible`, in the order of `visible`.
pub open spec fn rows(services: Seq<ServiceView>, visible: Seq<usize>) -> Seq<ServiceView> {
    visible.map_values(|at: usize| services[at as int])
}

/// Tells whether the filter with the characters `needle` lets `service` through.
pub fn lets_through(service: &Service, needle: &Vec<char>) -> (found: bool)
    ensures
        found == service_matches(service@, needle@),
{
    let name = chars_of(service.name());
    if contains_chars(&name, needle) {
        true
    } else {
        let description = chars_of(service.description());
        contains_chars(&description, needle)
    }
}

/// The indices of the services that `predicate` lets through, ascending.
pub fn matching_indices(services: &Vec<Service>, predicate: &str) -> (visible: Vec<usize>)
    ensures
        forall|k: int| 0 <= k < visible@.len() ==> visible@[k] < services@.len(),
        forall|j: int, k: int| 0 <= j < k < visible@.len() ==> visible@[j] < visible@[k],
        rows(service_views(services@), visible@) == filter_services(
            service_views(services@),
            predicate@,
        ),
{
    let needle = chars_of(predicate);
    let ghost all = service_views(services@);
    let ghost keep = |service: ServiceView| service_matches(service, predicate@);
    let mut visible: Vec<usize> = Vec::new();
    let mut at: usize = 0;
    proof {
        assert(all.take(0) =~= Seq::<ServiceView>::empty());
        assert(rows(all, visible@) =~= all.take(0).filter(keep)) by {
            reveal(Seq::filter);
        }
    }
    while at < services.len()
        invariant
            at <= services@.len(),
            needle@ == predicate@,
            all == service_views(services@),
            keep == (|service: ServiceView| service_matches(service, predicate@)),
            forall|k: int| 0 <= k < visible@.len() ==> visible@[k] < at,
            forall|j: int, k: int| 0 <= j < k < visible@.len() ==> visible@[j] < visible@[k],
            rows(all, visible@) == all.take(at as int).filter(keep),
        decreases services@.len() - at,
    {
        let ghost before = visible@;
        let found = lets_through(&services[at], &needle);
        proof {
            assert(all.take(at + 1) =~= all.take(at as int).push(all[at as int]));
            all.take(at as int).lemma_filter_push(all[at as int], keep);
        }
        if found {
            visible.push(at);
            assert(rows(all, visible@) =~= rows(all, before).push(all[at as int]));
        }
        at = at + 1;
    }
    proof {
        assert(all.take(services@.len() as int) =~= all);
    }
    visible
}

/// What [`first_named`] finds is the first service of that name at or after
/// `from`; it finds none only where there is none.
pub proof fn lemma_first_named(shown: Seq<ServiceView>, name: Seq<char>, from: int)
    requires
        0 <= from,
    ensures
        match first_named(shown, name, from) {
            Some(at) => {
                &&& from <= at < shown.len()
                &&& shown[at].name == name
                &&& forall|k: int| from <= k < at ==> shown[k].name != name
            },
            None => forall|k: int| from <= k < shown.len() ==> shown[k].name != name,
        },
    decreases shown.len() - from,
{
    if from < shown.len() && shown[from].name != name {
        lemma_first_named(shown, name, from + 1);
    }
}

/// Every row on display is a service of the full set that the filter lets
/// through.
pub proof fn lemma_shown_matches(services: Seq<ServiceView>, predicate: Seq<char>, row: int)
    requires
        0 <= row < filter_services(services, predicate).len(),
    ensures
        service_matches(filter_services(services, predicate)[row], predicate),
        services.contains(filter_services(services, predicate)[row]),
{
    let keep = |service: ServiceView| service_matches(service, predicate);
    let shown = services.filter(keep);
    services.lemma_filter_pred(keep, row);
    assert(shown.contains(shown[row]));
    services.lemma_filter_contains_rev(keep, shown[row]);
}

/// A refresh leaves the selection on the rows, and leaves none only where
/// there is no row.
pub proof fn lemma_refresh_keeps_selection_on_rows(
    table: TableView,
    predicate: Seq<char>,
    listing: Result<Seq<ServiceView>, Seq<char>>,
)
    ensures
        table.refresh(predicate, listing).wf(),
{
    let next = table.refresh(predicate, listing);
    match table.selected_name() {
        Some(name) => lemma_first_named(next.shown(), name, 0),
        None => {},
    }
}

/// A refresh keeps the selected service selected where the new filter still
/// shows a service of its name.
pub proof fn lemma_refresh_keeps_shown_selection(
    table: TableView,
    predicate: Seq<char>,
    listing: Result<Seq<ServiceView>, Seq<char>>,
    row: int,
)
    requires
        table.selected_name() is Some,
        0 <= row < table.refresh(predicate, listing).shown().len(),
        table.refresh(predicate, listing).shown()[row].name == table.selected_name().unwrap(),
    ensures
        table.refresh(predicate, listing).selected_name() == table.selected_name(),
{
    let next = table.refresh(predicate, listing);
    lemma_first_named(next.shown(), table.selected_name().unwrap(), 0);
}

/// Where the new filter lets no service of the selected name through, a
/// refresh puts the selection on the first row, and leaves none where there
/// is no row.
pub proof fn lemma_refresh_moves_excluded_selection(
    table: TableView,
    predicate: Seq<char>,
    listing: Result<Seq<ServiceView>, Seq<char>>,
)
    requires
        table.selected_name() is Some,
        forall|k: int|
            0 <= k < table.refresh(predicate, listing).services.len() && (
            #[trigger] table.refresh(predicate, listing).services[k]).name
                == table.selected_name().unwrap() ==> !service_matches(
                table.refresh(predicate, listing).services[k],
                predicate,
            ),
    ensures
        table.refresh(predicate, listing).selected == if table.refresh(
            predicate,
            listing,
        ).shown().len() > 0 {
            Some(0int)
        } else {
            None
        },
{
    let next = table.refresh(predicate, listing);
    let name = table.selected_name().unwrap();
    let shown = next.shown();
    assert forall|row: int| 0 <= row < shown.len() implies shown[row].name != name by {
        lemma_shown_matches(next.services, predicate, row);
        let k = choose|k: int| 0 <= k < next.services.len() && next.services[k] == shown[row];
        assert(next.services[k].name == shown[row].name);
    }
    lemma_first_named(shown, name, 0);
}

/// A refresh with the empty filter puts the whole listing on display, in
/// its order.
pub proof fn lemma_refresh_with_empty_filter(table: TableView, services: Seq<ServiceView>)
    ensures
        table.refresh(Seq::empty(), Ok(services)).shown() == services,
{
    lemma_empty_filter_shows_all(services);
}

/// A move leaves the selection on the rows.
pub proof fn lemma_move_keeps_selection_on_rows(table: TableView, direction: Direction)
    requires
        table.wf(),
    ensures
        table.move_selection(direction).wf(),
        table.move_selection(direction).shown() == table.shown(),
{
}

/// Whatever key the list reads, the selection stays on the rows, and the
/// full set and the filter stay as they are.
pub proof fn lemma_key_keeps_selection_on_rows(table: TableView, key: KeyEvent)
    requires
        table.wf(),
    ensures
        table.on_key(key).0.wf(),
        table.on_key(key).0.services == table.services,
        table.on_key(key).0.predicate == table.predicate,
        table.ignore_key_events ==> table.on_key(key) == (table, TableIntent::Idle),
{
}

/// With the empty filter every service is on display, in the order of the listing.
pub proof fn lemma_empty_filter_shows_all(services: Seq<ServiceView>)
    ensures
        filter_services(services, Seq::empty()) == services,
    decreases services.len(),
{
    let keep = |service: ServiceView| service_matches(service, Seq::<char>::empty());
    if services.len() == 0 {
        reveal(Seq::filter);
        assert(services.filter(keep) =~= services);
    } else {
        let front = services.drop_last();
        let last = services.last();
        lemma_empty_filter_shows_all(front);
        lemma_empty_is_substring(last.name);
        assert(keep(last));
        front.lemma_filter_push(last, keep);
        assert(front.push(last) =~= services);
    }
}

/// What is on display: the filter in force, the indices of the services it
/// lets through, and the selected row.
struct Shown {
    predicate: String,
    visible: Vec<usize>,
    selected: Option<usize>,
}

/// The row of the first service named `name` among the rows `visible`.
fn find_named(services: &Vec<Service>, visible: &Vec<usize>, name: &String) -> (found: Option<usize>)
    requires
        forall|k: int| 0 <= k < visible@.len() ==> visible@[k] < services@.len(),
    ensures
        found matches Some(at) ==> at < visible@.len(),
        row_view(found) == first_named(
            rows(service_views(services@), visible@),
            name@,
            0,
        ),
{
    let ghost shown = rows(service_views(services@), visible@);
    let mut at: usize = 0;
    while at < visible.len()
        invariant
            at <= visible@.len(),
            shown == rows(service_views(services@), visible@),
            forall|k: int| 0 <= k < visible@.len() ==> visible@[k] < services@.len(),
            first_named(shown, name@, 0) == first_named(shown, name@, at as int),
        decreases visible@.len() - at,
    {
        if services[visible[at]].is_named(name) {
            return Some(at);
        }
        at = at + 1;
    }
    None
}

impl Shown {
    /// What is on display of `services` under the filter `predicate`, where
    /// `previous` names the service that was selected before.
    fn build(services: &Vec<Service>, predicate: String, previous: &Option<String>) -> (shown:
        Self)
        ensures
            shown.predicate == predicate,
            forall|k: int|
                0 <= k < shown.visible@.len() ==> shown.visible@[k] < services@.len(),
            rows(service_views(services@), shown.visible@) == filter_services(
                service_views(services@),
                predicate@,
            ),
            row_view(shown.selected) == reselect(
                text_view(*previous),
                filter_services(service_views(services@), predicate@),
            ),
            shown.selected matches Some(at) ==> at < shown.visible@.len(),
            shown.selected is None ==> shown.visible@.len() == 0,
    {
        let visible = matching_indices(services, predicate.as_str());
        let selected = if visible.len() == 0 {
            None
        } else {
            match previous {
                Some(name) => match find_named(services, &visible, name) {
                    Some(at) => Some(at),
                    None => Some(0),
                },
                None => Some(0),
            }
        };
        Shown { predicate, visible, selected }
    }
}

/// The list of services.
pub struct TableServices {
    services: Vec<Service>,
    shown: Shown,
    ignore_key_events: bool,
}

impl View for TableServices {
    type V = TableView;

    closed spec fn view(&self) -> TableView {
        TableView {
            services: service_views(self.services@),
            predicate: self.shown.predicate@,
            selected: row_view(self.shown.selected),
            ignore_key_events: self.ignore_key_events,
        }
    }
}

impl TableServices {
    /// The rows are the services that the filter lets through, each index
    /// lies in the full set, and the selection lies on the rows.
    #[verifier::type_invariant]
    spec fn inv(self) -> bool {
        &&& forall|k: int|
            0 <= k < self.shown.visible@.len() ==> self.shown.visible@[k] < self.services@.len()
        &&& rows(service_views(self.services@), self.shown.visible@) == filter_services(
            service_views(self.services@),
            self.shown.predicate@,
        )
        &&& match self.shown.selected {
            Some(at) => at < self.shown.visible@.len(),
            None => self.shown.visible@.len() == 0,
        }
    }

    /// A list without services, with the empty filter and no selection, that
    /// reads keys.
    pub fn new() -> (table: Self)
        ensures
            table@ == (TableView {
                services: Seq::empty(),
                predicate: Seq::empty(),
                selected: None,
                ignore_key_events: false,
            }),
            table@.wf(),
    {
        let services: Vec<Service> = Vec::new();
        let shown = Shown { predicate: String::new(), visible: Vec::new(), selected: None };
        proof {
            let keep = |service: ServiceView| service_matches(service, Seq::<char>::empty());
            assert(Seq::<ServiceView>::empty().filter(keep) =~= Seq::<ServiceView>::empty()) by {
                reveal(Seq::filter);
            }
            assert(service_views(services@) =~= Seq::<ServiceView>::empty());
            assert(rows(service_views(services@), shown.visible@) =~= Seq::<ServiceView>::empty());
        }
        TableServices { services, shown, ignore_key_events: false }
    }

    /// Replaces what the list holds after the service manager answered a
    /// listing, and applies `predicate` as the filter.
    ///
    /// An `Ok` listing replaces the full set. A failed one leaves the full set
    /// as it was, and its message is returned for the user to see. Either way
    /// the rows are the services that `predicate` lets through, and the service
    /// that was selected stays selected if it is among them; if it is not, the
    /// first row is selected, or nothing where there is no row.
    pub fn refresh(&mut self, predicate: String, listing: Result<Vec<Service>, String>) -> (failure:
        Option<String>)
        ensures
            final(self)@ == old(self)@.refresh(predicate@, listing_view(listing)),
            final(self)@.wf(),
            text_view(failure) == match listing {
                Ok(_) => None,
                Err(reason) => Some(reason@),
            },
    {
        proof {
            use_type_invariant(&*self);
        }
        let previous = self.selected_name();
        match listing {
            Ok(services) => {
                let shown = Shown::build(&services, predicate, &previous);
                let ignore_key_events = self.ignore_key_events;
                *self = TableServices { services, shown, ignore_key_events };
                None
            },
            Err(reason) => {
                let shown = Shown::build(&self.services, predicate, &previous);
                self.shown = shown;
                Some(reason)
            },
        }
    }

    /// Moves the selection by one row or by one page, and keeps it on the rows.
    pub fn move_selection(&mut self, direction: Direction)
        ensures
            final(self)@ == old(self)@.move_selection(direction),
            final(self)@.wf(),
    {
        proof {
            use_type_invariant(&*self);
        }
        match self.shown.selected {
            Some(at) => {
                let last = self.shown.visible.len() - 1;
                let wanted = match direction {
                    Direction::Up => at.saturating_sub(1),
                    Direction::Down => at.saturating_add(1),
                    Direction::PageUp => at.saturating_sub(PAGE_SIZE),
                    Direction::PageDown => at.saturating_add(PAGE_SIZE),
                };
                let target = if wanted > last {
                    last
                } else {
                    wanted
                };
                self.shown.selected = Some(target);
            },
            None => {},
        }
    }

    /// The selected service, if any.
    pub fn get_selected_service(&self) -> (service: Option<&Service>)
        ensures
            service_ref_view(service) == self@.selected_service(),
            self@.wf(),
    {
        proof {
            use_type_invariant(&*self);
        }
        match self.shown.selected {
            Some(at) => Some(&self.services[self.shown.visible[at]]),
            None => None,
        }
    }

    /// The name of the selected service, if any.
    pub fn selected_name(&self) -> (name: Option<String>)
        ensures
            text_view(name) == self@.selected_name(),
    {
        match self.get_selected_service() {
            Some(service) => Some(service.name().to_owned()),
            None => None,
        }
    }

    /// The request that performs `operation` on the selected service; none
    /// where nothing is selected.
    pub fn apply_action(&self, operation: Operation) -> (request: Option<Request>)
        ensures
            request_view(request) == self@.apply_action(operation),
    {
        match self.selected_name() {
            Some(service) => Some(Request::Control { operation, service }),
            None => None,
        }
    }

    /// Switches key reading off (`true`) or on (`false`).
    pub fn toogle_ignore_key_events(&mut self, ignore: bool)
        ensures
            final(self)@ == old(self)@.ignoring(ignore),
    {
        proof {
            use_type_invariant(&*self);
        }
        self.ignore_key_events = ignore;
    }

    /// Handles one key and tells the owner what follows from it.
    ///
    /// The arrow and page keys move the selection. `s`, `x`, `r`, `e` and `d`
    /// ask to start, stop, restart, enable and disable the selected service,
    /// `u` asks for a refresh. While key reading is off, nothing happens.
    pub fn on_key_event(&mut self, key: KeyEvent) -> (intent: TableIntent)
        ensures
            (final(self)@, intent) == old(self)@.on_key(key),
            final(self)@.wf(),
    {
        proof {
            use_type_invariant(&*self);
        }
        if self.ignore_key_events {
            return TableIntent::Idle;
        }
        match key.code {
            KeyCode::Up => {
                self.move_selection(Direction::Up);
                TableIntent::Idle
            },
            KeyCode::Down => {
                self.move_selection(Direction::Down);
                TableIntent::Idle
            },
            KeyCode::PageUp => {
                self.move_selection(Direction::PageUp);
                TableIntent::Idle
            },
            KeyCode::PageDown => {
                self.move_selection(Direction::PageDown);
                TableIntent::Idle
            },
            KeyCode::Char(c) => {
                if c == 's' {
                    TableIntent::Control(Operation::Start)
                } else if c == 'x' {
                    TableIntent::Control(Operation::Stop)
                } else if c == 'r' {
                    TableIntent::Control(Operation::Restart)
                } else if c == 'e' {
                    TableIntent::Control(Operation::Enable)
                } else if c == 'd' {
                    TableIntent::Control(Operation::Disable)
                } else if c == 'u' {
                    TableIntent::Refresh
                } else {
                    TableIntent::Idle
                }
            },
            _ => TableIntent::Idle,
        }
    }

    /// The number of services in the full set.
    pub fn len(&self) -> (n: usize)
        ensures
            n == self@.services.len(),
    {
        self.services.len()
    }

    /// The filter in force.
    pub fn predicate(&self) -> (text: &str)
        ensures
            text@ == self@.predicate,
    {
        self.shown.predicate.as_str()
    }

    /// The selected row, if any.
    pub fn selected(&self) -> (row: Option<usize>)
        ensures
            row_view(row) == self@.selected,
            self@.wf(),
    {
        proof {
            use_type_invariant(&*self);
        }
        self.shown.selected
    }

    /// Whether key reading is off.
    pub fn ignores_key_events(&self) -> (ignore: bool)
        ensures
            ignore == self@.ignore_key_events,
    {
        self.ignore_key_events
    }

    /// The rows on display, in order.
    pub fn rows(&self) -> (shown: Vec<&Service>)
        ensures
            shown@.map_values(|service: &Service| service@) == self@.shown(),
    {
        proof {
            use_type_invariant(&*self);
        }
        let mut shown: Vec<&Service> = Vec::new();
        let mut at: usize = 0;
        while at < self.shown.visible.len()
            invariant
                at <= self.shown.visible@.len(),
                shown@.len() == at,
                forall|k: int|
                    0 <= k < self.shown.visible@.len() ==> self.shown.visible@[k]
                        < self.services@.len(),
                shown@.map_values(|service: &Service| service@) == rows(
                    service_views(self.services@),
                    self.shown.visible@.take(at as int),
                ),
            decreases self.shown.visible@.len() - at,
        {
            let ghost before = shown@;
            shown.push(&self.services[self.shown.visible[at]]);
            assert forall|k: int| 0 <= k <= at implies #[trigger] shown@[k]@ == service_views(
                self.services@,
            )[self.shown.visible@[k] as int] by {
                if k < at {
                    assert(before.map_values(|service: &Service| service@)[k] == rows(
                        service_views(self.services@),
                        self.shown.visible@.take(at as int),
                    )[k]);
                }
            }
            assert(shown@.map_values(|service: &Service| service@) =~= rows(
                service_views(self.services@),
                self.shown.visible@.take(at + 1),
            ));
            at = at + 1;
        }
        proof {
            assert(self.shown.visible@.take(self.shown.visible@.len() as int)
                =~= self.shown.visible@);
        }
        shown
    }
}

} // verus!
