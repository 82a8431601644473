//! The details pane: one service and a text about it, which scrolls.
use vstd::prelude::*;
use vstd::string::*;
use crate::domain::service::{service_ref_view, Service, ServiceView};
use crate::domain::service_repository::{request_view, FetchKind, Request, RequestView};
use crate::terminal::event::{Direction, KeyCode, KeyEvent};
use crate::text::text_view;

verus! {

/// The number of lines that a page key scrolls by.
pub const PAGE_LINES: u16 = 10;

/// The largest scroll offset.
pub const MAX_SCROLL: u16 = 0xffff;

/// What the pane asks of its owner after a key.
#[derive(Clone, Copy, Debug, PartialEq, Eq, Structural)]
pub enum DetailsIntent {
    /// Nothing.
    Stay,
    /// Go back to the list.
    Leave,
}

/// The pane as a mathematical value.
pub struct DetailsView {
    /// The service on display, if any.
    pub service: Option<ServiceView>,
    /// The text on display: the definition of the unit, or the tail of its log.
    pub content: Seq<char>,
    /// The number of lines scrolled past.
    pub scroll: int,
}

impl DetailsView {
    /// The pane with nothing on display.
    pub open spec fn empty() -> Self {
        DetailsView { service: None, content: Seq::empty(), scroll: 0 }
    }

    /// The pane showing `content` about `service` from its first line.
    pub open spec fn show(self, service: ServiceView, content: Seq<char>) -> Self {
        DetailsView { service: Some(service), content, scroll: 0 }
    }

    /// The pane about `service`; text and offset stay.
    pub open spec fn update(self, service: ServiceView) -> Self {
        DetailsView { service: Some(service), ..self }
    }

    /// The pane showing `content`; service and offset stay.
    pub open spec fn with_content(self, content: Seq<char>) -> Self {
        DetailsView { content, ..self }
    }

    /// The pane scrolled by `lines`, down where that is positive. The offset
    /// stays within 0 and [`MAX_SCROLL`].
    pub open spec fn scroll_by(self, lines: int) -> Self {
        let wanted = self.scroll + lines;
        DetailsView {
            scroll: if wanted < 0 {
                0
            } else if wanted > MAX_SCROLL {
                MAX_SCROLL as int
            } else {
                wanted
            },
            ..self
        }
    }

    /// The pane scrolled by one line or by one page.
    pub open spec fn scroll(self, direction: Direction) -> Self {
        match direction {
            Direction::Up => self.scroll_by(-1),
            Direction::Down => self.scroll_by(1),
            Direction::PageUp => self.scroll_by(-(PAGE_LINES as int)),
            Direction::PageDown => self.scroll_by(PAGE_LINES as int),
        }
    }

    /// The title of the pane: the name of the service between its captions.
    pub open spec fn title(self) -> Option<Seq<char>> {
        match self.service {
            Some(service) => Some(" "@ + service.name + " properties "@),
            None => None,
        }
    }

    /// The request that fetches the definition of the unit on display; none
    /// where no service is on display.
    pub open spec fn fetch_unit_file(self) -> Option<RequestView> {
        match self.service {
            Some(service) => Some(
                RequestView::Fetch { kind: FetchKind::UnitFile, service: service.name },
            ),
            None => None,
        }
    }

    /// The pane after `key`, and what it asks of its owner.
    pub open spec fn on_key(self, key: KeyEvent) -> (Self, DetailsIntent) {
        match key.code {
            KeyCode::Right => (DetailsView::empty(), DetailsIntent::Leave),
            KeyCode::Left => (DetailsView::empty(), DetailsIntent::Leave),
            KeyCode::Up => (self.scroll(Direction::Up), DetailsIntent::Stay),
            KeyCode::Down => (self.scroll(Direction::Down), DetailsIntent::Stay),
            KeyCode::PageUp => (self.scroll(Direction::PageUp), DetailsIntent::Stay),
            KeyCode::PageDown => (self.scroll(Direction::PageDown), DetailsIntent::Stay),
            KeyCode::Char(c) => if c == 'q' {
                (DetailsView::empty(), DetailsIntent::Leave)
            } else {
                (self, DetailsIntent::Stay)
            },
            _ => (self, DetailsIntent::Stay),
        }
    }
}

/// The details pane.
pub struct ServiceDetails {
    service: Option<Service>,
    unit_file: String,
    scroll: u16,
}

impl View for ServiceDetails {
    type V = DetailsView;

    closed spec fn view(&self) -> DetailsView {
        DetailsView {
            service: match self.service {
                Some(service) => Some(service@),
                None => None,
            },
            content: self.unit_file@,
            scroll: self.scroll as int,
        }
    }
}

impl ServiceDetails {
    /// A pane with nothing on display.
    pub fn new() -> (details: Self)
        ensures
            details@ == DetailsView::empty(),
    {
        Self { service: None, unit_file: String::new(), scroll: 0 }
    }

    /// Puts `service` and the text `content` about it on display, from the
    /// first line of the text.
    pub fn show(&mut self, service: Service, content: String)
        ensures
            final(self)@ == old(self)@.show(service@, content@),
    {
        self.service = Some(service);
        self.unit_file = content;
        self.scroll = 0;
    }

    /// Puts `service` on display; text and offset stay.
    pub fn update(&mut self, service: Service)
        ensures
            final(self)@ == old(self)@.update(service@),
    {
        self.service = Some(service);
    }

    /// Puts the text `content` on display; service and offset stay.
    pub fn set_content(&mut self, content: String)
        ensures
            final(self)@ == old(self)@.with_content(content@),
    {
        self.unit_file = content;
    }

    /// The request that fetches the definition of the unit on display; none
    /// where no service is on display. The text that comes back goes to
    /// [`ServiceDetails::set_content`].
    pub fn fetch_unit_file(&self) -> (request: Option<Request>)
        ensures
            request_view(request) == self@.fetch_unit_file(),
    {
        match &self.service {
            Some(service) => Some(
                Request::Fetch { kind: FetchKind::UnitFile, service: service.name().to_owned() },
            ),
            None => None,
        }
    }

    /// Scrolls up by `lines`, not above the first line.
    pub fn scroll_up(&mut self, lines: u16)
        ensures
            final(self)@ == old(self)@.scroll_by(-(lines as int)),
    {
        self.scroll = self.scroll.saturating_sub(lines);
    }

    /// Scrolls down by `lines`, not beyond [`MAX_SCROLL`].
    pub fn scroll_down(&mut self, lines: u16)
        ensures
            final(self)@ == old(self)@.scroll_by(lines as int),
    {
        self.scroll = self.scroll.saturating_add(lines);
    }

    /// Scrolls by one line or by one page. The offset stops at 0 and at
    /// [`MAX_SCROLL`]; it is not held to the length of the text.
    pub fn scroll(&mut self, direction: Direction)
        ensures
            final(self)@ == old(self)@.scroll(direction),
    {
        match direction {
            Direction::Up => self.scroll_up(1),
            Direction::Down => self.scroll_down(1),
            Direction::PageUp => self.scroll_up(PAGE_LINES),
            Direction::PageDown => self.scroll_down(PAGE_LINES),
        }
    }

    /// Handles one key and tells the owner whether to go back to the list.
    ///
    /// Up, Down, PageUp and PageDown scroll. Left, Right and `q` empty the
    /// pane and ask to leave it.
    pub fn on_key_event(&mut self, key: KeyEvent) -> (intent: DetailsIntent)
        ensures
            (final(self)@, intent) == old(self)@.on_key(key),
    {
        match key.code {
            KeyCode::Right => {
                self.reset();
                DetailsIntent::Leave
            },
            KeyCode::Left => {
                self.reset();
                DetailsIntent::Leave
            },
            KeyCode::Up => {
                self.scroll(Direction::Up);
                DetailsIntent::Stay
            },
            KeyCode::Down => {
                self.scroll(Direction::Down);
                DetailsIntent::Stay
            },
            KeyCode::PageUp => {
                self.scroll(Direction::PageUp);
                DetailsIntent::Stay
            },
            KeyCode::PageDown => {
                self.scroll(Direction::PageDown);
                DetailsIntent::Stay
            },
            KeyCode::Char(c) => {
                if c == 'q' {
                    self.reset();
                    DetailsIntent::Leave
                } else {
                    DetailsIntent::Stay
                }
            },
            _ => DetailsIntent::Stay,
        }
    }

    /// Empties the pane: no service, no text, offset 0.
    pub fn reset(&mut self)
        ensures
            final(self)@ == DetailsView::empty(),
    {
        self.service = None;
        self.unit_file = String::new();
        self.scroll = 0;
    }

    /// The service on display, if any.
    pub fn service(&self) -> (service: Option<&Service>)
        ensures
            service_ref_view(service) == self@.service,
    {
        self.service.as_ref()
    }

    /// The text on display.
    pub fn content(&self) -> (text: &str)
        ensures
            text@ == self@.content,
    {
        self.unit_file.as_str()
    }

    /// The number of lines scrolled past.
    pub fn scroll_offset(&self) -> (lines: u16)
        ensures
            lines == self@.scroll,
    {
        self.scroll
    }

    /// The title of the pane; none where no service is on display.
    pub fn title(&self) -> (title: Option<String>)
        ensures
            text_view(title) == self@.title(),
    {
        match &self.service {
            Some(service) => {
                let mut title = String::from_str(" ");
                title.append(service.name());
                title.append(" properties ");
                Some(title)
            },
            None => None,
        }
    }
}

} // verus!
