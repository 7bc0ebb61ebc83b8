//! The ingestion loop as a state machine: subscribe, provision the table, then
//! poll, decode, write and pause, forever. The caller performs each action and
//! hands back what came of it as the next event.

use vstd::prelude::*;
use crate::record::{utf8_text, StoredRecord, ID_LENGTH};
use crate::schema::{listed, plan_provision, standard_layout, Provision, SchemaDescriptor, SchemaView};

verus! {

/// Pause between two iterations of the loop, in milliseconds.
pub const PAUSE_MILLIS: u64 = 1000;

/// A failure at startup, after which the bridge cannot make progress.
#[derive(PartialEq, Eq, Structural, Clone, Copy, Debug)]
pub enum FatalError {
    SubscribeFailed,
    ListTablesFailed,
    CreateTableFailed,
}

/// Where the loop stands; each phase waits for the outcome of one action.
#[derive(PartialEq, Eq, Structural, Clone, Copy, Debug)]
pub enum Phase {
    Subscribing,
    Listing,
    Creating,
    Polling,
    Writing,
    Pausing,
    Aborted(FatalError),
}

/// The outcome of the action that was last handed out.
pub enum Event {
    Subscribed,
    SubscribeFailed,
    TablesListed(Vec<String>),
    ListFailed,
    TableCreated,
    /// The create was refused because the table already exists (another
    /// process created it since the listing).
    TableExists,
    CreateFailed,
    /// A message arrived with this payload.
    Delivered(Vec<u8>),
    /// The broker reported a transient error.
    PollFailed,
    /// No message arrived within the poll's timeout.
    PollEmpty,
    Written,
    WriteFailed,
    Paused,
}

/// What the caller is to do next.
pub enum Action {
    Subscribe,
    ListTables,
    /// Create the named table with this layout.
    CreateTable(String, SchemaDescriptor),
    Poll,
    /// Put this record into the named table.
    Write(String, StoredRecord),
    Pause(u64),
    Abort(FatalError),
}

/// An event as a value.
pub enum EventView {
    Subscribed,
    SubscribeFailed,
    TablesListed(Seq<String>),
    ListFailed,
    TableCreated,
    TableExists,
    CreateFailed,
    Delivered(Seq<u8>),
    PollFailed,
    PollEmpty,
    Written,
    WriteFailed,
    Paused,
}

/// An action as a value; a write is known by its table and message text (its
/// identifier is drawn at random).
pub enum ActionView {
    Subscribe,
    ListTables,
    CreateTable(Seq<char>, SchemaView),
    Poll,
    Write(Seq<char>, Seq<char>),
    Pause(u64),
    Abort(FatalError),
}

impl Event {
    pub open spec fn view(&self) -> EventView {
        match self {
            Event::Subscribed => EventView::Subscribed,
            Event::SubscribeFailed => EventView::SubscribeFailed,
            Event::TablesListed(names) => EventView::TablesListed(names@),
            Event::ListFailed => EventView::ListFailed,
            Event::TableCreated => EventView::TableCreated,
            Event::TableExists => EventView::TableExists,
            Event::CreateFailed => EventView::CreateFailed,
            Event::Delivered(payload) => EventView::Delivered(payload@),
            Event::PollFailed => EventView::PollFailed,
            Event::PollEmpty => EventView::PollEmpty,
            Event::Written => EventView::Written,
            Event::WriteFailed => EventView::WriteFailed,
            Event::Paused => EventView::Paused,
        }
    }
}

impl Action {
    pub open spec fn view(&self) -> ActionView {
        match self {
            Action::Subscribe => ActionView::Subscribe,
            Action::ListTables => ActionView::ListTables,
            Action::CreateTable(table, s) => ActionView::CreateTable(table@, s.view()),
            Action::Poll => ActionView::Poll,
            Action::Write(table, rec) => ActionView::Write(table@, rec.message@),
            Action::Pause(ms) => ActionView::Pause(*ms),
            Action::Abort(e) => ActionView::Abort(*e),
        }
    }
}

/// Whether `event` can be the outcome of what `phase` waits for.
pub open spec fn expects(phase: Phase, event: EventView) -> bool {
    match phase {
        Phase::Subscribing => event is Subscribed || event is SubscribeFailed,
        Phase::Listing => event is TablesListed || event is ListFailed,
        Phase::Creating => event is TableCreated || event is TableExists || event is CreateFailed,
        Phase::Polling => event is Delivered || event is PollFailed || event is PollEmpty,
        Phase::Writing => event is Written || event is WriteFailed,
        Phase::Pausing => event is Paused,
        Phase::Aborted(_) => false,
    }
}

/// The next phase and action. Startup failures abort, but a create refused
/// because the table already exists is success; after startup no
/// event stops the loop: an undecodable payload, a broker error, an empty
/// poll and a failed write all lead to the pause and then to the next poll.
pub open spec fn transition(phase: Phase, event: EventView, table: Seq<char>) -> (Phase, ActionView) {
    match (phase, event) {
        (Phase::Subscribing, EventView::Subscribed) => (Phase::Listing, ActionView::ListTables),
        (Phase::Listing, EventView::TablesListed(names)) => if listed(names, table) {
            (Phase::Polling, ActionView::Poll)
        } else {
            (Phase::Creating, ActionView::CreateTable(table, standard_layout()))
        },
        (Phase::Creating, EventView::TableCreated) => (Phase::Polling, ActionView::Poll),
        (Phase::Creating, EventView::TableExists) => (Phase::Polling, ActionView::Poll),
        (Phase::Polling, EventView::Delivered(payload)) => match utf8_text(payload) {
            Some(text) => (Phase::Writing, ActionView::Write(table, text)),
            None => (Phase::Pausing, ActionView::Pause(PAUSE_MILLIS)),
        },
        (Phase::Pausing, EventView::Paused) => (Phase::Polling, ActionView::Poll),
        (Phase::Subscribing, _) => abort(FatalError::SubscribeFailed),
        (Phase::Listing, _) => abort(FatalError::ListTablesFailed),
        (Phase::Creating, _) => abort(FatalError::CreateTableFailed),
        (Phase::Aborted(e), _) => abort(e),
        _ => (Phase::Pausing, ActionView::Pause(PAUSE_MILLIS)),
    }
}

/// The loop stops for good on a startup failure.
pub open spec fn abort(e: FatalError) -> (Phase, ActionView) {
    (Phase::Aborted(e), ActionView::Abort(e))
}

/// The loop's state: its phase and the destination table it provisions.
pub struct Ingestion {
    pub phase: Phase,
    pub table: String,
}

impl Ingestion {
    /// A loop for `table` that has not started; its first action is to subscribe.
    pub fn start(table: String) -> (r: (Ingestion, Action))
        ensures
            r.0.phase == Phase::Subscribing,
            r.0.table@ == table@,
            r.1.view() == ActionView::Subscribe,
    {
        (Ingestion { phase: Phase::Subscribing, table }, Action::Subscribe)
    }

    /// Whether `event` is an outcome of the action this loop waits on.
    pub fn accepts(&self, event: &Event) -> (r: bool)
        ensures
            r == expects(self.phase, event.view()),
    {
        match self.phase {
            Phase::Subscribing => matches!(event, Event::Subscribed | Event::SubscribeFailed),
            Phase::Listing => matches!(event, Event::TablesListed(_) | Event::ListFailed),
            Phase::Creating => matches!(event, Event::TableCreated | Event::TableExists | Event::CreateFailed),
            Phase::Polling => matches!(event, Event::Delivered(_) | Event::PollFailed | Event::PollEmpty),
            Phase::Writing => matches!(event, Event::Written | Event::WriteFailed),
            Phase::Pausing => matches!(event, Event::Paused),
            Phase::Aborted(_) => false,
        }
    }

    /// Takes the outcome of the last action and gives the next one. A write
    /// carries the decoded payload under a freshly drawn identifier.
    pub fn step(&mut self, event: Event) -> (r: Action)
        requires
            expects(old(self).phase, event.view()),
        ensures
            final(self).table == old(self).table,
            (final(self).phase, r.view()) == transition(old(self).phase, event.view(), old(self).table@),
            r matches Action::Write(_, rec) ==> rec.id@.len() == ID_LENGTH,
    {
        let (phase, action) = match event {
            Event::Subscribed => (Phase::Listing, Action::ListTables),
            Event::TablesListed(names) => match plan_provision(&names, &self.table) {
                Provision::AlreadyPresent => (Phase::Polling, Action::Poll),
                Provision::Create(layout) => (Phase::Creating, Action::CreateTable(self.table.clone(), layout)),
            },
            Event::TableCreated | Event::TableExists => (Phase::Polling, Action::Poll),
            Event::Delivered(payload) => match StoredRecord::from_payload(payload) {
                Some(rec) => (Phase::Writing, Action::Write(self.table.clone(), rec)),
                None => (Phase::Pausing, Action::Pause(PAUSE_MILLIS)),
            },
            Event::Paused => (Phase::Polling, Action::Poll),
            Event::SubscribeFailed => Ingestion::fail(FatalError::SubscribeFailed),
            Event::ListFailed => Ingestion::fail(FatalError::ListTablesFailed),
            Event::CreateFailed => Ingestion::fail(FatalError::CreateTableFailed),
            Event::PollFailed | Event::PollEmpty | Event::Written | Event::WriteFailed => (
                Phase::Pausing,
                Action::Pause(PAUSE_MILLIS),
            ),
        };
        self.phase = phase;
        action
    }

    fn fail(e: FatalError) -> (r: (Phase, Action))
        ensures
            (r.0, r.1.view()) == abort(e),
    {
        (Phase::Aborted(e), Action::Abort(e))
    }
}

} // verus!
