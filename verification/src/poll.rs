//! The polling cycle as a state machine.
//!
//! The machine makes every decision of a cycle and performs none of its
//! effects. It hands out one [`Action`] at a time; the caller performs it
//! and reports the outcome as an [`Event`], which yields the next action:
//!
//! fetch, probe the storage, create what is missing, then for the full and
//! for the condensed forecast in turn read the stored text and replace it
//! where the fetched text has another fingerprint, notify where that is
//! enabled, and sleep.

use crate::chunker::{chunk, chunks_of};
use crate::config::{Config, ConfigView};
use crate::error::ErrorKind;
use crate::fingerprint::{fingerprint, has_changed};
use crate::slot::{bootstrap_plan, setup, SlotName, SlotWrite, SlotWriteView};
use vstd::prelude::*;

verus! {

/// Where in its cycle the machine stands, named by what it waits for.
#[derive(Clone, Copy, Debug, PartialEq, Eq, Structural)]
pub enum Phase {
    /// Waiting for the two fetched forecasts.
    Fetching,
    /// Waiting to learn which slots exist.
    Bootstrapping,
    /// Waiting for a missing slot to be created.
    Creating,
    /// Waiting for the stored text of the slot.
    Detecting(SlotName),
    /// Waiting for the changed text of the slot to be written.
    Persisting(SlotName),
    /// Waiting for the notifier to take the fragments.
    Notifying,
    /// Waiting for the pause between two cycles to end.
    Sleeping,
    /// Stopped for good by an error.
    Halted(ErrorKind),
}

/// What the caller reports back to the machine.
#[derive(Debug, PartialEq, Eq)]
pub enum Event {
    /// Both forecasts were fetched.
    Fetched { full: String, abbreviated: String },
    /// The storage was probed: which slots exist.
    Probed { full_exists: bool, abbreviated_exists: bool },
    /// The stored text of the slot asked for.
    Stored { text: String },
    /// The text was emitted and the slot overwritten.
    Persisted,
    /// The fragments were handed to the notifier.
    Notified,
    /// The pause is over.
    Woke,
    /// The action could not be performed.
    Failed,
}

/// An [`Event`] as contracts see it.
pub enum EventView {
    Fetched { full: Seq<char>, abbreviated: Seq<char> },
    Probed { full_exists: bool, abbreviated_exists: bool },
    Stored { text: Seq<char> },
    Persisted,
    Notified,
    Woke,
    Failed,
}

impl View for Event {
    type V = EventView;

    open spec fn view(&self) -> EventView {
        match *self {
            Event::Fetched { full, abbreviated } => EventView::Fetched {
                full: full@,
                abbreviated: abbreviated@,
            },
            Event::Probed { full_exists, abbreviated_exists } => EventView::Probed {
                full_exists,
                abbreviated_exists,
            },
            Event::Stored { text } => EventView::Stored { text: text@ },
            Event::Persisted => EventView::Persisted,
            Event::Notified => EventView::Notified,
            Event::Woke => EventView::Woke,
            Event::Failed => EventView::Failed,
        }
    }
}

/// What the machine asks the caller to do next.
#[derive(Debug, PartialEq, Eq)]
pub enum Action {
    /// Acquire a fresh session and fetch both forecasts.
    Fetch,
    /// Find out which slots exist. The content of a slot is not looked at.
    Probe,
    /// Read the text that the slot holds now.
    Read { slot: SlotName },
    /// Emit the text to the observation stream, then replace the whole
    /// content of the slot by it.
    Persist(SlotWrite),
    /// Hand the fragments, in order, to the notifier at the endpoint.
    Notify { endpoint: String, chunks: Vec<String> },
    /// Pause for that many seconds.
    Sleep { seconds: u64 },
    /// Terminate the process with the diagnostic of this error.
    Abort { kind: ErrorKind },
}

/// An [`Action`] as contracts see it.
pub enum ActionView {
    Fetch,
    Probe,
    Read { slot: SlotName },
    Persist(SlotWriteView),
    Notify { endpoint: Seq<char>, chunks: Seq<Seq<char>> },
    Sleep { seconds: u64 },
    Abort { kind: ErrorKind },
}

impl View for Action {
    type V = ActionView;

    open spec fn view(&self) -> ActionView {
        match *self {
            Action::Fetch => ActionView::Fetch,
            Action::Probe => ActionView::Probe,
            Action::Read { slot } => ActionView::Read { slot },
            Action::Persist(write) => ActionView::Persist(write@),
            Action::Notify { endpoint, chunks } => ActionView::Notify {
                endpoint: endpoint@,
                chunks: chunks.deep_view(),
            },
            Action::Sleep { seconds } => ActionView::Sleep { seconds },
            Action::Abort { kind } => ActionView::Abort { kind },
        }
    }
}

/// The polling machine.
pub struct PollLoop {
    config: Config,
    phase: Phase,
    full: String,
    abbreviated: String,
    pending: Vec<SlotWrite>,
}

/// A [`PollLoop`] as contracts see it.
pub struct PollLoopView {
    /// The configuration, which never changes.
    pub config: ConfigView,
    pub phase: Phase,
    /// The full forecast fetched in this cycle; empty between cycles.
    pub full: Seq<char>,
    /// The condensed forecast fetched in this cycle; empty between cycles.
    pub abbreviated: Seq<char>,
    /// The first-run writes that are still to be handed out.
    pub pending: Seq<SlotWriteView>,
}

impl PollLoopView {
    /// The machine before its first cycle.
    pub open spec fn initial(config: ConfigView) -> PollLoopView {
        PollLoopView {
            config,
            phase: Phase::Fetching,
            full: Seq::empty(),
            abbreviated: Seq::empty(),
            pending: Seq::empty(),
        }
    }

    /// The text fetched in this cycle for the slot.
    pub open spec fn observation(self, slot: SlotName) -> Seq<char> {
        match slot {
            SlotName::Full => self.full,
            SlotName::Abbreviated => self.abbreviated,
        }
    }
}

/// The machine stops for good.
pub open spec fn halt(state: PollLoopView, kind: ErrorKind) -> (PollLoopView, ActionView) {
    (PollLoopView { phase: Phase::Halted(kind), ..state }, ActionView::Abort { kind })
}

/// The cycle ends: the fetched texts are discarded and the pause begins.
pub open spec fn fall_asleep(state: PollLoopView) -> (PollLoopView, ActionView) {
    (
        PollLoopView {
            phase: Phase::Sleeping,
            full: Seq::empty(),
            abbreviated: Seq::empty(),
            ..state
        },
        ActionView::Sleep { seconds: state.config.poll_interval_secs },
    )
}

/// The next first-run write is handed out; when none is left, change
/// detection starts with the full forecast.
pub open spec fn create_next(state: PollLoopView) -> (PollLoopView, ActionView) {
    if state.pending.len() > 0 {
        (
            PollLoopView { phase: Phase::Creating, pending: state.pending.drop_first(), ..state },
            ActionView::Persist(state.pending.first()),
        )
    } else {
        (
            PollLoopView { phase: Phase::Detecting(SlotName::Full), ..state },
            ActionView::Read { slot: SlotName::Full },
        )
    }
}

/// The machine is done with a slot. After the full forecast comes the
/// condensed one. After the condensed one the cycle ends, unless its text was
/// just replaced and notifications are enabled: then the fragments of the
/// condensed forecast go to the notifier first.
pub open spec fn leave_slot(state: PollLoopView, slot: SlotName, written: bool) -> (
    PollLoopView,
    ActionView,
) {
    match slot {
        SlotName::Full => (
            PollLoopView { phase: Phase::Detecting(SlotName::Abbreviated), ..state },
            ActionView::Read { slot: SlotName::Abbreviated },
        ),
        SlotName::Abbreviated => match state.config.notification_endpoint {
            Some(endpoint) if written => (
                PollLoopView { phase: Phase::Notifying, ..state },
                ActionView::Notify {
                    endpoint,
                    chunks: chunks_of(state.abbreviated, state.config.chunk_max_length as nat),
                },
            ),
            _ => fall_asleep(state),
        },
    }
}

/// The machine's whole behaviour: the state and the action that follow from a
/// state and an event.
///
/// An event that does not answer the action the machine waits for counts as
/// the failure of that action. Only the pause cannot fail: whatever is
/// reported while the machine sleeps starts the next cycle.
pub open spec fn transition(state: PollLoopView, event: EventView) -> (PollLoopView, ActionView) {
    match state.phase {
        Phase::Fetching => match event {
            EventView::Fetched { full, abbreviated } => (
                PollLoopView { phase: Phase::Bootstrapping, full, abbreviated, ..state },
                ActionView::Probe,
            ),
            _ => halt(state, ErrorKind::Retrieval),
        },
        Phase::Bootstrapping => match event {
            EventView::Probed { full_exists, abbreviated_exists } => create_next(
                PollLoopView {
                    pending: bootstrap_plan(
                        state.full,
                        state.abbreviated,
                        full_exists,
                        abbreviated_exists,
                    ),
                    ..state
                },
            ),
            _ => halt(state, ErrorKind::StorageRead),
        },
        Phase::Creating => match event {
            EventView::Persisted => create_next(state),
            _ => halt(state, ErrorKind::StorageWrite),
        },
        Phase::Detecting(slot) => match event {
            EventView::Stored { text } => if fingerprint(state.observation(slot)) != fingerprint(
                text,
            ) {
                (
                    PollLoopView { phase: Phase::Persisting(slot), ..state },
                    ActionView::Persist(SlotWriteView { slot, text: state.observation(slot) }),
                )
            } else {
                leave_slot(state, slot, false)
            },
            _ => halt(state, ErrorKind::StorageRead),
        },
        Phase::Persisting(slot) => match event {
            EventView::Persisted => leave_slot(state, slot, true),
            _ => halt(state, ErrorKind::StorageWrite),
        },
        Phase::Notifying => match event {
            EventView::Notified => fall_asleep(state),
            _ => halt(state, ErrorKind::Retrieval),
        },
        Phase::Sleeping => (PollLoopView { phase: Phase::Fetching, ..state }, ActionView::Fetch),
        Phase::Halted(kind) => (state, ActionView::Abort { kind }),
    }
}

impl View for PollLoop {
    type V = PollLoopView;

    closed spec fn view(&self) -> PollLoopView {
        PollLoopView {
            config: self.config@,
            phase: self.phase,
            full: self.full@,
            abbreviated: self.abbreviated@,
            pending: self.pending.deep_view(),
        }
    }
}

impl PollLoop {
    /// Starts a polling process: the machine in its initial state, and the
    /// first action, which is to fetch.
    pub fn start(config: Config) -> (started: (PollLoop, Action))
        ensures
            started.0@ == PollLoopView::initial(config@),
            started.1@ == ActionView::Fetch,
    {
        let machine = PollLoop {
            config,
            phase: Phase::Fetching,
            full: String::new(),
            abbreviated: String::new(),
            pending: Vec::new(),
        };
        assert(machine.pending.deep_view() =~= Seq::<SlotWriteView>::empty());
        (machine, Action::Fetch)
    }

    /// Where in its cycle the machine stands.
    pub fn phase(&self) -> (phase: Phase)
        ensures
            phase == self@.phase,
    {
        self.phase
    }

    /// The configuration the machine was started with.
    pub fn config(&self) -> (config: &Config)
        ensures
            config@ == self@.config,
    {
        &self.config
    }

    /// Takes the outcome of the last action and decides the next one.
    pub fn step(&mut self, event: Event) -> (action: Action)
        ensures
            (final(self)@, action@) == transition(old(self)@, event@),
    {
        match self.phase {
            Phase::Fetching => match event {
                Event::Fetched { full, abbreviated } => {
                    self.full = full;
                    self.abbreviated = abbreviated;
                    self.phase = Phase::Bootstrapping;
                    Action::Probe
                },
                _ => self.halt(ErrorKind::Retrieval),
            },
            Phase::Bootstrapping => match event {
                Event::Probed { full_exists, abbreviated_exists } => {
                    self.pending = setup(
                        &self.full,
                        &self.abbreviated,
                        full_exists,
                        abbreviated_exists,
                    );
                    self.create_next()
                },
                _ => self.halt(ErrorKind::StorageRead),
            },
            Phase::Creating => match event {
                Event::Persisted => self.create_next(),
                _ => self.halt(ErrorKind::StorageWrite),
            },
            Phase::Detecting(slot) => match event {
                Event::Stored { text } => {
                    let changed: bool = match slot {
                        SlotName::Full => has_changed(&self.full, &text),
                        SlotName::Abbreviated => has_changed(&self.abbreviated, &text),
                    };
                    if changed {
                        let fetched: String = match slot {
                            SlotName::Full => self.full.clone(),
                            SlotName::Abbreviated => self.abbreviated.clone(),
                        };
                        self.phase = Phase::Persisting(slot);
                        Action::Persist(SlotWrite { slot, text: fetched })
                    } else {
                        self.leave_slot(slot, false)
                    }
                },
                _ => self.halt(ErrorKind::StorageRead),
            },
            Phase::Persisting(slot) => match event {
                Event::Persisted => self.leave_slot(slot, true),
                _ => self.halt(ErrorKind::StorageWrite),
            },
            Phase::Notifying => match event {
                Event::Notified => self.fall_asleep(),
                _ => self.halt(ErrorKind::Retrieval),
            },
            Phase::Sleeping => {
                self.phase = Phase::Fetching;
                Action::Fetch
            },
            Phase::Halted(kind) => Action::Abort { kind },
        }
    }

    fn halt(&mut self, kind: ErrorKind) -> (action: Action)
        ensures
            (final(self)@, action@) == halt(old(self)@, kind),
    {
        self.phase = Phase::Halted(kind);
        Action::Abort { kind }
    }

    fn fall_asleep(&mut self) -> (action: Action)
        ensures
            (final(self)@, action@) == fall_asleep(old(self)@),
    {
        self.phase = Phase::Sleeping;
        self.full = String::new();
        self.abbreviated = String::new();
        Action::Sleep { seconds: self.config.poll_interval_secs() }
    }

    fn create_next(&mut self) -> (action: Action)
        ensures
            (final(self)@, action@) == create_next(old(self)@),
    {
        if self.pending.len() > 0 {
            let write: SlotWrite = self.pending.remove(0);
            self.phase = Phase::Creating;
            proof {
                assert(self.pending.deep_view() =~= old(self).pending.deep_view().drop_first());
            }
            Action::Persist(write)
        } else {
            self.phase = Phase::Detecting(SlotName::Full);
            Action::Read { slot: SlotName::Full }
        }
    }

    fn leave_slot(&mut self, slot: SlotName, written: bool) -> (action: Action)
        ensures
            (final(self)@, action@) == leave_slot(old(self)@, slot, written),
    {
        match slot {
            SlotName::Full => {
                self.phase = Phase::Detecting(SlotName::Abbreviated);
                Action::Read { slot: SlotName::Abbreviated }
            },
            SlotName::Abbreviated => match self.config.notification_endpoint() {
                Some(endpoint) if written => {
                    let chunks: Vec<String> = chunk(
                        self.abbreviated.as_str(),
                        self.config.chunk_max_length(),
                    );
                    self.phase = Phase::Notifying;
                    Action::Notify { endpoint, chunks }
                },
                _ => self.fall_asleep(),
            },
        }
    }
}

} // verus!
