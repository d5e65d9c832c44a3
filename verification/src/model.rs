//! What a polling cycle does to the storage, proved of the machine.
//!
//! Nothing here is executable. [`World`] is the storage and the streams as
//! the caller's side would leave them if no action ever failed, [`answer`]
//! is how such a world answers an action, and [`cycle`] runs the machine of
//! [`crate::poll`] against it from one fetch to the next pause.

use crate::chunker::chunks_of;
use crate::error::ErrorKind;
use crate::fingerprint::fingerprint;
use crate::poll::{transition, ActionView, EventView, Phase, PollLoopView};
use crate::slot::{bootstrap_plan, SlotName, SlotWriteView};
use vstd::prelude::*;

verus! {

/// The storage and the streams that the machine's actions work on.
pub struct World {
    /// The text stored in the slot of the full forecast; `None` while the
    /// storage of that slot does not exist.
    pub full: Option<Seq<char>>,
    /// The same for the condensed forecast.
    pub abbreviated: Option<Seq<char>>,
    /// Every write performed so far, oldest first. The observation stream
    /// has received the text of each, in this order.
    pub persisted: Seq<SlotWriteView>,
    /// Every notification handed over so far, each with its fragments.
    pub notified: Seq<Seq<Seq<char>>>,
}

impl World {
    /// The text that the slot holds, if its storage exists.
    pub open spec fn stored(self, slot: SlotName) -> Option<Seq<char>> {
        match slot {
            SlotName::Full => self.full,
            SlotName::Abbreviated => self.abbreviated,
        }
    }

    /// The world after `write` was performed: the text is on the stream and
    /// is all that the slot holds.
    pub open spec fn persist(self, write: SlotWriteView) -> World {
        match write.slot {
            SlotName::Full => World {
                full: Some(write.text),
                persisted: self.persisted.push(write),
                ..self
            },
            SlotName::Abbreviated => World {
                abbreviated: Some(write.text),
                persisted: self.persisted.push(write),
                ..self
            },
        }
    }

    /// What the observation stream has received, oldest first.
    pub open spec fn stream(self) -> Seq<Seq<char>> {
        self.persisted.map_values(|write: SlotWriteView| write.text)
    }
}

/// How a world in which nothing fails answers an action: what it is
/// afterwards and what it reports. Reading a slot without storage is the one
/// thing that fails even there. The actions that no storage can answer, a
/// fetch and an abort, are reported as failed.
pub open spec fn answer(world: World, action: ActionView) -> (World, EventView) {
    match action {
        ActionView::Probe => (
            world,
            EventView::Probed {
                full_exists: world.full is Some,
                abbreviated_exists: world.abbreviated is Some,
            },
        ),
        ActionView::Read { slot } => match world.stored(slot) {
            Some(text) => (world, EventView::Stored { text }),
            None => (world, EventView::Failed),
        },
        ActionView::Persist(write) => (world.persist(write), EventView::Persisted),
        ActionView::Notify { endpoint, chunks } => (
            World { notified: world.notified.push(chunks), ..world },
            EventView::Notified,
        ),
        ActionView::Sleep { seconds } => (world, EventView::Woke),
        ActionView::Fetch => (world, EventView::Failed),
        ActionView::Abort { kind } => (world, EventView::Failed),
    }
}

/// Whether the action ends a cycle: the pause, the fetch of the next cycle,
/// or the end of the process.
pub open spec fn ends_cycle(action: ActionView) -> bool {
    action is Sleep || action is Fetch || action is Abort
}

/// No cycle takes more actions than this between its fetch and its pause.
pub open spec fn cycle_bound() -> nat {
    6
}

/// Lets the world answer `action` and the machine react, again and again,
/// until an action ends the cycle or `steps` actions were performed.
pub open spec fn run(state: PollLoopView, world: World, action: ActionView, steps: nat) -> (
    PollLoopView,
    World,
    ActionView,
)
    decreases steps,
{
    if steps == 0 || ends_cycle(action) {
        (state, world, action)
    } else {
        let (answered, event) = answer(world, action);
        let (next, reaction) = transition(state, event);
        run(next, answered, reaction, (steps - 1) as nat)
    }
}

/// One cycle: the machine receives the fetched forecasts and is run against
/// the world. The result is the machine and the world at the end, and the
/// action that ended the cycle.
pub open spec fn cycle(
    state: PollLoopView,
    world: World,
    full: Seq<char>,
    abbreviated: Seq<char>,
) -> (PollLoopView, World, ActionView) {
    let (next, reaction) = transition(state, EventView::Fetched { full, abbreviated });
    run(next, world, reaction, cycle_bound())
}

/// Whether change detection replaces what a slot holds: the slot has a
/// stored text, and the fetched text has another fingerprint.
pub open spec fn is_replaced(stored: Option<Seq<char>>, fetched: Seq<char>) -> bool {
    stored matches Some(text) && fingerprint(fetched) != fingerprint(text)
}

/// What a slot holds after a cycle: the fetched text where the slot was
/// missing or its text is replaced, else what it held before.
pub open spec fn settled(stored: Option<Seq<char>>, fetched: Seq<char>) -> Seq<char> {
    match stored {
        Some(text) if fingerprint(fetched) == fingerprint(text) => text,
        _ => fetched,
    }
}

/// The write by which change detection replaces a slot's text, if it does.
pub open spec fn replacement(slot: SlotName, stored: Option<Seq<char>>, fetched: Seq<char>) -> Seq<
    SlotWriteView,
> {
    if is_replaced(stored, fetched) {
        seq![SlotWriteView { slot, text: fetched }]
    } else {
        Seq::empty()
    }
}

/// The writes of one cycle, in order: first what creates the missing slots,
/// then what replaces the full forecast, then what replaces the condensed
/// one.
pub open spec fn cycle_writes(world: World, full: Seq<char>, abbreviated: Seq<char>) -> Seq<
    SlotWriteView,
> {
    bootstrap_plan(full, abbreviated, world.full is Some, world.abbreviated is Some)
        + replacement(SlotName::Full, world.full, full) + replacement(
        SlotName::Abbreviated,
        world.abbreviated,
        abbreviated,
    )
}

/// The text fetched for the slot.
pub open spec fn fetched_for(slot: SlotName, full: Seq<char>, abbreviated: Seq<char>) -> Seq<char> {
    match slot {
        SlotName::Full => full,
        SlotName::Abbreviated => abbreviated,
    }
}

/// The writes among `writes` that go to the slot, in order.
pub open spec fn writes_to(writes: Seq<SlotWriteView>, slot: SlotName) -> Seq<SlotWriteView> {
    writes.filter(|write: SlotWriteView| write.slot == slot)
}

/// The notifications of one cycle: the fragments of the condensed forecast,
/// once, if that forecast replaced a stored one and an endpoint is
/// configured; else none.
pub open spec fn cycle_notifications(
    state: PollLoopView,
    world: World,
    abbreviated: Seq<char>,
) -> Seq<Seq<Seq<char>>> {
    if is_replaced(world.abbreviated, abbreviated) && state.config.notification_endpoint is Some {
        seq![chunks_of(abbreviated, state.config.chunk_max_length as nat)]
    } else {
        Seq::empty()
    }
}

/// A cycle in a world where nothing fails ends in the pause of the
/// configured length, with each slot holding its settled text, and having
/// performed exactly the cycle's writes and notifications.
pub proof fn lemma_cycle(
    state: PollLoopView,
    world: World,
    full: Seq<char>,
    abbreviated: Seq<char>,
)
    requires
        state.phase == Phase::Fetching,
    ensures
        cycle(state, world, full, abbreviated).2 == (ActionView::Sleep {
            seconds: state.config.poll_interval_secs,
        }),
        cycle(state, world, full, abbreviated).0.phase == Phase::Sleeping,
        cycle(state, world, full, abbreviated).0.config == state.config,
        cycle(state, world, full, abbreviated).1 == (World {
            full: Some(settled(world.full, full)),
            abbreviated: Some(settled(world.abbreviated, abbreviated)),
            persisted: world.persisted + cycle_writes(world, full, abbreviated),
            notified: world.notified + cycle_notifications(state, world, abbreviated),
        }),
{
    reveal_with_fuel(run, 7);
    let end = cycle(state, world, full, abbreviated).1;
    assert(end.persisted =~= world.persisted + cycle_writes(world, full, abbreviated));
    assert(end.notified =~= world.notified + cycle_notifications(state, world, abbreviated));
}

/// A cycle writes to a slot at most once: the fetched text, if the slot was
/// missing or its text is replaced.
proof fn lemma_cycle_writes_to(
    world: World,
    full: Seq<char>,
    abbreviated: Seq<char>,
    slot: SlotName,
)
    ensures
        writes_to(cycle_writes(world, full, abbreviated), slot) == if world.stored(slot) is None
            || is_replaced(world.stored(slot), fetched_for(slot, full, abbreviated)) {
            seq![SlotWriteView { slot, text: fetched_for(slot, full, abbreviated) }]
        } else {
            Seq::<SlotWriteView>::empty()
        },
{
    let to_slot = |write: SlotWriteView| write.slot == slot;
    let created = bootstrap_plan(full, abbreviated, world.full is Some, world.abbreviated is Some);
    let first = replacement(SlotName::Full, world.full, full);
    let second = replacement(SlotName::Abbreviated, world.abbreviated, abbreviated);
    reveal_with_fuel(Seq::filter, 3);
    Seq::filter_distributes_over_add(created + first, second, to_slot);
    Seq::filter_distributes_over_add(created, first, to_slot);
    assert(created.filter(to_slot) + first.filter(to_slot) + second.filter(to_slot) =~= if world.stored(
        slot,
    ) is None || is_replaced(world.stored(slot), fetched_for(slot, full, abbreviated)) {
        seq![SlotWriteView { slot, text: fetched_for(slot, full, abbreviated) }]
    } else {
        Seq::<SlotWriteView>::empty()
    });
}

/// A slot that already holds the fetched text is left alone: after the cycle
/// it holds what it held, and the cycle has made no write to it, so the
/// observation stream has received nothing on its account.
pub proof fn lemma_unchanged_slot_is_left_alone(
    state: PollLoopView,
    world: World,
    full: Seq<char>,
    abbreviated: Seq<char>,
    slot: SlotName,
)
    requires
        state.phase == Phase::Fetching,
        world.stored(slot) == Some(fetched_for(slot, full, abbreviated)),
    ensures
        cycle(state, world, full, abbreviated).1.stored(slot) == world.stored(slot),
        writes_to(cycle(state, world, full, abbreviated).1.persisted, slot) == writes_to(
            world.persisted,
            slot,
        ),
{
    lemma_cycle(state, world, full, abbreviated);
    lemma_cycle_writes_to(world, full, abbreviated, slot);
    Seq::filter_distributes_over_add(
        world.persisted,
        cycle_writes(world, full, abbreviated),
        |write: SlotWriteView| write.slot == slot,
    );
}

/// A slot whose stored text has another fingerprint than the fetched text is
/// overwritten with exactly the fetched text, in a single write.
pub proof fn lemma_changed_slot_is_overwritten(
    state: PollLoopView,
    world: World,
    full: Seq<char>,
    abbreviated: Seq<char>,
    slot: SlotName,
)
    requires
        state.phase == Phase::Fetching,
        world.stored(slot) matches Some(text) && fingerprint(text) != fingerprint(
            fetched_for(slot, full, abbreviated),
        ),
    ensures
        cycle(state, world, full, abbreviated).1.stored(slot) == Some(
            fetched_for(slot, full, abbreviated),
        ),
        writes_to(cycle(state, world, full, abbreviated).1.persisted, slot) == writes_to(
            world.persisted,
            slot,
        ).push(SlotWriteView { slot, text: fetched_for(slot, full, abbreviated) }),
{
    lemma_cycle(state, world, full, abbreviated);
    lemma_cycle_writes_to(world, full, abbreviated, slot);
    Seq::filter_distributes_over_add(
        world.persisted,
        cycle_writes(world, full, abbreviated),
        |write: SlotWriteView| write.slot == slot,
    );
}

/// A slot without storage is created holding the fetched text, in a single
/// write, and no fingerprint is consulted for it.
pub proof fn lemma_missing_slot_is_created(
    state: PollLoopView,
    world: World,
    full: Seq<char>,
    abbreviated: Seq<char>,
    slot: SlotName,
)
    requires
        state.phase == Phase::Fetching,
        world.stored(slot) is None,
    ensures
        cycle(state, world, full, abbreviated).1.stored(slot) == Some(
            fetched_for(slot, full, abbreviated),
        ),
        writes_to(cycle(state, world, full, abbreviated).1.persisted, slot) == writes_to(
            world.persisted,
            slot,
        ).push(SlotWriteView { slot, text: fetched_for(slot, full, abbreviated) }),
{
    lemma_cycle(state, world, full, abbreviated);
    lemma_cycle_writes_to(world, full, abbreviated, slot);
    Seq::filter_distributes_over_add(
        world.persisted,
        cycle_writes(world, full, abbreviated),
        |write: SlotWriteView| write.slot == slot,
    );
}

/// Polling is idempotent: a second cycle that fetches the same texts as the
/// first changes nothing in the world.
pub proof fn lemma_repeated_cycle_changes_nothing(
    state: PollLoopView,
    world: World,
    full: Seq<char>,
    abbreviated: Seq<char>,
)
    requires
        state.phase == Phase::Fetching,
    ensures
        ({
            let (slept, after, _) = cycle(state, world, full, abbreviated);
            let (woken, _) = transition(slept, EventView::Woke);
            cycle(woken, after, full, abbreviated).1 == after
        }),
{
    lemma_cycle(state, world, full, abbreviated);
    let (slept, after, _) = cycle(state, world, full, abbreviated);
    let (woken, _) = transition(slept, EventView::Woke);
    lemma_cycle(woken, after, full, abbreviated);
    assert(cycle_writes(after, full, abbreviated) =~= Seq::<SlotWriteView>::empty());
    assert(after.persisted + cycle_writes(after, full, abbreviated) =~= after.persisted);
    assert(after.notified + cycle_notifications(woken, after, abbreviated) =~= after.notified);
}

} // verus!
