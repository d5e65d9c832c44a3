//! The two storage slots, and the writes that create them on a first run.

use vstd::prelude::*;

verus! {

/// One of the two persisted variants of the forecast.
#[derive(Clone, Copy, Debug, PartialEq, Eq, Hash, Structural)]
pub enum SlotName {
    /// The detailed forecast.
    Full,
    /// The condensed forecast.
    Abbreviated,
}

/// The order to replace the whole content of a slot by `text`, after `text`
/// has been emitted to the observation stream.
#[derive(Debug, PartialEq, Eq)]
pub struct SlotWrite {
    pub slot: SlotName,
    pub text: String,
}

/// A [`SlotWrite`] as contracts see it.
pub struct SlotWriteView {
    pub slot: SlotName,
    pub text: Seq<char>,
}

impl View for SlotWrite {
    type V = SlotWriteView;

    open spec fn view(&self) -> SlotWriteView {
        SlotWriteView { slot: self.slot, text: self.text@ }
    }
}

impl DeepView for SlotWrite {
    type V = SlotWriteView;

    open spec fn deep_view(&self) -> SlotWriteView {
        self@
    }
}

/// The writes that bring every missing slot into being: a slot whose storage
/// does not exist receives the text fetched for it, a slot that exists is left
/// alone, whatever it holds. The full forecast comes first.
pub open spec fn bootstrap_plan(
    full_forecast: Seq<char>,
    abbreviated_forecast: Seq<char>,
    full_exists: bool,
    abbreviated_exists: bool,
) -> Seq<SlotWriteView> {
    let full = if full_exists {
        Seq::<SlotWriteView>::empty()
    } else {
        seq![SlotWriteView { slot: SlotName::Full, text: full_forecast }]
    };
    let abbreviated = if abbreviated_exists {
        Seq::<SlotWriteView>::empty()
    } else {
        seq![SlotWriteView { slot: SlotName::Abbreviated, text: abbreviated_forecast }]
    };
    full + abbreviated
}

/// Plans the first-run writes from the fetched texts and from what the caller
/// found out about the storage of each slot.
///
/// The caller performs the returned writes in order. The content of a slot
/// that exists is neither read nor judged here.
pub fn setup(
    full_forecast: &String,
    abbreviated_forecast: &String,
    full_exists: bool,
    abbreviated_exists: bool,
) -> (writes: Vec<SlotWrite>)
    ensures
        writes.deep_view() == bootstrap_plan(
            full_forecast@,
            abbreviated_forecast@,
            full_exists,
            abbreviated_exists,
        ),
{
    let mut writes: Vec<SlotWrite> = Vec::new();
    if !full_exists {
        writes.push(SlotWrite { slot: SlotName::Full, text: full_forecast.clone() });
    }
    if !abbreviated_exists {
        writes.push(SlotWrite { slot: SlotName::Abbreviated, text: abbreviated_forecast.clone() });
    }
    assert(writes.deep_view() =~= bootstrap_plan(
        full_forecast@,
        abbreviated_forecast@,
        full_exists,
        abbreviated_exists,
    ));
    writes
}

} // verus!
