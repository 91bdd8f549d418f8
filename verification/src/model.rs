//! The mathematical model of the color state: its three components, the
//! condition that every reachable state meets, and what each command makes
//! of a state.

use crate::color::{blend, Color};
use crate::event::EventView;
use crate::text::hex_code;
use vstd::prelude::*;

verus! {

/// The number of colors that the history holds at most.
pub const HISTORY_CAPACITY: usize = 16;

/// The primary color of a fresh state: mid gray.
pub open spec fn initial_primary() -> Color {
    Color { red: 128, green: 128, blue: 128 }
}

/// The reference color of a fresh state: black.
pub open spec fn initial_reference() -> Color {
    Color { red: 0, green: 0, blue: 0 }
}

/// Opaque white, from which the navigation bar's gradient starts.
pub open spec fn white() -> Color {
    Color { red: 255, green: 255, blue: 255 }
}

/// The last `n` items of `s`, in their order; all of `s` where it has no
/// more than `n`.
pub open spec fn keep_last(s: Seq<Color>, n: nat) -> Seq<Color> {
    if s.len() <= n {
        s
    } else {
        s.subrange(s.len() - n, s.len() as int)
    }
}

/// A command of the presentation layer to the engine.
#[derive(Clone, Copy, Debug, PartialEq, Eq, Structural)]
pub enum Command {
    /// Show this color.
    SetPrimary(Color),
    /// Show this color and write it into the primary input fields.
    SetPrimaryAndSync(Color),
    /// Blend the primary color one step toward this color.
    Smash(Color),
    /// Let the bottom gradient fade into this color.
    SetReference(Color),
}

/// The state of the engine as plain mathematical values.
pub struct StateView {
    /// The color on display.
    pub primary: Color,
    /// The color that the bottom gradient fades into.
    pub reference: Color,
    /// The primary colors that were set, oldest first.
    pub history: Seq<Color>,
}

impl StateView {
    /// The state in which a session starts.
    pub open spec fn initial() -> StateView {
        StateView {
            primary: initial_primary(),
            reference: initial_reference(),
            history: Seq::empty(),
        }
    }

    /// What holds of every state that a session can reach: the history is
    /// within its capacity, its newest entry is the primary color, and no
    /// entry repeats the one before it.
    pub open spec fn wf(self) -> bool {
        &&& self.history.len() <= HISTORY_CAPACITY
        &&& self.history.len() > 0 ==> self.history.last() == self.primary
        &&& forall|i: int|
            0 <= i < self.history.len() - 1 ==> self.history[i] != #[trigger] self.history[i + 1]
    }

    /// The state after the primary color is set to `color`. Setting the
    /// color that is already shown changes nothing; any other color is
    /// shown and joins the history, whose oldest entry leaves where the
    /// capacity would be exceeded.
    pub open spec fn set_primary(self, color: Color) -> StateView {
        if color == self.primary {
            self
        } else {
            StateView {
                primary: color,
                reference: self.reference,
                history: keep_last(self.history.push(color), HISTORY_CAPACITY as nat),
            }
        }
    }

    /// The events of setting the primary color to `color`: none where the
    /// color is already shown; else the background, the two gradients, the
    /// new swatch and, where the history was full, the eviction of the
    /// oldest swatch.
    pub open spec fn set_primary_events(self, color: Color) -> Seq<EventView> {
        if color == self.primary {
            Seq::empty()
        } else {
            let shown = seq![
                EventView::BackgroundChanged(hex_code(color)),
                EventView::NavbarGradientChanged { from: white(), to: color },
                EventView::BottomGradientChanged { from: color, to: self.reference },
                EventView::HistoryAppended(hex_code(color)),
            ];
            if self.history.len() >= HISTORY_CAPACITY {
                shown.push(EventView::HistoryEvicted)
            } else {
                shown
            }
        }
    }

    /// The events of setting the primary color and writing it into the
    /// input fields. The fields are written even where the color was
    /// already shown.
    pub open spec fn set_primary_and_sync_events(self, color: Color) -> Seq<EventView> {
        self.set_primary_events(color).push(EventView::InputFieldsSynced(color))
    }

    /// The state after a blend step of the primary color toward `toward`.
    pub open spec fn smash(self, toward: Color) -> StateView {
        self.set_primary(blend(self.primary, toward))
    }

    /// The events of a blend step toward `toward`.
    pub open spec fn smash_events(self, toward: Color) -> Seq<EventView> {
        self.set_primary_and_sync_events(blend(self.primary, toward))
    }

    /// The state after the reference color is set to `color`.
    pub open spec fn set_reference(self, color: Color) -> StateView {
        StateView { primary: self.primary, reference: color, history: self.history }
    }

    /// The events of setting the reference color: the bottom gradient, and
    /// nothing else.
    pub open spec fn set_reference_events(self, color: Color) -> Seq<EventView> {
        seq![EventView::BottomGradientChanged { from: self.primary, to: color }]
    }

    /// The events of setting the reference color and writing it into the
    /// reference input fields.
    pub open spec fn set_reference_and_sync_events(self, color: Color) -> Seq<EventView> {
        self.set_reference_events(color).push(EventView::ReferenceFieldsSynced(color))
    }

    /// The state after `steps` blend steps toward the same color.
    pub open spec fn smash_times(self, toward: Color, steps: nat) -> StateView
        decreases steps,
    {
        if steps == 0 {
            self
        } else {
            self.smash_times(toward, (steps - 1) as nat).smash(toward)
        }
    }

    /// The state after the primary color is set to each of `colors` in
    /// turn, the first of them first.
    pub open spec fn set_primary_all(self, colors: Seq<Color>) -> StateView
        decreases colors.len(),
    {
        if colors.len() == 0 {
            self
        } else {
            self.set_primary_all(colors.drop_last()).set_primary(colors.last())
        }
    }

    /// The state after `command`.
    pub open spec fn apply(self, command: Command) -> StateView {
        match command {
            Command::SetPrimary(color) => self.set_primary(color),
            Command::SetPrimaryAndSync(color) => self.set_primary(color),
            Command::Smash(toward) => self.smash(toward),
            Command::SetReference(color) => self.set_reference(color),
        }
    }

    /// The events of `command`.
    pub open spec fn events(self, command: Command) -> Seq<EventView> {
        match command {
            Command::SetPrimary(color) => self.set_primary_events(color),
            Command::SetPrimaryAndSync(color) => self.set_primary_and_sync_events(color),
            Command::Smash(toward) => self.smash_events(toward),
            Command::SetReference(color) => self.set_reference_events(color),
        }
    }
}

} // verus!
