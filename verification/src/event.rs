//! Render events: what the presentation layer is told to do after a change
//! of state.

use crate::color::Color;
use vstd::prelude::*;

verus! {

/// One instruction to the presentation layer. An event describes a change
/// to make; the engine makes none itself.
#[derive(Debug, PartialEq, Eq)]
pub enum RenderEvent {
    /// Fill the page background with the color of this hex code.
    BackgroundChanged(String),
    /// Redraw the navigation bar as a gradient between the two colors.
    NavbarGradientChanged { from: Color, to: Color },
    /// Redraw the bottom bar as a gradient between the two colors.
    BottomGradientChanged { from: Color, to: Color },
    /// Add a swatch with this hex code at the end of the history.
    HistoryAppended(String),
    /// Discard the oldest swatch of the history.
    HistoryEvicted,
    /// Overwrite the three input fields of the primary color with the
    /// channels of this color, in decimal.
    InputFieldsSynced(Color),
    /// Overwrite the three input fields of the reference color with the
    /// channels of this color, in decimal.
    ReferenceFieldsSynced(Color),
}

/// What a render event holds, with texts as sequences of characters. The
/// variants are those of [`RenderEvent`].
pub enum EventView {
    BackgroundChanged(Seq<char>),
    NavbarGradientChanged { from: Color, to: Color },
    BottomGradientChanged { from: Color, to: Color },
    HistoryAppended(Seq<char>),
    HistoryEvicted,
    InputFieldsSynced(Color),
    ReferenceFieldsSynced(Color),
}

impl View for RenderEvent {
    type V = EventView;

    open spec fn view(&self) -> EventView {
        match *self {
            RenderEvent::BackgroundChanged(hex) => EventView::BackgroundChanged(hex@),
            RenderEvent::NavbarGradientChanged { from, to } => EventView::NavbarGradientChanged {
                from,
                to,
            },
            RenderEvent::BottomGradientChanged { from, to } => EventView::BottomGradientChanged {
                from,
                to,
            },
            RenderEvent::HistoryAppended(hex) => EventView::HistoryAppended(hex@),
            RenderEvent::HistoryEvicted => EventView::HistoryEvicted,
            RenderEvent::InputFieldsSynced(color) => EventView::InputFieldsSynced(color),
            RenderEvent::ReferenceFieldsSynced(color) => EventView::ReferenceFieldsSynced(color),
        }
    }
}

impl DeepView for RenderEvent {
    type V = EventView;

    open spec fn deep_view(&self) -> EventView {
        self@
    }
}

} // verus!
