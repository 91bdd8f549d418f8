//! The color state and its operations.

use crate::color::Color;
use crate::event::RenderEvent;
use crate::model::{Command, StateView, HISTORY_CAPACITY};
use crate::random::random_color;
use rand::rngs::StdRng;
use std::collections::VecDeque;
use vstd::prelude::*;

verus! {

/// The state of the engine: the primary color, the reference color and
/// the history of primary colors, oldest first.
pub struct ColorState {
    primary: Color,
    reference: Color,
    history: VecDeque<Color>,
}

impl View for ColorState {
    type V = StateView;

    closed spec fn view(&self) -> StateView {
        StateView { primary: self.primary, reference: self.reference, history: self.history@ }
    }
}

impl ColorState {
    /// Every state is well-formed, at all times.
    #[verifier::type_invariant]
    spec fn inv(self) -> bool {
        self@.wf()
    }

    /// The state in which a session starts: mid gray on display, black as
    /// the reference, and an empty history.
    pub fn new() -> (state: ColorState)
        ensures
            state@ == StateView::initial(),
            state@.wf(),
    {
        ColorState {
            primary: Color { red: 128, green: 128, blue: 128 },
            reference: Color { red: 0, green: 0, blue: 0 },
            history: VecDeque::with_capacity(HISTORY_CAPACITY),
        }
    }

    /// Sets the primary color and says what to render.
    pub fn set_primary(&mut self, color: Color) -> (events: Vec<RenderEvent>)
        ensures
            final(self)@ == old(self)@.set_primary(color),
            final(self)@.wf(),
            events.deep_view() == old(self)@.set_primary_events(color),
    {
        proof {
            use_type_invariant(&*self);
        }
        let mut events: Vec<RenderEvent> = Vec::new();
        if color == self.primary {
            return events;
        }
        let hex = color.hex();
        events.push(RenderEvent::BackgroundChanged(hex.clone()));
        events.push(
            RenderEvent::NavbarGradientChanged {
                from: Color { red: 255, green: 255, blue: 255 },
                to: color,
            },
        );
        events.push(RenderEvent::BottomGradientChanged { from: color, to: self.reference });
        events.push(RenderEvent::HistoryAppended(hex));
        let mut history: VecDeque<Color> = VecDeque::new();
        std::mem::swap(&mut history, &mut self.history);
        if history.len() >= HISTORY_CAPACITY {
            history.pop_front();
            events.push(RenderEvent::HistoryEvicted);
        }
        history.push_back(color);
        self.primary = color;
        self.history = history;
        assert(self@.history =~= old(self)@.set_primary(color).history);
        events
    }

    /// Sets the primary color as `set_primary` does, and has the primary
    /// input fields overwritten with it. The fields are written whether or
    /// not the color was already shown.
    pub fn set_primary_and_sync(&mut self, color: Color) -> (events: Vec<RenderEvent>)
        ensures
            final(self)@ == old(self)@.set_primary(color),
            final(self)@.wf(),
            events.deep_view() == old(self)@.set_primary_and_sync_events(color),
    {
        let mut events = self.set_primary(color);
        events.push(RenderEvent::InputFieldsSynced(color));
        events
    }

    /// Moves the primary color one blend step toward `toward`: each channel
    /// becomes seven parts of its own value and one part of the other's,
    /// divided by eight and rounded down. The reference color of the state
    /// plays no part and stays as it is.
    pub fn smash(&mut self, toward: Color) -> (events: Vec<RenderEvent>)
        ensures
            final(self)@ == old(self)@.smash(toward),
            final(self)@.wf(),
            events.deep_view() == old(self)@.smash_events(toward),
    {
        let mixed = self.primary.mix(toward);
        self.set_primary_and_sync(mixed)
    }

    /// Sets the reference color. Only the bottom gradient is redrawn; the
    /// primary color and the history stay as they are.
    pub fn set_reference(&mut self, color: Color) -> (events: Vec<RenderEvent>)
        ensures
            final(self)@ == old(self)@.set_reference(color),
            final(self)@.wf(),
            events.deep_view() == old(self)@.set_reference_events(color),
    {
        proof {
            use_type_invariant(&*self);
        }
        self.reference = color;
        let mut events: Vec<RenderEvent> = Vec::new();
        events.push(RenderEvent::BottomGradientChanged { from: self.primary, to: color });
        events
    }

    /// Sets the reference color as `set_reference` does, and has the
    /// reference input fields overwritten with it.
    pub fn set_reference_and_sync(&mut self, color: Color) -> (events: Vec<RenderEvent>)
        ensures
            final(self)@ == old(self)@.set_reference(color),
            final(self)@.wf(),
            events.deep_view() == old(self)@.set_reference_and_sync_events(color),
    {
        let mut events = self.set_reference(color);
        events.push(RenderEvent::ReferenceFieldsSynced(color));
        events
    }

    /// Draws a color from `rng` and sets it as the primary color, as
    /// `set_primary_and_sync` does. Whatever color is drawn, the state and
    /// the events are those of setting that color; the reference color
    /// stays as it is.
    pub fn randomize_primary(&mut self, rng: &mut StdRng) -> (events: Vec<RenderEvent>)
        ensures
            exists|color: Color|
                {
                    &&& final(self)@ == #[trigger] old(self)@.set_primary(color)
                    &&& events.deep_view() == old(self)@.set_primary_and_sync_events(color)
                },
            final(self)@.wf(),
            final(self)@.reference == old(self)@.reference,
    {
        let color = random_color(rng);
        self.set_primary_and_sync(color)
    }

    /// Draws a color from `rng` and sets it as the reference color, as
    /// `set_reference_and_sync` does. Whatever color is drawn, the state and
    /// the events are those of setting that color; the primary color and
    /// the history stay as they are.
    pub fn randomize_reference(&mut self, rng: &mut StdRng) -> (events: Vec<RenderEvent>)
        ensures
            exists|color: Color|
                {
                    &&& final(self)@ == #[trigger] old(self)@.set_reference(color)
                    &&& events.deep_view() == old(self)@.set_reference_and_sync_events(color)
                },
            final(self)@.wf(),
            final(self)@.primary == old(self)@.primary,
            final(self)@.history == old(self)@.history,
    {
        let color = random_color(rng);
        self.set_reference_and_sync(color)
    }

    /// Carries out `command` and says what to render.
    pub fn dispatch(&mut self, command: Command) -> (events: Vec<RenderEvent>)
        ensures
            final(self)@ == old(self)@.apply(command),
            final(self)@.wf(),
            events.deep_view() == old(self)@.events(command),
    {
        match command {
            Command::SetPrimary(color) => self.set_primary(color),
            Command::SetPrimaryAndSync(color) => self.set_primary_and_sync(color),
            Command::Smash(toward) => self.smash(toward),
            Command::SetReference(color) => self.set_reference(color),
        }
    }

    /// The color on display.
    pub fn primary(&self) -> (color: Color)
        ensures
            color == self@.primary,
    {
        self.primary
    }

    /// The color that the bottom gradient fades into.
    pub fn reference(&self) -> (color: Color)
        ensures
            color == self@.reference,
    {
        self.reference
    }

    /// The primary colors that were set, oldest first: sixteen at most, the
    /// newest of them the color on display.
    pub fn history(&self) -> (history: &VecDeque<Color>)
        ensures
            history@ == self@.history,
            self@.wf(),
    {
        proof {
            use_type_invariant(self);
        }
        &self.history
    }
}

} // verus!
