//! Laws of the color state, proved of the model that the operations are
//! specified by.

use crate::color::{blend_channel, blend_channel_times, Color};
use crate::event::EventView;
use crate::model::{keep_last, Command, StateView, HISTORY_CAPACITY};
use crate::parse::{all_digits, channel_value, digit_value, digits_value, is_digit};
use crate::text::{decimal_text, digit_char, number_text};
use vstd::prelude::*;

verus! {

/// Whether no color of `colors` repeats the one before it.
pub open spec fn changes_each_time(colors: Seq<Color>) -> bool {
    forall|i: int| 0 <= i < colors.len() - 1 ==> colors[i] != #[trigger] colors[i + 1]
}

/// The colors of `colors` that change the display when they are set in
/// turn on a state that shows `primary`, given that no color of `colors`
/// repeats the one before it: all of them, but for a first one that is
/// already shown.
pub open spec fn effective(primary: Color, colors: Seq<Color>) -> Seq<Color> {
    if colors.len() > 0 && colors[0] == primary {
        colors.drop_first()
    } else {
        colors
    }
}

/// A session starts in a well-formed state.
pub proof fn lemma_initial_wf()
    ensures
        StateView::initial().wf(),
{
}

/// Every command leaves a well-formed state well-formed. In particular the
/// history never grows beyond its capacity.
pub proof fn lemma_apply_preserves_wf(s: StateView, command: Command)
    requires
        s.wf(),
    ensures
        s.apply(command).wf(),
        s.apply(command).history.len() <= HISTORY_CAPACITY,
{
}

/// Setting the same color twice in a row changes the state once: the
/// second call leaves the state as the first made it, the history
/// included, and has nothing rendered.
pub proof fn lemma_set_primary_twice(s: StateView, color: Color)
    ensures
        s.set_primary(color).set_primary(color) == s.set_primary(color),
        s.set_primary(color).set_primary_events(color) == Seq::<EventView>::empty(),
{
}

/// Setting the color that is shown changes nothing and has nothing
/// rendered.
pub proof fn lemma_set_primary_same(s: StateView)
    ensures
        s.set_primary(s.primary) == s,
        s.set_primary_events(s.primary) == Seq::<EventView>::empty(),
{
}

/// A color other than the one shown joins the history as its newest entry
/// and lengthens it by one, unless the history is full: then the oldest
/// entry leaves and the others move up.
pub proof fn lemma_set_primary_appends(s: StateView, color: Color)
    requires
        s.wf(),
        color != s.primary,
    ensures
        s.set_primary(color).primary == color,
        s.set_primary(color).history.last() == color,
        s.history.len() < HISTORY_CAPACITY ==> s.set_primary(color).history == s.history.push(
            color,
        ),
        s.history.len() == HISTORY_CAPACITY ==> s.set_primary(color).history
            == s.history.drop_first().push(color),
{
}

/// The history is first in, first out: after colors are set in turn, none
/// repeating the one before it, the history holds the newest of the old
/// entries and of the colors that changed the display, as many as the
/// capacity allows, oldest first; and the newest color is shown.
pub proof fn lemma_history_fifo(s: StateView, colors: Seq<Color>)
    requires
        s.wf(),
        changes_each_time(colors),
    ensures
        s.set_primary_all(colors).wf(),
        s.set_primary_all(colors).reference == s.reference,
        s.set_primary_all(colors).primary == if colors.len() == 0 {
            s.primary
        } else {
            colors.last()
        },
        s.set_primary_all(colors).history == keep_last(
            s.history + effective(s.primary, colors),
            HISTORY_CAPACITY as nat,
        ),
    decreases colors.len(),
{
    if colors.len() > 0 {
        let earlier = colors.drop_last();
        let newest = colors.last();
        assert(changes_each_time(earlier));
        lemma_history_fifo(s, earlier);
        let kept = s.history + effective(s.primary, earlier);
        if earlier.len() == 0 {
            assert(newest != s.primary ==> effective(s.primary, colors) =~= seq![newest]);
        } else {
            assert(earlier.last() != colors[colors.len() - 2 + 1]);
            assert(s.history + effective(s.primary, colors) =~= kept.push(newest));
        }
    }
}

/// Once more colors than the history holds were set in turn, none
/// repeating the one before it, the history is exactly the newest of them,
/// as many as the capacity allows, oldest first, whatever it held before.
pub proof fn lemma_history_holds_newest(s: StateView, colors: Seq<Color>)
    requires
        s.wf(),
        changes_each_time(colors),
        colors.len() > HISTORY_CAPACITY,
    ensures
        s.set_primary_all(colors).history == keep_last(colors, HISTORY_CAPACITY as nat),
        s.set_primary_all(colors).history.len() == HISTORY_CAPACITY,
{
    lemma_history_fifo(s, colors);
    assert(keep_last(s.history + effective(s.primary, colors), HISTORY_CAPACITY as nat)
        =~= keep_last(colors, HISTORY_CAPACITY as nat));
}

/// Setting the reference color leaves the primary color and the history
/// as they are; setting the primary color and blending leave the reference
/// color as it is.
pub proof fn lemma_commands_keep_apart(s: StateView, color: Color)
    ensures
        s.set_reference(color).primary == s.primary,
        s.set_reference(color).history == s.history,
        s.set_reference(color).reference == color,
        s.set_primary(color).reference == s.reference,
        s.smash(color).reference == s.reference,
{
}

/// Only the command that sets the reference color changes it, and that
/// command changes nothing else.
pub proof fn lemma_apply_frame(s: StateView, command: Command)
    ensures
        command matches Command::SetReference(color) ==> s.apply(command) == (StateView {
            reference: color,
            ..s
        }),
        !(command is SetReference) ==> s.apply(command).reference == s.reference,
{
}

/// A blend step moves a channel toward the reference and never past it: the
/// new value lies between the old one and the reference.
pub proof fn lemma_blend_between(current: u8, reference: u8)
    ensures
        current <= reference ==> current <= blend_channel(current, reference) <= reference,
        current >= reference ==> reference <= blend_channel(current, reference) <= current,
        current == reference ==> blend_channel(current, reference) == current,
{
}

/// A blend step from below comes closer by an eighth of the distance,
/// rounded down; from above by an eighth, rounded up. So a channel above the
/// reference always moves, and one below it moves while it is eight or more
/// away.
pub proof fn lemma_blend_step(current: u8, reference: u8)
    ensures
        current <= reference ==> blend_channel(current, reference) == current + (reference
            - current) / 8,
        current >= reference ==> blend_channel(current, reference) == current - (current
            - reference + 7) / 8,
        current > reference ==> blend_channel(current, reference) < current,
        reference - current >= 8 ==> blend_channel(current, reference) > current,
        0 <= reference - current < 8 ==> blend_channel(current, reference) == current,
{
}

/// Blending again and again toward the same reference converges and never
/// overshoots. From above, each step comes closer by one at least, so the
/// channel reaches the reference itself; from below it stops within seven
/// of it.
pub proof fn lemma_blend_converges(current: u8, reference: u8, steps: nat)
    ensures
        current <= reference ==> {
            &&& current <= blend_channel_times(current, reference, steps) <= reference
            &&& reference - blend_channel_times(current, reference, steps) <= 7 || reference
                - blend_channel_times(current, reference, steps) <= reference - current - steps
        },
        current >= reference ==> {
            &&& reference <= blend_channel_times(current, reference, steps) <= current
            &&& blend_channel_times(current, reference, steps) == reference
                || blend_channel_times(current, reference, steps) - reference <= current
                - reference - steps
        },
    decreases steps,
{
    if steps > 0 {
        lemma_blend_converges(current, reference, (steps - 1) as nat);
        lemma_blend_step(blend_channel_times(current, reference, (steps - 1) as nat), reference);
    }
}

/// After 255 blend steps toward the same reference a channel has settled:
/// on the reference itself where it came from above, within seven below it
/// where it came from below; and further steps change nothing.
pub proof fn lemma_blend_settles(current: u8, reference: u8, steps: nat)
    requires
        steps >= 255,
    ensures
        current >= reference ==> blend_channel_times(current, reference, steps) == reference,
        current <= reference ==> 0 <= reference - blend_channel_times(current, reference, steps)
            <= 7,
        blend_channel(blend_channel_times(current, reference, steps), reference)
            == blend_channel_times(current, reference, steps),
{
    lemma_blend_converges(current, reference, steps);
}

/// Whether `x` lies between `a` and `b`, whichever of the two is the larger.
pub open spec fn between(x: u8, a: u8, b: u8) -> bool {
    a <= x <= b || b <= x <= a
}

/// A blend step of the state moves every channel of the primary color
/// toward the color blended with, and never past it.
pub proof fn lemma_smash_moves_toward(s: StateView, toward: Color)
    ensures
        between(s.smash(toward).primary.red, s.primary.red, toward.red),
        between(s.smash(toward).primary.green, s.primary.green, toward.green),
        between(s.smash(toward).primary.blue, s.primary.blue, toward.blue),
{
}

/// Blending the state again and again toward the same color blends each
/// channel of the primary color that often; the state stays well-formed and
/// its reference color stays as it is.
pub proof fn lemma_smash_times(s: StateView, toward: Color, steps: nat)
    requires
        s.wf(),
    ensures
        s.smash_times(toward, steps).wf(),
        s.smash_times(toward, steps).reference == s.reference,
        s.smash_times(toward, steps).primary == (Color {
            red: blend_channel_times(s.primary.red, toward.red, steps),
            green: blend_channel_times(s.primary.green, toward.green, steps),
            blue: blend_channel_times(s.primary.blue, toward.blue, steps),
        }),
    decreases steps,
{
    if steps > 0 {
        lemma_smash_times(s, toward, (steps - 1) as nat);
    }
}

/// Once the state has been blended toward the same color 255 times or more,
/// every channel of the primary color has settled between its start and the
/// color blended with, seven at most away from that color, and another
/// blend step changes nothing and has no swatch added.
pub proof fn lemma_smash_settles(s: StateView, toward: Color, steps: nat)
    requires
        s.wf(),
        steps >= 255,
    ensures
        ({
            let settled = s.smash_times(toward, steps);
            &&& between(settled.primary.red, s.primary.red, toward.red)
            &&& between(settled.primary.green, s.primary.green, toward.green)
            &&& between(settled.primary.blue, s.primary.blue, toward.blue)
            &&& -7 <= settled.primary.red - toward.red <= 0
            &&& -7 <= settled.primary.green - toward.green <= 0
            &&& -7 <= settled.primary.blue - toward.blue <= 0
            &&& settled.smash(toward) == settled
        }),
{
    lemma_smash_times(s, toward, steps);
    lemma_blend_converges(s.primary.red, toward.red, steps);
    lemma_blend_converges(s.primary.green, toward.green, steps);
    lemma_blend_converges(s.primary.blue, toward.blue, steps);
    lemma_blend_settles(s.primary.red, toward.red, steps);
    lemma_blend_settles(s.primary.green, toward.green, steps);
    lemma_blend_settles(s.primary.blue, toward.blue, steps);
}

/// A decimal digit stands for the number it was written for.
proof fn lemma_digit_char_value(d: nat)
    requires
        d < 10,
    ensures
        is_digit(digit_char(d as int)),
        digit_value(digit_char(d as int)) == d,
{
}

/// A number written in decimal is one or more digits that stand for it.
proof fn lemma_number_text_value(n: nat)
    ensures
        number_text(n, 10).len() > 0,
        all_digits(number_text(n, 10)),
        digits_value(number_text(n, 10)) == n,
    decreases n,
{
    let text = number_text(n, 10);
    if n < 10 {
        lemma_digit_char_value(n);
        assert(digits_value(text.drop_last()) == 0);
    } else {
        lemma_number_text_value(n / 10);
        lemma_digit_char_value(n % 10);
        assert(text.drop_last() =~= number_text(n / 10, 10));
    }
}

/// What is written into the input fields reads back as it was: the decimal
/// text of a channel value stands for that value.
pub proof fn lemma_decimal_text_reads_back(v: u8)
    ensures
        channel_value(decimal_text(v)) == Some(v),
{
    lemma_number_text_value(v as nat);
}

} // verus!
