//! Random colors, drawn from a generator that the caller hands in.

use crate::color::Color;
use rand::rngs::StdRng;
use rand::Rng;
use vstd::prelude::*;

verus! {

/// `rand::rngs::StdRng`, the generator that random colors are drawn from.
/// Its state is hidden from the proofs.
#[verifier::external_type_specification]
#[verifier::external_body]
pub struct ExStdRng(rand::rngs::StdRng);

/// Draws one byte by `rand::Rng::gen`, which advances the generator. Any
/// byte may come back, and nothing is claimed about it or about the
/// generator afterwards.
#[verifier::external_body]
fn random_byte(rng: &mut StdRng) -> (byte: u8) {
    rng.gen()
}

/// Draws a color: three bytes, for red, green and blue in this order. Any
/// color may come back.
pub(crate) fn random_color(rng: &mut StdRng) -> (color: Color) {
    let red = random_byte(rng);
    let green = random_byte(rng);
    let blue = random_byte(rng);
    Color { red, green, blue }
}

} // verus!
