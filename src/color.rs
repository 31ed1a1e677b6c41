//! The colours that output lines are drawn in.
use vstd::prelude::*;

verus! {

/// A terminal colour.
#[derive(PartialEq, Eq, Structural, Clone, Copy, Debug)]
pub enum Hue {
    Red,
    Green,
    Blue,
    Yellow,
    Cyan,
    White,
}

/// The colour for a number drawn from one to five; white for any other.
pub open spec fn hue_spec(n: int) -> Hue {
    if n == 1 {
        Hue::Red
    } else if n == 2 {
        Hue::Green
    } else if n == 3 {
        Hue::Blue
    } else if n == 4 {
        Hue::Yellow
    } else if n == 5 {
        Hue::Cyan
    } else {
        Hue::White
    }
}

/// Relies on `rand::distributions::Uniform::from(1..=5)` sampled with
/// `rand::thread_rng()`: the number lies between one and five inclusive.
#[verifier::external_body]
fn draw_one_to_five() -> (r: u32)
    ensures
        1 <= r <= 5,
{
    rand::Rng::sample(&mut rand::thread_rng(), rand::distributions::Uniform::from(1..=5u32))
}

/// The colour for a drawn number.
pub fn hue_for(n: u32) -> (r: Hue)
    ensures
        r == hue_spec(n as int),
{
    match n {
        1 => Hue::Red,
        2 => Hue::Green,
        3 => Hue::Blue,
        4 => Hue::Yellow,
        5 => Hue::Cyan,
        _ => Hue::White,
    }
}

/// A colour picked at random among red, green, blue, yellow and cyan.
pub fn random_hue() -> (r: Hue)
    ensures
        r != Hue::White,
{
    hue_for(draw_one_to_five())
}

} // verus!
