use vstd::prelude::*;
use rand::Rng;

verus! {

/// A colour given by its red, green and blue channels.
#[derive(Clone, Copy, Debug, PartialEq, Eq, Structural)]
pub struct Rgb {
    pub r: u8,
    pub g: u8,
    pub b: u8,
}

impl Rgb {
    /// No channel is zero, so the colour is never pure black.
    pub open spec fn is_lit(self) -> bool {
        self.r >= 1 && self.g >= 1 && self.b >= 1
    }
}

/// The colours of the two panels, drawn once when a session starts.
#[derive(Clone, Copy, Debug, PartialEq, Eq, Structural)]
pub struct Palette {
    pub cpu: Rgb,
    pub memory: Rgb,
}

impl Palette {
    pub open spec fn is_lit(self) -> bool {
        self.cpu.is_lit() && self.memory.is_lit()
    }

    /// Two colours drawn at random, one for each panel.
    pub fn random() -> (r: Palette)
        ensures
            r.is_lit(),
    {
        let cpu = random_color();
        let memory = random_color();
        Palette { cpu, memory }
    }
}

/// Relies on rand's `thread_rng` and `Rng::gen_range` over `1..=255`: the value
/// drawn lies in that range, which is not empty, so the call does not panic.
#[verifier::external_body]
fn random_channel() -> (r: u8)
    ensures
        1 <= r,
{
    rand::thread_rng().gen_range(1..=255u8)
}

/// A colour whose channels are drawn at random, each from 1 to 255.
pub fn random_color() -> (r: Rgb)
    ensures
        r.is_lit(),
{
    let r = random_channel();
    let g = random_channel();
    let b = random_channel();
    Rgb { r, g, b }
}

} // verus!
