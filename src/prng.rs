//! A small xorshift generator, for the colors of a terminal banner. Not
//! suitable for cryptographic purposes.
use vstd::prelude::*;

verus! {

/// The xorshift128 state after one step from `(x, y, z, w)`.
pub open spec fn step(s: (u32, u32, u32, u32)) -> (u32, u32, u32, u32) {
    let t = s.0 ^ (s.0 << 11u32);
    (s.1, s.2, s.3, s.3 ^ (s.3 >> 19u32) ^ (t ^ (t >> 8u32)))
}

pub struct Rng {
    x: u32,
    y: u32,
    z: u32,
    w: u32,
}

impl View for Rng {
    type V = (u32, u32, u32, u32);

    closed spec fn view(&self) -> (u32, u32, u32, u32) {
        (self.x, self.y, self.z, self.w)
    }
}

impl Rng {
    /// A generator whose four words all start at `seed`.
    pub fn new(seed: u32) -> (r: Rng)
        ensures
            r@ == (seed, seed, seed, seed),
    {
        Rng { x: seed, y: seed, z: seed, w: seed }
    }

    /// Advances the state by one step and returns its last word.
    pub fn u32(&mut self) -> (r: u32)
        ensures
            final(self)@ == step(old(self)@),
            r == final(self)@.3,
    {
        let x = self.x;
        let t = x ^ (x << 11u32);
        self.x = self.y;
        self.y = self.z;
        self.z = self.w;
        let w = self.w;
        self.w = w ^ (w >> 19u32) ^ (t ^ (t >> 8u32));
        self.w
    }
}

} // verus!
