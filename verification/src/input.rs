//! Per-frame player input as a fixed-width bitmask.
//!
//! An `Input` is plain data: one `u32` whose low four bits carry the four
//! direction intents. Every bit pattern is a legal value — opposing
//! directions may be set at once; precedence between them is decided by the
//! frame update, never here. The empty (default) value is the zero mask.

use vstd::prelude::*;

verus! {

/// Bit set while the player intends to move up.
pub const INPUT_UP: u32 = 1;

/// Bit set while the player intends to move down.
pub const INPUT_DOWN: u32 = 2;

/// Bit set while the player intends to move left.
pub const INPUT_LEFT: u32 = 4;

/// Bit set while the player intends to move right.
pub const INPUT_RIGHT: u32 = 8;

/// A player's intent for one frame, packed into a fixed-width bitmask so it
/// can be transmitted, stored in replay buffers, and compared byte for byte.
#[derive(Clone, Copy, PartialEq, Eq, Structural, Hash, Debug)]
pub struct Input {
    pub bits: u32,
}

impl Input {
    /// A flag is held exactly when all of its bits are set in the mask.
    pub open spec fn has(self, flag: u32) -> bool {
        self.bits & flag == flag
    }

    /// The mask with no intent at all.
    pub fn empty() -> (r: Input)
        ensures
            r.bits == 0,
    {
        Input { bits: 0 }
    }

    /// Decoding a received mask is the identity over the bits.
    pub fn from_bits(bits: u32) -> (r: Input)
        ensures
            r.bits == bits,
    {
        Input { bits }
    }

    /// Whether every bit of `flag` is set.
    pub fn contains(&self, flag: u32) -> (r: bool)
        ensures
            r == self.has(flag),
    {
        self.bits & flag == flag
    }

    /// Sets every bit of `flag`, leaving the other bits alone.
    pub fn insert(&mut self, flag: u32)
        ensures
            final (self).bits == old(self).bits | flag,
    {
        self.bits = self.bits | flag;
    }
}

impl Default for Input {
    /// The default input is the empty mask.
    fn default() -> (r: Input)
        ensures
            r.bits == 0,
    {
        Input { bits: 0 }
    }
}

/// The mask that packs the four direction intents, one bit each.
pub open spec fn bits_of(up: bool, down: bool, left: bool, right: bool) -> u32 {
    (if up {
        INPUT_UP
    } else {
        0
    }) | (if down {
        INPUT_DOWN
    } else {
        0
    }) | (if left {
        INPUT_LEFT
    } else {
        0
    }) | (if right {
        INPUT_RIGHT
    } else {
        0
    })
}

/// Packing the four direction intents loses none and invents none: each flag
/// is held by the packed mask exactly when the matching intent was given.
pub proof fn lemma_bits_of_flags(up: bool, down: bool, left: bool, right: bool)
    ensures
        (Input { bits: bits_of(up, down, left, right) }).has(INPUT_UP) == up,
        (Input { bits: bits_of(up, down, left, right) }).has(INPUT_DOWN) == down,
        (Input { bits: bits_of(up, down, left, right) }).has(INPUT_LEFT) == left,
        (Input { bits: bits_of(up, down, left, right) }).has(INPUT_RIGHT) == right,
{
    let u: u32 = if up { INPUT_UP } else { 0 };
    let d: u32 = if down { INPUT_DOWN } else { 0 };
    let l: u32 = if left { INPUT_LEFT } else { 0 };
    let r: u32 = if right { INPUT_RIGHT } else { 0 };
    assert((u | d | l | r) & 1u32 == u && (u | d | l | r) & 2u32 == d && (u | d | l | r) & 4u32
        == l && (u | d | l | r) & 8u32 == r) by (bit_vector)
        requires
            u == 0u32 || u == 1u32,
            d == 0u32 || d == 2u32,
            l == 0u32 || l == 4u32,
            r == 0u32 || r == 8u32,
    ;
}

/// Encodes a raw intent (one boolean per direction) into the wire mask.
/// Total for every combination of intents, opposing directions included.
pub fn encode(up: bool, down: bool, left: bool, right: bool) -> (r: Input)
    ensures
        r.bits == bits_of(up, down, left, right),
        r.has(INPUT_UP) == up,
        r.has(INPUT_DOWN) == down,
        r.has(INPUT_LEFT) == left,
        r.has(INPUT_RIGHT) == right,
{
    let u: u32 = if up {
        INPUT_UP
    } else {
        0
    };
    let d: u32 = if down {
        INPUT_DOWN
    } else {
        0
    };
    let l: u32 = if left {
        INPUT_LEFT
    } else {
        0
    };
    let rt: u32 = if right {
        INPUT_RIGHT
    } else {
        0
    };
    proof {
        lemma_bits_of_flags(up, down, left, right);
    }
    Input { bits: u | d | l | rt }
}

/// Decodes a mask back into the four direction intents, the inverse of
/// `encode`. Total for all `2^32` mask values; bits beyond the four
/// direction bits are ignored.
pub fn decode(input: Input) -> (r: (bool, bool, bool, bool))
    ensures
        r.0 == input.has(INPUT_UP),
        r.1 == input.has(INPUT_DOWN),
        r.2 == input.has(INPUT_LEFT),
        r.3 == input.has(INPUT_RIGHT),
{
    (
        input.contains(INPUT_UP),
        input.contains(INPUT_DOWN),
        input.contains(INPUT_LEFT),
        input.contains(INPUT_RIGHT),
    )
}

} // verus!
