//! Rising and falling edges of the sampled one-bit channels.
use vstd::prelude::*;

verus! {

/// How samples are packed into the bytes of the sample stream.
#[derive(Clone, Copy, Debug, PartialEq, Eq, Structural)]
pub enum Packing {
    /// Two 4-bit samples per byte, high nibble first.
    Nibble,
    /// One 8-bit sample per byte.
    Byte,
}

impl Packing {
    pub open spec fn per_byte(self) -> int {
        match self {
            Packing::Nibble => 2,
            Packing::Byte => 1,
        }
    }

    /// The bits of a sample that carry signals.
    pub open spec fn mask_spec(self) -> u8 {
        match self {
            Packing::Nibble => 0x0f,
            Packing::Byte => 0xff,
        }
    }

    /// Sample `i` of `byte`, in stream order.
    pub open spec fn sample_spec(self, byte: u8, i: int) -> u8 {
        match self {
            Packing::Nibble => if i == 0 {
                (byte >> 4u8) & 0x0f
            } else {
                byte & 0x0f
            },
            Packing::Byte => byte,
        }
    }

    pub fn samples_per_byte(&self) -> (r: usize)
        ensures
            r == self.per_byte(),
    {
        match self {
            Packing::Nibble => 2,
            Packing::Byte => 1,
        }
    }

    pub fn mask(&self) -> (r: u8)
        ensures
            r == self.mask_spec(),
    {
        match self {
            Packing::Nibble => 0x0f,
            Packing::Byte => 0xff,
        }
    }

    /// Sample `i` of `byte`: for nibbles the high one comes first.
    pub fn sample(&self, byte: u8, i: usize) -> (r: u8)
        requires
            i < self.per_byte(),
        ensures
            r == self.sample_spec(byte, i as int),
            r & self.mask_spec() == r,
    {
        match self {
            Packing::Nibble => {
                let r = if i == 0 {
                    (byte >> 4u8) & 0x0f
                } else {
                    byte & 0x0f
                };
                assert(r & 0x0f == r) by (bit_vector)
                    requires
                        r == (byte >> 4u8) & 0x0f || r == byte & 0x0f,
                ;
                r
            },
            Packing::Byte => {
                assert(byte & 0xff == byte) by (bit_vector);
                byte
            },
        }
    }
}

/// Bits that are set in `now` and were clear in `last`, within `mask`.
pub open spec fn rising_spec(last: u8, now: u8, mask: u8) -> u8 {
    now & !last & mask
}

/// Bits that are clear in `now` and were set in `last`, within `mask`.
pub open spec fn falling_spec(last: u8, now: u8, mask: u8) -> u8 {
    !now & last & mask
}

/// Whether bit `bit` of `x` is set.
pub open spec fn bit_set(x: u8, bit: u8) -> bool {
    (x >> bit) & 1 == 1
}

/// Differences consecutive samples into edges.
pub struct EdgeDetector {
    last_sample: u8,
    mask: u8,
}

impl EdgeDetector {
    pub closed spec fn last_spec(&self) -> u8 {
        self.last_sample
    }

    pub closed spec fn mask_of(&self) -> u8 {
        self.mask
    }

    /// A detector for samples packed as `packing`; the previous sample counts as all zeros.
    pub fn new(packing: Packing) -> (r: EdgeDetector)
        ensures
            r.last_spec() == 0,
            r.mask_of() == packing.mask_spec(),
    {
        EdgeDetector { last_sample: 0, mask: packing.mask() }
    }

    /// Takes the next sample; returns its `(rising, falling)` bit masks.
    pub fn detect(&mut self, sample: u8) -> (r: (u8, u8))
        ensures
            r == (
                rising_spec(old(self).last_spec(), sample, old(self).mask_of()),
                falling_spec(old(self).last_spec(), sample, old(self).mask_of()),
            ),
            final(self).last_spec() == sample,
            final(self).mask_of() == old(self).mask_of(),
    {
        let rising = sample & !self.last_sample & self.mask;
        let falling = !sample & self.last_sample & self.mask;
        self.last_sample = sample;
        (rising, falling)
    }
}

/// Whether bit `bit` of `x` is set.
pub fn has_bit(x: u8, bit: u8) -> (r: bool)
    requires
        bit < 8,
    ensures
        r == bit_set(x, bit),
{
    (x >> bit) & 1 == 1
}

} // verus!
