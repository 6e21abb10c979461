//! The per-cycle data carried from the dials to the wire: a snapshot of all
//! dial positions and its raw 16-bit word form.

use crate::percentage::{encode_percentage, spec_encode_percentage, Percentage};
use vstd::prelude::*;

verus! {

/// One sampled [`Percentage`] per physical dial, in wiring order.
pub struct Snapshot {
    pub percentages: Vec<Percentage>,
}

/// The raw 16-bit words of a snapshot frame, one word per dial: the
/// fractional bits of each percentage, in the same order.
pub struct WireFormat {
    pub percentages: Vec<u16>,
}

impl Snapshot {
    /// The fractional bits of every channel, in wiring order.
    pub open spec fn bits(&self) -> Seq<u16> {
        self.percentages@.map_values(|p: Percentage| p.bits)
    }

    pub fn new(percentages: Vec<Percentage>) -> (r: Snapshot)
        ensures
            r.percentages == percentages,
    {
        Snapshot { percentages }
    }

    /// Encodes one cycle's raw analog samples, in wiring order. Every sample
    /// must lie under the resolution, the invariant the hardware is calibrated
    /// to; a violation signals a hardware/configuration mismatch that the
    /// caller must treat as fatal before calling.
    pub fn from_raw(raws: &Vec<u16>, resolution: u16) -> (r: Snapshot)
        requires
            0 < resolution,
            forall|i: int| 0 <= i < raws@.len() ==> raws@[i] < resolution,
        ensures
            r.percentages@.len() == raws@.len(),
            forall|i: int|
                0 <= i < raws@.len() ==> r.percentages@[i].bits == spec_encode_percentage(
                    raws@[i] as int,
                    resolution as int,
                ),
    {
        let n = raws.len();
        let mut percentages: Vec<Percentage> = Vec::new();
        for i in 0..n
            invariant
                n == raws@.len(),
                0 < resolution,
                forall|k: int| 0 <= k < n ==> raws@[k] < resolution,
                percentages@.len() == i,
                forall|k: int|
                    0 <= k < i ==> percentages@[k].bits == spec_encode_percentage(
                        raws@[k] as int,
                        resolution as int,
                    ),
        {
            percentages.push(encode_percentage(raws[i], resolution));
        }
        Snapshot { percentages }
    }

    /// Reinterprets every percentage as its raw 16-bit word.
    pub fn to_wire(&self) -> (r: WireFormat)
        ensures
            r.percentages@ == self.bits(),
    {
        let mut words: Vec<u16> = Vec::new();
        let n = self.percentages.len();
        for i in 0..n
            invariant
                n == self.percentages@.len(),
                words@.len() == i,
                forall|k: int| 0 <= k < i ==> words@[k] == self.percentages@[k].bits,
        {
            words.push(self.percentages[i].bits);
        }
        proof {
            assert(words@ =~= self.bits());
        }
        WireFormat { percentages: words }
    }
}

impl WireFormat {
    /// Reinterprets every raw 16-bit word as a percentage.
    pub fn to_snapshot(&self) -> (r: Snapshot)
        ensures
            r.bits() == self.percentages@,
    {
        let mut percentages: Vec<Percentage> = Vec::new();
        let n = self.percentages.len();
        for i in 0..n
            invariant
                n == self.percentages@.len(),
                percentages@.len() == i,
                forall|k: int| 0 <= k < i ==> percentages@[k].bits == self.percentages@[k],
        {
            percentages.push(Percentage { bits: self.percentages[i] });
        }
        let r = Snapshot { percentages };
        proof {
            assert(r.bits() =~= self.percentages@);
        }
        r
    }
}

} // verus!
