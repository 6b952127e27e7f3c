//! Partition of the accelerator's buffer memory into its three regions.

use vstd::prelude::*;

verus! {

/// Number of sample slots in the accelerator's buffer memory.
pub const CAPACITY: usize = 256;

/// Largest size a single region can be given.
pub const MAX_REGION: usize = 255;

/// Whether regions of `n1`, `n2` and `n3` slots, laid out one after the
/// other from address zero, fit the buffer memory: each size and the base
/// of the last region fit their eight-bit register fields, and the three
/// together stay within the capacity.
pub open spec fn regions_fit(n1: nat, n2: nat, n3: nat) -> bool {
    &&& n1 <= MAX_REGION
    &&& n2 <= MAX_REGION
    &&& n3 <= MAX_REGION
    &&& n1 + n2 <= MAX_REGION
    &&& n1 + n2 + n3 <= CAPACITY
}

/// A contiguous run of slots in the buffer memory.
#[derive(Clone, Copy, Debug, PartialEq, Eq, Structural)]
pub struct Region {
    /// Address of the first slot.
    pub base: u8,
    /// Number of slots.
    pub size: u8,
}

impl Region {
    /// The address just past the last slot of the region.
    pub open spec fn end(self) -> int {
        self.base + self.size
    }
}

/// The three regions of a configured accelerator: the input samples `X1`,
/// the coefficients `X2` and the output history `Y`.
///
/// They lie back to back from address zero and never exceed the capacity.
#[derive(Clone, Copy, Debug, PartialEq, Eq)]
pub struct MemoryMap {
    x1: Region,
    x2: Region,
    y: Region,
}

impl MemoryMap {
    /// The input-sample region.
    pub closed spec fn x1(self) -> Region {
        self.x1
    }

    /// The coefficient region.
    pub closed spec fn x2(self) -> Region {
        self.x2
    }

    /// The output region.
    pub closed spec fn y(self) -> Region {
        self.y
    }

    /// The layout rule: `X1` starts at zero, each following region starts
    /// where the one before it ends, and the last one ends within the
    /// capacity.
    pub open spec fn wf(self) -> bool {
        &&& self.x1().base == 0
        &&& self.x2().base == self.x1().end()
        &&& self.y().base == self.x2().end()
        &&& self.y().end() <= CAPACITY
    }

    #[verifier::type_invariant]
    spec fn inv(self) -> bool {
        self.wf()
    }

    /// The map that gives `X1`, `X2` and `Y` the sizes `n1`, `n2` and
    /// `n3`.
    pub open spec fn of_sizes(n1: nat, n2: nat, n3: nat) -> (Region, Region, Region) {
        (
            Region { base: 0, size: n1 as u8 },
            Region { base: n1 as u8, size: n2 as u8 },
            Region { base: (n1 + n2) as u8, size: n3 as u8 },
        )
    }

    /// Lays out three regions of the given sizes.
    pub fn partition(n1: usize, n2: usize, n3: usize) -> (map: MemoryMap)
        requires
            regions_fit(n1 as nat, n2 as nat, n3 as nat),
        ensures
            map.wf(),
            (map.x1(), map.x2(), map.y()) == Self::of_sizes(n1 as nat, n2 as nat, n3 as nat),
            map.x1().size == n1,
            map.x2().base == n1,
            map.x2().size == n2,
            map.y().base == n1 + n2,
            map.y().size == n3,
    {
        MemoryMap {
            x1: Region { base: 0, size: n1 as u8 },
            x2: Region { base: n1 as u8, size: n2 as u8 },
            y: Region { base: (n1 + n2) as u8, size: n3 as u8 },
        }
    }

    /// Lays out three regions of the given sizes, or returns `None` when
    /// they do not fit.
    pub fn try_partition(n1: usize, n2: usize, n3: usize) -> (map: Option<MemoryMap>)
        ensures
            map.is_some() <==> regions_fit(n1 as nat, n2 as nat, n3 as nat),
            map matches Some(m) ==> m.wf() && (m.x1(), m.x2(), m.y()) == Self::of_sizes(
                n1 as nat,
                n2 as nat,
                n3 as nat,
            ),
    {
        if n1 <= MAX_REGION && n2 <= MAX_REGION && n3 <= MAX_REGION && n1 + n2 <= MAX_REGION && n1
            + n2 + n3 <= CAPACITY {
            Some(Self::partition(n1, n2, n3))
        } else {
            None
        }
    }

    /// The input-sample region.
    pub fn x1_region(&self) -> (r: Region)
        ensures
            r == self.x1(),
            self.wf(),
    {
        proof {
            use_type_invariant(self);
        }
        self.x1
    }

    /// The coefficient region.
    pub fn x2_region(&self) -> (r: Region)
        ensures
            r == self.x2(),
            self.wf(),
    {
        proof {
            use_type_invariant(self);
        }
        self.x2
    }

    /// The output region.
    pub fn y_region(&self) -> (r: Region)
        ensures
            r == self.y(),
            self.wf(),
    {
        proof {
            use_type_invariant(self);
        }
        self.y
    }

    /// Number of slots the three regions take together.
    pub fn used(&self) -> (n: usize)
        ensures
            n == self.x1().size + self.x2().size + self.y().size,
            n <= CAPACITY,
    {
        proof {
            use_type_invariant(self);
        }
        self.x1.size as usize + self.x2.size as usize + self.y.size as usize
    }
}

/// The bases of a layout are fixed by the sizes alone: `X2` starts at the
/// size of `X1`, and `Y` starts at the sizes of `X1` and `X2` together.
pub proof fn lemma_bases_follow_sizes(map: MemoryMap)
    requires
        map.wf(),
    ensures
        map.x1().base == 0,
        map.x2().base == map.x1().size,
        map.y().base == map.x1().size + map.x2().size,
{
}

/// Two layouts of the same sizes are the same layout.
pub proof fn lemma_layout_deterministic(m1: MemoryMap, m2: MemoryMap)
    requires
        m1.wf(),
        m2.wf(),
        m1.x1().size == m2.x1().size,
        m1.x2().size == m2.x2().size,
        m1.y().size == m2.y().size,
    ensures
        m1 == m2,
{
}

} // verus!
