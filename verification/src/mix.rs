use vstd::prelude::*;

verus! {

/// Number of fixed-point steps that stand for a mix coefficient of one.
///
/// A coefficient of `k / MIX_ONE` weights the auxiliary input by `k` parts in
/// `MIX_ONE`, so the representable coefficients cover [0, 1] in steps of one
/// millionth.
pub const MIX_ONE: u32 = 1_000_000;

/// A crossfade coefficient in the closed interval [0, 1], held as the
/// fixed-point fraction `numer / MIX_ONE`.
///
/// Values of this type are always in range: every constructor clamps, so a
/// `Mix` never carries a numerator above `MIX_ONE`.
#[derive(Clone, Copy, Debug)]
pub struct Mix {
    numer: u32,
}

impl Mix {
    /// The coefficient's fixed-point numerator, as a mathematical integer
    /// over the denominator `MIX_ONE`.
    pub closed spec fn as_int(self) -> int {
        self.numer as int
    }

    #[verifier::type_invariant]
    spec fn in_range(self) -> bool {
        self.numer <= MIX_ONE
    }

    /// Builds the coefficient `numer / MIX_ONE`, clamping anything above one
    /// down to one.
    pub fn new(numer: u32) -> (m: Mix)
        ensures
            m.as_int() == if numer <= MIX_ONE { numer as int } else { MIX_ONE as int },
    {
        if numer <= MIX_ONE {
            Mix { numer }
        } else {
            Mix { numer: MIX_ONE }
        }
    }

    /// The coefficient zero: the blend returns the main input alone.
    pub fn zero() -> (m: Mix)
        ensures
            m.as_int() == 0,
    {
        Mix { numer: 0 }
    }

    /// The coefficient one: the blend returns the auxiliary input alone.
    pub fn one() -> (m: Mix)
        ensures
            m.as_int() == MIX_ONE as int,
    {
        Mix { numer: MIX_ONE }
    }

    /// The fixed-point numerator, always at most `MIX_ONE`.
    pub fn numer(&self) -> (v: u32)
        ensures
            v as int == self.as_int(),
            v <= MIX_ONE,
    {
        proof {
            use_type_invariant(self);
        }
        self.numer
    }
}

} // verus!
