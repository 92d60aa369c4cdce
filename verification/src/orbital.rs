//! Quantum numbers of a hydrogen-like orbital and the choice of density
//! formula they select.

use vstd::prelude::*;

verus! {

/// The (n, l, m) quantum numbers describing a single-electron orbital.
///
/// A triple is meaningful only when `n >= 1`, `l < n` and `|m| <= l`; see
/// [`Orbital::valid`].
#[derive(Clone, Copy, Debug, PartialEq, Eq, Structural)]
pub struct Orbital {
    pub n: u8,
    pub l: u8,
    pub m: i8,
}

/// The closed form under which an orbital's probability density is evaluated.
#[derive(Clone, Copy, Debug, PartialEq, Eq, Structural)]
pub enum DensityForm {
    /// The exact 1s density `(1/(pi a^3)) exp(-2r/a)`.
    GroundS,
    /// The exact 2s density `(1/(32 pi a^3)) exp(-r/a) (2 - r/a)^2`.
    SecondS,
    /// The radially symmetric Gaussian substitute used for every other state.
    Gaussian,
}

impl Orbital {
    /// The orbital invariant: `n >= 1`, `0 <= l < n`, `|m| <= l`.
    pub open spec fn valid(self) -> bool {
        &&& self.n >= 1
        &&& self.l < self.n
        &&& -(self.l as int) <= self.m as int
        &&& self.m as int <= self.l as int
    }

    /// Builds an orbital from quantum numbers already known to be valid.
    ///
    /// Constructing an orbital that breaks the invariant is a caller bug, so
    /// the invariant is demanded up front rather than silently normalized.
    pub fn new(n: u8, l: u8, m: i8) -> (r: Orbital)
        requires
            (Orbital { n, l, m }).valid(),
        ensures
            r == (Orbital { n, l, m }),
    {
        Orbital { n, l, m }
    }

    /// Builds an orbital from arbitrary quantum numbers, rejecting any triple
    /// that breaks the invariant instead of accepting it silently.
    pub fn try_new(n: u8, l: u8, m: i8) -> (r: Option<Orbital>)
        ensures
            (Orbital { n, l, m }).valid() ==> r == Some(Orbital { n, l, m }),
            !(Orbital { n, l, m }).valid() ==> r is None,
    {
        if n >= 1 && l < n && -(l as i16) <= m as i16 && m as i16 <= l as i16 {
            Some(Orbital { n, l, m })
        } else {
            None
        }
    }

    /// The ground state (n = 1, l = 0, m = 0).
    pub fn ground_state() -> (r: Orbital)
        ensures
            r == (Orbital { n: 1u8, l: 0u8, m: 0i8 }),
            r.valid(),
    {
        Orbital { n: 1, l: 0, m: 0 }
    }

    /// Whether this is the ground state, the only state with a direct
    /// (rejection-free) sampler.
    pub open spec fn spec_is_ground_state(self) -> bool {
        self.n == 1 && self.l == 0 && self.m == 0
    }

    /// Runtime test for the ground state.
    pub fn is_ground_state(&self) -> (r: bool)
        ensures
            r == self.spec_is_ground_state(),
    {
        self.n == 1 && self.l == 0 && self.m == 0
    }

    /// The density formula selected by a full (n, l, m) triple.
    pub open spec fn spec_density_form(self) -> DensityForm {
        if self.n == 1 && self.l == 0 && self.m == 0 {
            DensityForm::GroundS
        } else if self.n == 2 && self.l == 0 && self.m == 0 {
            DensityForm::SecondS
        } else {
            DensityForm::Gaussian
        }
    }

    /// Selects the formula under which `|psi|^2` is evaluated at a point.
    pub fn density_form(&self) -> (r: DensityForm)
        ensures
            r == self.spec_density_form(),
    {
        if self.n == 1 && self.l == 0 && self.m == 0 {
            DensityForm::GroundS
        } else if self.n == 2 && self.l == 0 && self.m == 0 {
            DensityForm::SecondS
        } else {
            DensityForm::Gaussian
        }
    }

    /// The formula whose peak value bounds the density from above.  The bound
    /// is exact for the 1s and 2s states, selected on (n, l) alone; every
    /// other state uses a conservative constant.
    pub fn max_density_form(&self) -> (r: DensityForm)
        ensures
            self.n == 1 && self.l == 0 ==> r == DensityForm::GroundS,
            self.n == 2 && self.l == 0 ==> r == DensityForm::SecondS,
            !(self.n <= 2 && self.l == 0) ==> r == DensityForm::Gaussian,
    {
        if self.n == 1 && self.l == 0 {
            DensityForm::GroundS
        } else if self.n == 2 && self.l == 0 {
            DensityForm::SecondS
        } else {
            DensityForm::Gaussian
        }
    }

    /// The bounding radius of an orbital, in units of the effective Bohr
    /// radius: `4` for n = 1, `8` for n = 2, and `4 n^2` beyond.
    pub open spec fn spec_bounding_radius_factor(self) -> int {
        if self.n == 1 {
            4
        } else if self.n == 2 {
            8
        } else {
            4 * (self.n as int) * (self.n as int)
        }
    }

    /// Computes the bounding-radius factor; the application scales it by the
    /// effective Bohr radius to size the sampling volume.
    pub fn bounding_radius_factor(&self) -> (r: u32)
        ensures
            r == self.spec_bounding_radius_factor(),
    {
        if self.n == 1 {
            4
        } else if self.n == 2 {
            8
        } else {
            let nn: u32 = self.n as u32;
            proof {
                assert(nn * nn <= 65025) by (nonlinear_arith)
                    requires
                        nn <= 255,
                ;
                assert(4 * (nn as int) * (nn as int) == 4 * ((nn as int) * (nn as int)))
                    by (nonlinear_arith);
            }
            4 * (nn * nn)
        }
    }
}

} // verus!
