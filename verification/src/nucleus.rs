//! Deterministic layout of a nucleus: protons and neutrons placed on
//! concentric spherical shells.
//!
//! The library decides *where in the layout* each nucleon goes — the special
//! cases for zero and one particle, and the index each remaining particle
//! takes on a Fibonacci lattice.  Turning a lattice slot into Cartesian
//! coordinates (golden-angle trigonometry, the empirical nuclear-radius law)
//! is floating-point work left to the application, which places protons on an
//! inner shell at 0.6 times the base nuclear radius and neutrons on the base
//! shell itself.

use vstd::prelude::*;

verus! {

/// Proton rest mass in millionths of an atomic mass unit.
pub const PROTON_MASS_MICRO_AMU: u64 = 1_007_276;

/// Neutron rest mass in millionths of an atomic mass unit.
pub const NEUTRON_MASS_MICRO_AMU: u64 = 1_008_665;

/// Where one nucleon stands in the deterministic spherical layout.
#[derive(Clone, Copy, Debug, PartialEq, Eq, Structural)]
pub enum Placement {
    /// A lone nucleon sits at the center of its shell.
    Origin,
    /// Point `index` of a Fibonacci lattice spreading `count` points evenly
    /// over a sphere.
    Lattice { index: usize, count: usize },
}

/// A proton, identified by its slot in the inner-shell layout.
#[derive(Clone, Copy, Debug, PartialEq, Eq, Structural)]
pub struct Proton {
    pub placement: Placement,
}

/// A neutron, identified by its slot in the outer-shell layout.
#[derive(Clone, Copy, Debug, PartialEq, Eq, Structural)]
pub struct Neutron {
    pub placement: Placement,
}

impl Proton {
    pub fn new(placement: Placement) -> (r: Proton)
        ensures
            r == (Proton { placement }),
    {
        Proton { placement }
    }
}

impl Neutron {
    pub fn new(placement: Placement) -> (r: Neutron)
        ensures
            r == (Neutron { placement }),
    {
        Neutron { placement }
    }
}

/// The layout that spreads `count` points over a sphere: none for an empty
/// shell, the origin for a single point, and lattice slots otherwise.
pub open spec fn spec_fibonacci_placements(count: usize) -> Seq<Placement> {
    if count == 0 {
        Seq::empty()
    } else if count == 1 {
        seq![Placement::Origin]
    } else {
        Seq::new(count as nat, |i: int| Placement::Lattice { index: i as usize, count })
    }
}

/// Assigns each of `count` particles its slot in the spherical layout.
pub fn fibonacci_placements(count: usize) -> (r: Vec<Placement>)
    ensures
        r@ == spec_fibonacci_placements(count),
{
    let mut points: Vec<Placement> = Vec::new();
    if count == 0 {
        proof {
            assert(points@ =~= spec_fibonacci_placements(count));
        }
        return points;
    }
    if count == 1 {
        points.push(Placement::Origin);
        proof {
            assert(points@ =~= spec_fibonacci_placements(count));
        }
        return points;
    }
    let mut i: usize = 0;
    while i < count
        invariant
            i <= count,
            count >= 2,
            points@.len() == i as int,
            forall|j: int|
                0 <= j < i as int ==> points@[j] == (Placement::Lattice {
                    index: j as usize,
                    count,
                }),
        decreases count - i,
    {
        points.push(Placement::Lattice { index: i, count });
        i = i + 1;
    }
    proof {
        assert(points@ =~= spec_fibonacci_placements(count));
    }
    points
}

/// A nucleus: lists of proton and neutron layout slots, generated once when
/// an atom is built.
#[derive(Clone, Debug)]
pub struct Nucleus {
    pub protons: Vec<Proton>,
    pub neutrons: Vec<Neutron>,
}

impl Nucleus {
    pub fn proton_count(&self) -> (r: usize)
        ensures
            r == self.protons@.len(),
    {
        self.protons.len()
    }

    pub fn neutron_count(&self) -> (r: usize)
        ensures
            r == self.neutrons@.len(),
    {
        self.neutrons.len()
    }

    /// Total rest mass of the nucleons, in millionths of an atomic mass unit.
    pub fn total_mass_micro_amu(&self) -> (r: u128)
        ensures
            r == PROTON_MASS_MICRO_AMU * self.protons@.len()
                + NEUTRON_MASS_MICRO_AMU * self.neutrons@.len(),
    {
        let p = self.protons.len() as u128;
        let n = self.neutrons.len() as u128;
        proof {
            assert((PROTON_MASS_MICRO_AMU as int) * (p as int) <= (PROTON_MASS_MICRO_AMU as int)
                * 0xFFFF_FFFF_FFFF_FFFF) by (nonlinear_arith)
                requires
                    p <= 0xFFFF_FFFF_FFFF_FFFFu128,
            ;
            assert((NEUTRON_MASS_MICRO_AMU as int) * (n as int) <= (NEUTRON_MASS_MICRO_AMU as int)
                * 0xFFFF_FFFF_FFFF_FFFF) by (nonlinear_arith)
                requires
                    n <= 0xFFFF_FFFF_FFFF_FFFFu128,
            ;
        }
        (PROTON_MASS_MICRO_AMU as u128) * p + (NEUTRON_MASS_MICRO_AMU as u128) * n
    }
}

/// Builds the deterministic nucleus layout for given particle counts.
#[derive(Clone, Copy, Debug, PartialEq, Eq, Structural)]
pub struct NucleusBuilder {
    pub proton_count: usize,
    pub neutron_count: usize,
}

impl NucleusBuilder {
    pub fn new(proton_count: usize, neutron_count: usize) -> (r: NucleusBuilder)
        ensures
            r == (NucleusBuilder { proton_count, neutron_count }),
    {
        NucleusBuilder { proton_count, neutron_count }
    }

    /// The nucleon count that sizes the base nuclear radius
    /// `r = r0 * A^(1/3)`: the total count, clamped to at least one so that an
    /// empty nucleus still has a well-defined radius.
    pub fn effective_mass_number(&self) -> (r: usize)
        requires
            self.proton_count + self.neutron_count <= usize::MAX,
        ensures
            r == if self.proton_count + self.neutron_count == 0 {
                1int
            } else {
                self.proton_count + self.neutron_count
            },
    {
        let total: usize = self.proton_count + self.neutron_count;
        if total == 0 {
            1
        } else {
            total
        }
    }

    /// Lays out every proton and neutron.  Zero particles make an empty
    /// shell; a single particle sits at the origin; two or more take
    /// consecutive lattice slots.
    pub fn build(&self) -> (r: Nucleus)
        ensures
            r.protons@.len() == self.proton_count,
            r.neutrons@.len() == self.neutron_count,
            r.protons@.map_values(|p: Proton| p.placement) == spec_fibonacci_placements(
                self.proton_count,
            ),
            r.neutrons@.map_values(|n: Neutron| n.placement) == spec_fibonacci_placements(
                self.neutron_count,
            ),
            self.proton_count == 1 ==> r.protons@[0].placement == Placement::Origin,
            self.neutron_count == 1 ==> r.neutrons@[0].placement == Placement::Origin,
    {
        let proton_placements = fibonacci_placements(self.proton_count);
        let neutron_placements = fibonacci_placements(self.neutron_count);

        let mut protons: Vec<Proton> = Vec::new();
        let mut i: usize = 0;
        while i < proton_placements.len()
            invariant
                i <= proton_placements@.len(),
                protons@.len() == i as int,
                forall|j: int| 0 <= j < i as int ==> protons@[j].placement == proton_placements@[j],
            decreases proton_placements@.len() - i,
        {
            protons.push(Proton::new(proton_placements[i]));
            i = i + 1;
        }

        let mut neutrons: Vec<Neutron> = Vec::new();
        let mut k: usize = 0;
        while k < neutron_placements.len()
            invariant
                k <= neutron_placements@.len(),
                neutrons@.len() == k as int,
                forall|j: int|
                    0 <= j < k as int ==> neutrons@[j].placement == neutron_placements@[j],
            decreases neutron_placements@.len() - k,
        {
            neutrons.push(Neutron::new(neutron_placements[k]));
            k = k + 1;
        }

        proof {
            assert(protons@.map_values(|p: Proton| p.placement) =~= proton_placements@);
            assert(neutrons@.map_values(|n: Neutron| n.placement) =~= neutron_placements@);
            if self.proton_count == 1 {
                assert(protons@[0].placement == proton_placements@[0]);
                assert(spec_fibonacci_placements(self.proton_count)[0] == Placement::Origin);
            }
            if self.neutron_count == 1 {
                assert(neutrons@[0].placement == neutron_placements@[0]);
                assert(spec_fibonacci_placements(self.neutron_count)[0] == Placement::Origin);
            }
        }
        Nucleus { protons, neutrons }
    }
}

} // verus!
