//! The simulated atom: an element, its nucleus layout, placeholder
//! electrons, and the one orbital every electron currently occupies.

use crate::element::Element;
use crate::nucleus::{Nucleus, NucleusBuilder, Placement, spec_fibonacci_placements};
use crate::orbital::Orbital;
use vstd::prelude::*;

verus! {

/// Intrinsic spin of a particle.
#[derive(Clone, Copy, Debug, PartialEq, Eq, Structural)]
pub enum Spin {
    /// Spin +1/2.
    Up,
    /// Spin -1/2.
    Down,
}

/// An electron bound to a specific atomic orbital.  Electrons are
/// placeholders: the model gives each the same shared active orbital.
#[derive(Clone, Copy, Debug, PartialEq, Eq, Structural)]
pub struct Electron {
    pub orbital: Orbital,
}

impl Electron {
    pub fn new(orbital: Orbital) -> (r: Electron)
        ensures
            r == (Electron { orbital }),
    {
        Electron { orbital }
    }

    pub fn orbital(&self) -> (r: &Orbital)
        ensures
            r == self.orbital,
    {
        &self.orbital
    }
}

/// One simulated atom, rebuilt from scratch whenever the selected element
/// changes.
#[derive(Clone, Debug)]
pub struct Atom {
    pub element: Element,
    pub nucleus: Nucleus,
    pub electrons: Vec<Electron>,
    pub active_orbital: Orbital,
}

impl Atom {
    /// The atom invariant: one electron per unit of atomic number, every
    /// electron on the active orbital, and a nucleus carrying the layout
    /// built for this element — one proton slot per unit of atomic number
    /// and one neutron slot per default neutron.
    pub open spec fn wf(self) -> bool {
        &&& self.electrons@.len() == self.element.atomic_number
        &&& forall|i: int|
            0 <= i < self.electrons@.len() ==> self.electrons@[i].orbital == self.active_orbital
        &&& self.nucleus.protons@.len() == self.element.atomic_number
        &&& self.nucleus.neutrons@.len() == self.element.default_neutrons
        &&& self.nucleus.protons@.map_values(|p: crate::nucleus::Proton| p.placement)
            == spec_fibonacci_placements(self.element.atomic_number as usize)
        &&& self.nucleus.neutrons@.map_values(|n: crate::nucleus::Neutron| n.placement)
            == spec_fibonacci_placements(self.element.default_neutrons as usize)
    }

    /// Builds an atom for `element`: a fresh nucleus layout, one placeholder
    /// electron per unit of atomic number, and the ground state active.
    pub fn new(element: Element) -> (r: Atom)
        ensures
            r.wf(),
            r.element == element,
            r.active_orbital == (Orbital { n: 1u8, l: 0u8, m: 0i8 }),
    {
        let active_orbital = Orbital::ground_state();
        let mut electrons: Vec<Electron> = Vec::new();
        let z: u8 = element.atomic_number;
        let mut i: u8 = 0;
        while i < z
            invariant
                i <= z,
                electrons@.len() == i as int,
                forall|j: int| 0 <= j < i as int ==> electrons@[j].orbital == active_orbital,
                active_orbital == (Orbital { n: 1u8, l: 0u8, m: 0i8 }),
            decreases z - i,
        {
            electrons.push(Electron::new(active_orbital));
            i = i + 1;
        }

        let neutron_count: usize = element.default_neutron_count();
        let nucleus = NucleusBuilder::new(z as usize, neutron_count).build();

        Atom { element, nucleus, electrons, active_orbital }
    }

    pub fn element(&self) -> (r: &Element)
        ensures
            r == self.element,
    {
        &self.element
    }

    pub fn nucleus(&self) -> (r: &Nucleus)
        ensures
            r == self.nucleus,
    {
        &self.nucleus
    }

    pub fn electrons(&self) -> (r: &Vec<Electron>)
        ensures
            r == self.electrons,
    {
        &self.electrons
    }

    pub fn active_orbital(&self) -> (r: &Orbital)
        ensures
            r == self.active_orbital,
    {
        &self.active_orbital
    }

    /// Replaces the active orbital: every electron is re-created on the new
    /// orbital; element and nucleus stay as they are.
    pub fn set_active_orbital(&mut self, orbital: Orbital)
        requires
            old(self).wf(),
        ensures
            final (self).wf(),
            final (self).element == old(self).element,
            final (self).nucleus == old(self).nucleus,
            final (self).active_orbital == orbital,
            final (self).electrons@.len() == old(self).electrons@.len(),
            forall|i: int|
                0 <= i < final (self).electrons@.len() ==> final (self).electrons@[i].orbital
                    == orbital,
    {
        self.active_orbital = orbital;
        let count: usize = self.electrons.len();
        let mut electrons: Vec<Electron> = Vec::new();
        let mut i: usize = 0;
        while i < count
            invariant
                i <= count,
                electrons@.len() == i as int,
                forall|j: int| 0 <= j < i as int ==> electrons@[j].orbital == orbital,
            decreases count - i,
        {
            electrons.push(Electron::new(orbital));
            i = i + 1;
        }
        self.electrons = electrons;
    }
}

} // verus!
