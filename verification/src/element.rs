//! A fixed catalog of chemical elements, looked up by atomic number.

use vstd::prelude::*;

verus! {

/// Basic metadata describing a chemical element.
///
/// The standard atomic weight is carried in millionths of an atomic mass
/// unit, so that the catalog stays within plain integer values; a consumer
/// that needs the weight as a physical quantity divides by one million.
#[derive(Clone, Copy, Debug)]
pub struct Element {
    pub atomic_number: u8,
    pub symbol: &'static str,
    pub name: &'static str,
    pub atomic_weight_micro: u64,
    pub default_neutrons: u8,
}

impl Element {
    /// Hydrogen, as the catalog holds it.
    pub open spec fn spec_hydrogen() -> Element {
        Element {
            atomic_number: 1u8,
            symbol: "H",
            name: "Hydrogen",
            atomic_weight_micro: 1_008_000u64,
            default_neutrons: 0u8,
        }
    }

    /// Helium, as the catalog holds it.
    pub open spec fn spec_helium() -> Element {
        Element {
            atomic_number: 2u8,
            symbol: "He",
            name: "Helium",
            atomic_weight_micro: 4_002_600u64,
            default_neutrons: 2u8,
        }
    }

    /// Every element the catalog knows, in order of atomic number.
    pub open spec fn spec_catalog() -> Seq<Element> {
        seq![Element::spec_hydrogen(), Element::spec_helium()]
    }

    pub fn new(
        atomic_number: u8,
        symbol: &'static str,
        name: &'static str,
        atomic_weight_micro: u64,
        default_neutrons: u8,
    ) -> (r: Element)
        ensures
            r == (Element { atomic_number, symbol, name, atomic_weight_micro, default_neutrons }),
    {
        Element { atomic_number, symbol, name, atomic_weight_micro, default_neutrons }
    }

    pub fn hydrogen() -> (r: Element)
        ensures
            r == Element::spec_hydrogen(),
    {
        Element::new(1, "H", "Hydrogen", 1_008_000, 0)
    }

    pub fn helium() -> (r: Element)
        ensures
            r == Element::spec_helium(),
    {
        Element::new(2, "He", "Helium", 4_002_600, 2)
    }

    /// What looking up an atomic number yields.
    pub open spec fn spec_lookup(z: u8) -> Option<Element> {
        if z == 1 {
            Some(Element::spec_hydrogen())
        } else if z == 2 {
            Some(Element::spec_helium())
        } else {
            None
        }
    }

    /// Looks an element up by atomic number; an uncataloged number yields
    /// `None`, never an error.
    pub fn by_atomic_number(z: u8) -> (r: Option<Element>)
        ensures
            r == Element::spec_lookup(z),
            r matches Some(e) ==> e.atomic_number == z,
    {
        if z == 1 {
            Some(Element::hydrogen())
        } else if z == 2 {
            Some(Element::helium())
        } else {
            None
        }
    }

    /// Every cataloged element, in catalog order.
    pub fn all() -> (r: Vec<Element>)
        ensures
            r@ == Element::spec_catalog(),
    {
        let mut elements: Vec<Element> = Vec::new();
        elements.push(Element::hydrogen());
        elements.push(Element::helium());
        proof {
            assert(elements@ =~= Element::spec_catalog());
        }
        elements
    }

    pub fn default_neutron_count(&self) -> (r: usize)
        ensures
            r == self.default_neutrons,
    {
        self.default_neutrons as usize
    }

    pub fn symbol(&self) -> (r: &'static str)
        ensures
            r == self.symbol,
    {
        self.symbol
    }

    pub fn name(&self) -> (r: &'static str)
        ensures
            r == self.name,
    {
        self.name
    }
}

/// Atomic numbers identify catalog entries uniquely.
pub proof fn lemma_catalog_atomic_numbers_unique()
    ensures
        forall|i: int, j: int|
            0 <= i < Element::spec_catalog().len() && 0 <= j < Element::spec_catalog().len()
                && i != j ==> Element::spec_catalog()[i].atomic_number
                != Element::spec_catalog()[j].atomic_number,
{
}

} // verus!
