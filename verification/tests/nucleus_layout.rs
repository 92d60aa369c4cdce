use orbital_cloud::nucleus::{NucleusBuilder, Placement, fibonacci_placements};

#[test]
fn empty_nucleus_has_no_particles() {
    let nucleus = NucleusBuilder::new(0, 0).build();
    assert_eq!(nucleus.proton_count(), 0);
    assert_eq!(nucleus.neutron_count(), 0);
}

#[test]
fn single_particle_sits_at_origin() {
    let nucleus = NucleusBuilder::new(1, 0).build();
    assert_eq!(nucleus.proton_count(), 1);
    assert_eq!(nucleus.protons[0].placement, Placement::Origin);

    let nucleus = NucleusBuilder::new(1, 1).build();
    assert_eq!(nucleus.protons[0].placement, Placement::Origin);
    assert_eq!(nucleus.neutrons[0].placement, Placement::Origin);
}

#[test]
fn lattice_slots_are_consecutive() {
    let nucleus = NucleusBuilder::new(3, 2).build();
    assert_eq!(nucleus.proton_count(), 3);
    assert_eq!(nucleus.neutron_count(), 2);
    for (i, p) in nucleus.protons.iter().enumerate() {
        assert_eq!(p.placement, Placement::Lattice { index: i, count: 3 });
    }
    for (i, n) in nucleus.neutrons.iter().enumerate() {
        assert_eq!(n.placement, Placement::Lattice { index: i, count: 2 });
    }
}

#[test]
fn placement_special_cases() {
    assert!(fibonacci_placements(0).is_empty());
    let one = fibonacci_placements(1);
    assert_eq!(one.len(), 1);
    assert_eq!(one[0], Placement::Origin);
    let two = fibonacci_placements(2);
    assert_eq!(two[0], Placement::Lattice { index: 0, count: 2 });
    assert_eq!(two[1], Placement::Lattice { index: 1, count: 2 });
}

#[test]
fn effective_mass_number_is_clamped() {
    assert_eq!(NucleusBuilder::new(0, 0).effective_mass_number(), 1);
    assert_eq!(NucleusBuilder::new(1, 0).effective_mass_number(), 1);
    assert_eq!(NucleusBuilder::new(1, 2).effective_mass_number(), 3);
}

#[test]
fn total_mass_adds_up() {
    let hydrogen_nucleus = NucleusBuilder::new(1, 0).build();
    assert_eq!(hydrogen_nucleus.total_mass_micro_amu(), 1_007_276);
    let helium_nucleus = NucleusBuilder::new(2, 2).build();
    assert_eq!(helium_nucleus.total_mass_micro_amu(), 2 * 1_007_276 + 2 * 1_008_665);
}
