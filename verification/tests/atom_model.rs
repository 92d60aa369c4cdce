use orbital_cloud::atom::{Atom, Electron, Spin};
use orbital_cloud::element::Element;
use orbital_cloud::orbital::Orbital;

#[test]
fn atom_new_starts_in_ground_state() {
    let atom = Atom::new(Element::helium());
    assert_eq!(atom.element().symbol(), "He");
    assert!(atom.active_orbital().is_ground_state());
    assert_eq!(atom.electrons().len(), 2);
    for electron in atom.electrons() {
        assert!(electron.orbital().is_ground_state());
    }
    assert_eq!(atom.nucleus().proton_count(), 2);
    assert_eq!(atom.nucleus().neutron_count(), 2);
}

#[test]
fn hydrogen_atom_has_one_electron_no_neutrons() {
    let atom = Atom::new(Element::hydrogen());
    assert_eq!(atom.electrons().len(), 1);
    assert_eq!(atom.nucleus().proton_count(), 1);
    assert_eq!(atom.nucleus().neutron_count(), 0);
}

#[test]
fn set_active_orbital_updates_every_electron() {
    let mut atom = Atom::new(Element::helium());
    let excited = Orbital::new(2, 0, 0);
    atom.set_active_orbital(excited);
    assert_eq!(*atom.active_orbital(), excited);
    assert_eq!(atom.electrons().len(), 2);
    for electron in atom.electrons() {
        assert_eq!(*electron.orbital(), excited);
    }
    assert_eq!(atom.nucleus().proton_count(), 2);
    assert_eq!(atom.nucleus().neutron_count(), 2);
}

#[test]
fn electron_keeps_its_orbital() {
    let orbital = Orbital::new(2, 1, -1);
    let electron = Electron::new(orbital);
    assert_eq!(*electron.orbital(), orbital);
}

#[test]
fn spin_variants_differ() {
    assert_ne!(Spin::Up, Spin::Down);
    assert_eq!(Spin::Up, Spin::Up);
}
