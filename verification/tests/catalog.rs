use orbital_cloud::element::Element;

#[test]
fn hydrogen_by_number() {
    let h = Element::by_atomic_number(1).unwrap();
    assert_eq!(h.atomic_number, 1);
    assert_eq!(h.symbol(), "H");
    assert_eq!(h.name(), "Hydrogen");
    assert_eq!(h.default_neutron_count(), 0);
    assert_eq!(h.atomic_weight_micro, 1_008_000);
}

#[test]
fn helium_by_number() {
    let he = Element::by_atomic_number(2).unwrap();
    assert_eq!(he.atomic_number, 2);
    assert_eq!(he.symbol(), "He");
    assert_eq!(he.name(), "Helium");
    assert_eq!(he.default_neutron_count(), 2);
    assert_eq!(he.atomic_weight_micro, 4_002_600);
}

#[test]
fn unknown_is_not_found() {
    assert!(Element::by_atomic_number(255).is_none());
    assert!(Element::by_atomic_number(0).is_none());
    assert!(Element::by_atomic_number(3).is_none());
}

#[test]
fn all_elements_in_order() {
    let elements = Element::all();
    assert_eq!(elements.len(), 2);
    assert_eq!(elements[0].atomic_number, 1);
    assert_eq!(elements[0].symbol(), "H");
    assert_eq!(elements[1].atomic_number, 2);
    assert_eq!(elements[1].symbol(), "He");
}

#[test]
fn named_constructors_match_catalog() {
    let h = Element::hydrogen();
    assert_eq!(h.atomic_number, 1);
    assert_eq!(h.name(), "Hydrogen");
    let he = Element::helium();
    assert_eq!(he.atomic_number, 2);
    assert_eq!(he.name(), "Helium");
}
