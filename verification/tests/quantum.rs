use orbital_cloud::orbital::{DensityForm, Orbital};

#[test]
fn ground_state_is_valid() {
    let g = Orbital::ground_state();
    assert_eq!(g.n, 1);
    assert_eq!(g.l, 0);
    assert_eq!(g.m, 0);
    assert!(g.is_ground_state());
    assert!(!Orbital::new(2, 0, 0).is_ground_state());
}

#[test]
fn try_new_rejects_l_not_below_n() {
    assert!(Orbital::try_new(1, 1, 0).is_none());
    assert!(Orbital::try_new(2, 2, 0).is_none());
    assert!(Orbital::try_new(2, 3, 0).is_none());
    assert!(Orbital::try_new(0, 0, 0).is_none());
    assert!(Orbital::try_new(2, 1, 0).is_some());
    assert!(Orbital::try_new(3, 2, 0).is_some());
}

#[test]
fn try_new_rejects_m_beyond_l() {
    assert!(Orbital::try_new(2, 1, 2).is_none());
    assert!(Orbital::try_new(2, 1, -2).is_none());
    assert!(Orbital::try_new(2, 0, 1).is_none());
    assert!(Orbital::try_new(3, 2, -3).is_none());
    assert!(Orbital::try_new(2, 1, -1).is_some());
    assert!(Orbital::try_new(2, 1, 1).is_some());
    let o = Orbital::try_new(3, 2, -2).unwrap();
    assert_eq!((o.n, o.l, o.m), (3, 2, -2));
}

#[test]
fn density_form_selection() {
    assert_eq!(Orbital::new(1, 0, 0).density_form(), DensityForm::GroundS);
    assert_eq!(Orbital::new(2, 0, 0).density_form(), DensityForm::SecondS);
    assert_eq!(Orbital::new(2, 1, 0).density_form(), DensityForm::Gaussian);
    assert_eq!(Orbital::new(3, 0, 0).density_form(), DensityForm::Gaussian);
    assert_eq!(Orbital::new(3, 2, 1).density_form(), DensityForm::Gaussian);
}

#[test]
fn max_density_form_selection() {
    assert_eq!(Orbital::new(1, 0, 0).max_density_form(), DensityForm::GroundS);
    assert_eq!(Orbital::new(2, 0, 0).max_density_form(), DensityForm::SecondS);
    assert_eq!(Orbital::new(2, 1, 0).max_density_form(), DensityForm::Gaussian);
    assert_eq!(Orbital::new(4, 0, 0).max_density_form(), DensityForm::Gaussian);
}

#[test]
fn bounding_radius_factor_values() {
    assert_eq!(Orbital::new(1, 0, 0).bounding_radius_factor(), 4);
    assert_eq!(Orbital::new(2, 0, 0).bounding_radius_factor(), 8);
    assert_eq!(Orbital::new(3, 1, 0).bounding_radius_factor(), 36);
    assert_eq!(Orbital::new(6, 0, 0).bounding_radius_factor(), 144);
    assert_eq!(Orbital::new(255, 0, 0).bounding_radius_factor(), 4 * 255 * 255);
}
