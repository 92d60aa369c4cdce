//! The decisions behind one frame of the control panel: which edits take
//! effect, in what order, and whether the point cloud must be regenerated.

use crate::atom::Atom;
use crate::element::Element;
use crate::orbital::Orbital;
use crate::sampler::SampleConfig;
use crate::ui::{UiState, spec_synced_l, spec_synced_m, spec_synced_n};
use vstd::prelude::*;

verus! {

/// The orbital the panel describes once its quantum numbers are pulled back
/// into a valid triple.
pub open spec fn spec_synced_orbital(ui: UiState) -> Orbital {
    let l = spec_synced_l(ui.principal_n, ui.angular_l);
    Orbital { n: spec_synced_n(ui.principal_n), l, m: spec_synced_m(l, ui.magnetic_m) }
}

/// Whether applying the panel state replaces the atom: the selected number
/// differs from the current element and names a cataloged element.  A number
/// the catalog lacks changes nothing — the selection falls back to the
/// current element instead.
pub open spec fn spec_element_change(ui: UiState, atom: Atom) -> bool {
    &&& ui.selected_atomic_number != atom.element.atomic_number
    &&& Element::spec_lookup(ui.selected_atomic_number) is Some
}

/// Whether applying the panel state moves the electrons to a new orbital:
/// the synchronized panel orbital differs from the one the atom would
/// otherwise keep (the ground state, if the atom was just rebuilt).
pub open spec fn spec_orbital_change(ui: UiState, atom: Atom) -> bool {
    spec_synced_orbital(ui) != (if spec_element_change(ui, atom) {
        Orbital { n: 1u8, l: 0u8, m: 0i8 }
    } else {
        atom.active_orbital
    })
}

/// Applies one frame of panel edits to the simulation state and reports
/// whether the point cloud must be regenerated.
///
/// The quantum numbers are synchronized first; then the element selection is
/// applied (an unknown atomic number falls back to the current element), the
/// sample count is taken over, and the active orbital is replaced if it
/// changed.  Any pending resample request is consumed.
pub fn apply_ui_changes(ui: &mut UiState, atom: &mut Atom, config: &mut SampleConfig) -> (resample:
    bool)
    requires
        old(atom).wf(),
    ensures
        final (atom).wf(),
        final (ui).principal_n == spec_synced_n(old(ui).principal_n),
        final (ui).angular_l == spec_synced_l(old(ui).principal_n, old(ui).angular_l),
        final (ui).magnetic_m == spec_synced_m(final (ui).angular_l, old(ui).magnetic_m),
        final (ui).sample_count == old(ui).sample_count,
        final (ui).resample_requested == false,
        spec_element_change(*old(ui), *old(atom)) ==> {
            &&& final (atom).element == Element::spec_lookup(
                old(ui).selected_atomic_number,
            )->Some_0
            &&& final (ui).selected_atomic_number == old(ui).selected_atomic_number
        },
        !spec_element_change(*old(ui), *old(atom)) ==> {
            &&& final (atom).element == old(atom).element
            &&& final (atom).nucleus == old(atom).nucleus
            &&& final (ui).selected_atomic_number == old(atom).element.atomic_number
        },
        final (config).samples == old(ui).sample_count,
        final (atom).active_orbital == spec_synced_orbital(*old(ui)),
        resample == (old(ui).resample_requested || spec_element_change(*old(ui), *old(atom))
            || old(config).samples != old(ui).sample_count || spec_orbital_change(
            *old(ui),
            *old(atom),
        )),
{
    ui.sync_quantum_numbers();

    let mut resample_needed = false;

    let desired_atomic_number: u8 = ui.selected_atomic_number;
    if desired_atomic_number != atom.element().atomic_number {
        match Element::by_atomic_number(desired_atomic_number) {
            Some(element) => {
                *atom = Atom::new(element);
                resample_needed = true;
            },
            None => {
                ui.selected_atomic_number = atom.element().atomic_number;
            },
        }
    }

    if config.samples != ui.sample_count {
        *config = SampleConfig::new(ui.sample_count);
        resample_needed = true;
    }

    let desired_orbital = ui.current_orbital();
    let active = *atom.active_orbital();
    if active != desired_orbital {
        atom.set_active_orbital(desired_orbital);
        resample_needed = true;
    }

    let requested = ui.take_resample_request();
    requested || resample_needed
}

} // verus!
