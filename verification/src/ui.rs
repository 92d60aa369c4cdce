//! Mutable state behind the control panel: the selected element, the edited
//! quantum numbers, the sample count, and the pending resample request.

use crate::orbital::Orbital;
use vstd::prelude::*;

verus! {

/// What the control panel edits.  The quantum-number fields are free-form
/// slider values; [`UiState::sync_quantum_numbers`] pulls them back into a
/// valid orbital triple before they are used.
#[derive(Clone, Debug)]
pub struct UiState {
    pub selected_atomic_number: u8,
    pub principal_n: u8,
    pub angular_l: u8,
    pub magnetic_m: i8,
    pub sample_count: usize,
    pub resample_requested: bool,
}

/// A principal quantum number pulled up to at least one.
pub open spec fn spec_synced_n(n: u8) -> u8 {
    if n == 0 {
        1u8
    } else {
        n
    }
}

/// An azimuthal quantum number pulled below the (synchronized) principal one.
pub open spec fn spec_synced_l(n: u8, l: u8) -> u8 {
    if l >= spec_synced_n(n) {
        (spec_synced_n(n) - 1) as u8
    } else {
        l
    }
}

/// A magnetic quantum number clamped to the (synchronized) azimuthal one.
/// The clamp works in signed 8-bit range: an azimuthal number past that range
/// zeroes the magnetic number outright.
pub open spec fn spec_synced_m(l: u8, m: i8) -> i8 {
    if 1 <= l <= 127 {
        if m < -(l as int) {
            (-(l as int)) as i8
        } else if m > l as int {
            l as i8
        } else {
            m
        }
    } else {
        0i8
    }
}

impl UiState {
    /// Whether the edited quantum numbers form a valid orbital triple.
    pub open spec fn quantum_numbers_valid(self) -> bool {
        (Orbital { n: self.principal_n, l: self.angular_l, m: self.magnetic_m }).valid()
    }

    pub fn new(selected_atomic_number: u8, sample_count: usize, orbital: Orbital) -> (r: UiState)
        ensures
            r.selected_atomic_number == selected_atomic_number,
            r.principal_n == orbital.n,
            r.angular_l == orbital.l,
            r.magnetic_m == orbital.m,
            r.sample_count == sample_count,
            r.resample_requested == false,
    {
        UiState {
            selected_atomic_number,
            principal_n: orbital.n,
            angular_l: orbital.l,
            magnetic_m: orbital.m,
            sample_count,
            resample_requested: false,
        }
    }

    /// The orbital currently described by the panel; callers synchronize the
    /// quantum numbers first.
    pub fn current_orbital(&self) -> (r: Orbital)
        requires
            self.quantum_numbers_valid(),
        ensures
            r == (Orbital { n: self.principal_n, l: self.angular_l, m: self.magnetic_m }),
    {
        Orbital::new(self.principal_n, self.angular_l, self.magnetic_m)
    }

    /// Asks for the point cloud to be regenerated on the next frame.
    pub fn request_resample(&mut self)
        ensures
            final (self).resample_requested == true,
            final (self).selected_atomic_number == old(self).selected_atomic_number,
            final (self).principal_n == old(self).principal_n,
            final (self).angular_l == old(self).angular_l,
            final (self).magnetic_m == old(self).magnetic_m,
            final (self).sample_count == old(self).sample_count,
    {
        self.resample_requested = true;
    }

    /// Consumes a pending resample request, if any.
    pub fn take_resample_request(&mut self) -> (r: bool)
        ensures
            r == old(self).resample_requested,
            final (self).resample_requested == false,
            final (self).selected_atomic_number == old(self).selected_atomic_number,
            final (self).principal_n == old(self).principal_n,
            final (self).angular_l == old(self).angular_l,
            final (self).magnetic_m == old(self).magnetic_m,
            final (self).sample_count == old(self).sample_count,
    {
        let requested = self.resample_requested;
        self.resample_requested = false;
        requested
    }

    /// Pulls the edited quantum numbers back into a valid orbital triple:
    /// n at least one, l below n, m clamped to [-l, l].  The result always
    /// satisfies the orbital invariant.
    pub fn sync_quantum_numbers(&mut self)
        ensures
            final (self).principal_n == spec_synced_n(old(self).principal_n),
            final (self).angular_l == spec_synced_l(old(self).principal_n, old(self).angular_l),
            final (self).magnetic_m == spec_synced_m(final (self).angular_l, old(self).magnetic_m),
            final (self).quantum_numbers_valid(),
            final (self).selected_atomic_number == old(self).selected_atomic_number,
            final (self).sample_count == old(self).sample_count,
            final (self).resample_requested == old(self).resample_requested,
    {
        if self.principal_n == 0 {
            self.principal_n = 1;
        }

        if self.angular_l >= self.principal_n {
            self.angular_l = self.principal_n - 1;
        }

        if 1 <= self.angular_l && self.angular_l <= 127 {
            let max_m: i8 = self.angular_l as i8;
            if self.magnetic_m < -max_m {
                self.magnetic_m = -max_m;
            } else if self.magnetic_m > max_m {
                self.magnetic_m = max_m;
            }
        } else {
            // An azimuthal number of zero leaves no freedom for m; one past
            // the signed 8-bit range cannot serve as a clamp bound.
            self.magnetic_m = 0;
        }
    }
}

} // verus!
