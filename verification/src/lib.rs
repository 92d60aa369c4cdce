//! Hydrogen-like atomic orbitals as weighted point clouds.
//!
//! The crate models the quantum numbers of an orbital, a small element
//! catalog, the deterministic layout of a nucleus, and the decision logic of
//! the Monte Carlo sampler that turns a probability density into a point
//! cloud.  Floating-point evaluation of the density itself is left to the
//! surrounding application; everything that can be stated over integers is
//! verified here.

pub mod atom;
pub mod cloud;
pub mod control;
pub mod element;
pub mod nucleus;
pub mod orbital;
pub mod sampler;
pub mod ui;

pub use atom::Atom;
pub use element::Element;
pub use nucleus::{Nucleus, NucleusBuilder};
pub use orbital::Orbital;
pub use sampler::{RejectionRun, SampleConfig};
pub use ui::UiState;
