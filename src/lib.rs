//! Lumped conceptual rainfall-runoff models: GR4J (daily) and GR2M (monthly).
//!
//! The models are written over an abstract arithmetic (see [`Scalar`]), whose
//! operations are named by spec functions. Each model step, each run, each
//! kernel and each convolution buffer update is specified exactly over those
//! names, and laws about runs (chaining, determinism of cold starts, kernel
//! lengths) are proved from the specifications.
pub mod gr2m;
pub mod gr4j;
pub mod scalar;
pub mod unit_hydrograph;

pub use gr2m::{GR2MModel, GR2MParams};
pub use gr4j::{GR4JModel, GR4JParams, ParamError};
pub use scalar::Scalar;
