//! Time-sliced electrode voltage waveforms for single-ion transport in a
//! surface trap.
//!
//! The crate is generic over an abstract real scalar ([`scalar::Real`]): a
//! trap model of potential bases yields a 6-row constraint system per
//! waypoint, a regularized least-squares solver (LSQR on the augmented
//! Tikhonov system) yields the electrode voltages, and a Jacobi
//! eigendecomposition reports secular frequencies. Every executable path
//! is specified exactly, as a function of the scalar's operations.

pub mod basis;
pub mod c2lr;
pub mod constraints;
pub mod csv;
pub mod dynamics;
pub mod lsq;
pub mod sat64;
pub mod scalar;
pub mod text;
pub mod types;
