//! A safe, verified bookkeeping layer for a native convex-hull / Delaunay
//! engine.
//!
//! The native engine signals failure by abrupt non-local control transfer and
//! hands its results back as doubly linked lists of graph nodes that end in a
//! sentinel.  This crate holds the logic of the safety layer that surrounds
//! such an engine: the error taxonomy and its total classification of abort
//! codes, plain-value views over the engine's face / ridge / vertex nodes, a
//! facade that models the engine's output lists and maps vertices back to
//! their input index, and a builder that validates and flattens input
//! coordinates before the engine ever sees them.
//!
//! Coordinates are carried as opaque 64-bit encodings: the layer never
//! interprets a coordinate's numeric value, only arities, counts and
//! addresses, so every rule it applies is stated and proved here.

pub mod builder;
pub mod error;
pub mod facade;
pub mod views;

pub use builder::{CollectedCoords, DimensionMismatch, QhBuilder};
pub use error::{QhError, QhErrorKind};
pub use facade::{Qh, QhState};
pub use views::{Face, Ridge, Vertex};
