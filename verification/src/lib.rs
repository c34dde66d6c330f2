//! A boundary-representation kernel on an exact integer lattice: sweeping
//! vertices and edges into edges and faces, and approximating the boundaries
//! of faces by points.

pub mod math;
pub mod objects;
pub mod builder;
pub mod approx;
pub mod distinct;
pub mod shape;
pub mod sweep;
pub mod trapezoidation;
