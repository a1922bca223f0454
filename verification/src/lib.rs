pub mod curve;
pub mod errors;
pub mod laws;
pub mod ops;
pub mod state;
