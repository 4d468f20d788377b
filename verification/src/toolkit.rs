//! Supporting toolkit: image handling and text location, checksums, and
//! bounded random numbers.
pub mod digest;
pub mod error;
pub mod image;
pub mod rand;
