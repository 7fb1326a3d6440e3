//! The primitive decoders from which the module decoder is built.

pub mod byte;
pub mod traits;
pub mod unsigned;
pub mod signed;
pub mod float;
pub mod pair;
pub mod vec;
pub mod array;
pub mod sized;
pub mod string;
