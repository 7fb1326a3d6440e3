//! The building blocks of grammars.

pub mod derive;
pub mod error;
pub mod list;
pub mod signed;
pub mod traits;
pub mod unsigned;
pub mod vec;
