//! Building blocks shared by the features.

pub mod conv;
pub mod flag;
pub mod style;
pub mod text;
