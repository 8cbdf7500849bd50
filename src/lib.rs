//! Semantic normalization for a C front end: folds parsed declaration
//! specifiers, declarators and function definitions into a small canonical
//! type model and signature records.
pub mod types;
pub mod syntax;
pub mod number;
pub mod specifiers;
pub mod derived;
pub mod extract;
pub mod laws;

pub use types::{ConstIteration, DeclInfo, FnInfo, ResolveError, Ty};
