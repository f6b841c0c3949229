//! Errors of the interface layer.
use vstd::prelude::*;

verus! {

/// An error of the interface: of its own state, or reported by the core.
#[derive(Debug)]
pub enum TuiError {
    State { message: String },
    Core(String),
}

/// The result type of the interface layer.
pub type TuiResult<T> = Result<T, TuiError>;

} // verus!
