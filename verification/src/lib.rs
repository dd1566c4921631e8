mod error;
mod tolerance;

pub use error::NumalError;
pub use tolerance::convergence_outcome;
