//! Errors of the Habitat Supervisor: the kinds of failure it reports, the
//! location each error was raised at, and the texts shown for them.

pub mod text;
pub mod quote;
pub mod paint;
pub mod ident;
pub mod error;

pub use error::{Cause, Error, SupError, LOGKEY};
pub use ident::PackageIdent;
