//! Failures that a program is prepared to handle, and failures that it is
//! not.
//!
//! [`Exun`] holds a failure of either kind and keeps the two apart while the
//! value is handed on. [`RawUnexpected`] holds any unexpected failure
//! behind one shape; [`UnexpectedError`] is the same holder in a form that
//! can itself stand in a cause chain. The traits of [`result`] mark the
//! failure of a `Result` or the lack of a value in an `Option` as unexpected.
//!
//! The parts build on one another and each only adds: [`exun`] is the
//! container alone, [`cause`] and [`unexpected`] add the holders and their
//! chains, [`expect`] puts a holder into the container, and [`result`] adds
//! the conversions.

pub mod cause;
pub mod expect;
pub mod exun;
pub mod render;
pub mod result;
mod sealed;
pub mod unexpected;

pub use crate::cause::Cause;
pub use crate::expect::Expect;
pub use crate::exun::Exun;
pub use crate::exun::Exun::{Expected, Unexpected};
pub use crate::result::{ResultErrorExt, ResultExunExt, ResultMsgExt};
pub use crate::unexpected::{RawUnexpected, UnexpectedError};
