//! Marking the failure of a `Result`, or the lack of a value in an
//! `Option`, as unexpected.

use crate::exun::Exun;
use crate::sealed::Sealed;
use crate::unexpected::{Errorable, RawUnexpected, UnexpectedView};
use std::error::Error;
use std::fmt::Debug;
use vstd::prelude::*;

verus! {

/// Provides `unexpect`, which marks a failure as one that was not expected.
///
/// For a result whose failure is an error of any other type, the function
/// [`unexpect`] does the same.
pub trait ResultErrorExt<T>: Sealed<Success = T> {
    /// Marks the failure of `self` as unexpected.
    ///
    /// A value that is there passes through as it is; only the lack of one is
    /// boxed.
    fn unexpect(self) -> (converted: Result<T, RawUnexpected>)
        ensures
            match self.success() {
                Some(value) => converted == Ok::<T, RawUnexpected>(value),
                None => converted is Err,
            },
    ;
}

impl<T> ResultErrorExt<T> for Result<T, RawUnexpected> {
    /// A failure that is boxed already stays as it is.
    fn unexpect(self) -> (converted: Result<T, RawUnexpected>)
        ensures
            converted == self,
    {
        self
    }
}

impl<T> ResultErrorExt<T> for Option<T> {
    /// The lack of a value becomes the box that stands for it.
    fn unexpect(self) -> (converted: Result<T, RawUnexpected>)
        ensures
            self is None ==> (converted matches Err(boxed) && boxed@ == UnexpectedView::Absent),
    {
        match self {
            Some(value) => Ok(value),
            None => Err(RawUnexpected::none()),
        }
    }
}

/// Marks the failure of `result` as unexpected and keeps its place in a cause
/// chain.
///
/// A success passes through as it is. A failure is boxed as a cause that
/// reads as the failure does.
pub fn unexpect<T, E: Error + Send + Sync + 'static>(result: Result<T, E>) -> (converted: Result<
    T,
    RawUnexpected,
>)
    ensures
        match result {
            Ok(value) => converted == Ok::<T, RawUnexpected>(value),
            Err(error) => converted matches Err(boxed) && boxed@.is_cause_of(&error),
        },
{
    match result {
        Ok(value) => Ok(value),
        Err(error) => Err(RawUnexpected::new(error)),
    }
}

/// Provides `unexpect_msg`, which marks a failure as unexpected and keeps its
/// text alone.
pub trait ResultMsgExt<T>: Sealed<Success = T> {
    /// Marks the failure of `self` as unexpected.
    ///
    /// A value that is there passes through as it is; only a failure is
    /// boxed.
    fn unexpect_msg(self) -> (converted: Result<T, RawUnexpected>)
        ensures
            match self.success() {
                Some(value) => converted == Ok::<T, RawUnexpected>(value),
                None => converted is Err,
            },
    ;
}

impl<T, E: Errorable + 'static> ResultMsgExt<T> for Result<T, E> {
    /// A failure is boxed as a message that reads as the failure does.
    fn unexpect_msg(self) -> (converted: Result<T, RawUnexpected>)
        ensures
            self matches Err(error) ==> (converted matches Err(boxed) && boxed@.is_message_of(
                &error,
            )),
    {
        match self {
            Ok(value) => Ok(value),
            Err(error) => Err(RawUnexpected::msg(error)),
        }
    }
}

impl<T> ResultMsgExt<T> for Result<T, RawUnexpected> {
    /// A failure that is boxed already stays as it is.
    fn unexpect_msg(self) -> (converted: Result<T, RawUnexpected>)
        ensures
            converted == self,
    {
        self
    }
}

/// Reaches into the failure of a result whose failure is an [`Exun`]: takes
/// out or transforms one of its two sides and leaves a success as it is.
pub trait ResultExunExt<T, E, U>: Sealed<Success = T> {
    /// The result that `self` is.
    spec fn as_result(self) -> Result<T, Exun<E, U>>;

    /// The expected failure, if that is what `self` holds. A success and an
    /// unexpected failure are discarded.
    fn expected_err(self) -> (payload: Option<E>)
        ensures
            payload == (match self.as_result() {
                Err(Exun::Expected(e)) => Some(e),
                _ => None,
            }),
    ;

    /// The unexpected failure, if that is what `self` holds. A success and
    /// an expected failure are discarded.
    fn unexpected_err(self) -> (payload: Option<U>)
        ensures
            payload == (match self.as_result() {
                Err(Exun::Unexpected(u)) => Some(u),
                _ => None,
            }),
    ;

    /// Applies `op` to an expected failure and leaves a success and an
    /// unexpected failure as they are.
    fn map_expected_err<F, O: FnOnce(E) -> F>(self, op: O) -> (mapped: Result<T, Exun<F, U>>)
        requires
            self.as_result() matches Err(Exun::Expected(e)) ==> op.requires((e,)),
        ensures
            match self.as_result() {
                Ok(value) => mapped == Ok::<T, Exun<F, U>>(value),
                Err(Exun::Expected(e)) => mapped matches Err(Exun::Expected(f)) && op.ensures(
                    (e,),
                    f,
                ),
                Err(Exun::Unexpected(u)) => mapped == Err::<T, Exun<F, U>>(Exun::Unexpected(u)),
            },
    ;

    /// Applies `op` to an unexpected failure and leaves a success and an
    /// expected failure as they are.
    fn map_unexpected_err<F, O: FnOnce(U) -> F>(self, op: O) -> (mapped: Result<T, Exun<E, F>>)
        requires
            self.as_result() matches Err(Exun::Unexpected(u)) ==> op.requires((u,)),
        ensures
            match self.as_result() {
                Ok(value) => mapped == Ok::<T, Exun<E, F>>(value),
                Err(Exun::Expected(e)) => mapped == Err::<T, Exun<E, F>>(Exun::Expected(e)),
                Err(Exun::Unexpected(u)) => mapped matches Err(Exun::Unexpected(f)) && op.ensures(
                    (u,),
                    f,
                ),
            },
    ;

    /// Takes the expected failure out of its [`Exun`]. The caller has to know
    /// that `self` holds no unexpected failure.
    fn unwrap_result(self) -> (plain: Result<T, E>) where U: Debug
        requires
            !(self.as_result() matches Err(Exun::Unexpected(_))),
        ensures
            match self.as_result() {
                Ok(value) => plain == Ok::<T, E>(value),
                Err(error) => error == Exun::<E, U>::Expected(plain->Err_0) && plain is Err,
            },
    ;

    /// Returns the expected failure of a result known to hold one.
    fn unwrap_expected_err(self) -> (payload: E) where T: Debug, U: Debug
        requires
            self.as_result() matches Err(Exun::Expected(_)),
        ensures
            self.as_result() == Err::<T, Exun<E, U>>(Exun::Expected(payload)),
    ;

    /// Returns the unexpected failure of a result known to hold one.
    fn unwrap_unexpected_err(self) -> (payload: U) where T: Debug, E: Debug
        requires
            self.as_result() matches Err(Exun::Unexpected(_)),
        ensures
            self.as_result() == Err::<T, Exun<E, U>>(Exun::Unexpected(payload)),
    ;
}

impl<T, E, U> ResultExunExt<T, E, U> for Result<T, Exun<E, U>> {
    open spec fn as_result(self) -> Result<T, Exun<E, U>> {
        self
    }

    fn expected_err(self) -> (payload: Option<E>) {
        match self {
            Ok(_) => None,
            Err(error) => error.expected(),
        }
    }

    fn unexpected_err(self) -> (payload: Option<U>) {
        match self {
            Ok(_) => None,
            Err(error) => error.unexpected(),
        }
    }

    fn map_expected_err<F, O: FnOnce(E) -> F>(self, op: O) -> (mapped: Result<T, Exun<F, U>>) {
        match self {
            Ok(value) => Ok(value),
            Err(error) => Err(error.map(op)),
        }
    }

    fn map_unexpected_err<F, O: FnOnce(U) -> F>(self, op: O) -> (mapped: Result<T, Exun<E, F>>) {
        match self {
            Ok(value) => Ok(value),
            Err(error) => Err(error.map_unexpected(op)),
        }
    }

    fn unwrap_result(self) -> (plain: Result<T, E>) where U: Debug {
        match self {
            Ok(value) => Ok(value),
            Err(error) => Err(error.unwrap()),
        }
    }

    fn unwrap_expected_err(self) -> (payload: E) where T: Debug, U: Debug {
        self.unwrap_err().unwrap()
    }

    fn unwrap_unexpected_err(self) -> (payload: U) where T: Debug, E: Debug {
        self.unwrap_err().unwrap_unexpected()
    }
}

} // verus!
