//! The container with a holder on its unexpected side, and the container
//! as a link of a cause chain.

use crate::cause::{chain_of, names_source, Cause};
use crate::exun::Exun;
use crate::render::displays_as;
use crate::unexpected::{RawUnexpected, UnexpectedError};
use std::error::Error;
use std::fmt::Display;
use vstd::prelude::*;

verus! {

/// An [`Exun`] whose unexpected side is a [`RawUnexpected`].
pub type Expect<E> = Exun<E, RawUnexpected>;

impl<E: Display> Exun<E, RawUnexpected> {
    /// Renders whichever payload is present: an expected one as it displays
    /// itself, a boxed one as the box reads.
    pub fn to_string(&self) -> (text: String)
        ensures
            match *self {
                Exun::Expected(e) => displays_as(&e, text@),
                Exun::Unexpected(u) => text@ == u@.display(),
            },
    {
        match self {
            Exun::Expected(e) => e.to_string(),
            Exun::Unexpected(u) => u.to_string(),
        }
    }
}

impl<E: Display> Exun<E, UnexpectedError> {
    /// Renders whichever payload is present: an expected one as it displays
    /// itself, a boxed one as the box reads.
    pub fn to_string(&self) -> (text: String)
        ensures
            match *self {
                Exun::Expected(e) => displays_as(&e, text@),
                Exun::Unexpected(u) => text@ == u@.display(),
            },
    {
        match self {
            Exun::Expected(e) => e.to_string(),
            Exun::Unexpected(u) => u.to_string(),
        }
    }
}

impl<E: Error, U: Error> Exun<E, U> {
    /// The source of the container in a cause chain: the source that the
    /// payload names, or nothing where it names none.
    ///
    /// The container is no link of its own. It stands where its payload
    /// stands, and what lies below the payload lies below the container.
    pub fn source(&self) -> (link: Option<Cause>)
        ensures
            match *self {
                Exun::Expected(e) => names_source(&e, chain_of(link)),
                Exun::Unexpected(u) => names_source(&u, chain_of(link)),
            },
    {
        match self {
            Exun::Expected(e) => Cause::render_source(e),
            Exun::Unexpected(u) => Cause::render_source(u),
        }
    }
}

impl<E: Error> Exun<E, RawUnexpected> {
    /// The source of the container in a cause chain: the source that an
    /// expected payload names, or the source of the box.
    pub fn source(&self) -> (link: Option<Cause>)
        ensures
            match *self {
                Exun::Expected(e) => names_source(&e, chain_of(link)),
                Exun::Unexpected(u) => chain_of(link) == u@.source(),
            },
    {
        match self {
            Exun::Expected(e) => Cause::render_source(e),
            Exun::Unexpected(u) => match u.source() {
                Some(below) => Some(below.clone()),
                None => None,
            },
        }
    }
}

impl<E: Error> Exun<E, UnexpectedError> {
    /// The source of the container in a cause chain: the source that an
    /// expected payload names, or the source of the box.
    pub fn source(&self) -> (link: Option<Cause>)
        ensures
            match *self {
                Exun::Expected(e) => names_source(&e, chain_of(link)),
                Exun::Unexpected(u) => chain_of(link) == u@.source(),
            },
    {
        match self {
            Exun::Expected(e) => Cause::render_source(e),
            Exun::Unexpected(u) => match u.source() {
                Some(below) => Some(below.clone()),
                None => None,
            },
        }
    }
}

impl<E> From<RawUnexpected> for Exun<E, RawUnexpected> {
    /// A boxed failure is an unexpected one.
    fn from(ue: RawUnexpected) -> (lifted: Self)
        ensures
            lifted == Exun::<E, RawUnexpected>::Unexpected(ue),
    {
        Exun::Unexpected(ue)
    }
}

impl<E> vstd::std_specs::convert::FromSpecImpl<RawUnexpected> for Exun<E, RawUnexpected> {
    open spec fn obeys_from_spec() -> bool {
        true
    }

    open spec fn from_spec(ue: RawUnexpected) -> Self {
        Exun::Unexpected(ue)
    }
}

impl<E> From<RawUnexpected> for Exun<E, UnexpectedError> {
    /// A boxed failure is an unexpected one, here in its chainable form.
    fn from(ue: RawUnexpected) -> (lifted: Self)
        ensures
            lifted == Exun::<E, UnexpectedError>::Unexpected(UnexpectedError::wrap(ue)),
            lifted matches Exun::Unexpected(chainable) && chainable@ == ue@,
    {
        Exun::Unexpected(UnexpectedError::from(ue))
    }
}

impl<E> vstd::std_specs::convert::FromSpecImpl<RawUnexpected> for Exun<E, UnexpectedError> {
    open spec fn obeys_from_spec() -> bool {
        true
    }

    open spec fn from_spec(ue: RawUnexpected) -> Self {
        Exun::Unexpected(UnexpectedError::wrap(ue))
    }
}

} // verus!
