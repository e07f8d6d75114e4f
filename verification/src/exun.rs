//! The container that tells an expected failure from an unexpected one.

use crate::render::displays_as;
use std::cmp::Ordering;
use std::fmt::{Debug, Display};
use vstd::prelude::*;
use vstd::std_specs::cmp::{PartialEqSpec, PartialOrdSpec};

verus! {

/// A failure that is either one the caller is prepared to handle
/// ([`Exun::Expected`]) or one it is not ([`Exun::Unexpected`]).
///
/// Exactly one of the two payloads is present. Which failures count as
/// expected is the caller's decision; the type only keeps the distinction
/// intact while the value is handed on.
#[derive(Debug, Copy, Eq, Hash, Ord)]
pub enum Exun<E, U> {
    /// An anticipated failure, of a type the caller models.
    Expected(E),
    /// A failure from outside the anticipated domain.
    Unexpected(U),
}

impl<E, U> Exun<E, U> {
    /// The expected payload, if that is the side that is present.
    pub open spec fn expected_side(self) -> Option<E> {
        match self {
            Exun::Expected(e) => Some(e),
            Exun::Unexpected(_) => None,
        }
    }

    /// The unexpected payload, if that is the side that is present.
    pub open spec fn unexpected_side(self) -> Option<U> {
        match self {
            Exun::Expected(_) => None,
            Exun::Unexpected(u) => Some(u),
        }
    }

    /// Converts into the expected payload, discarding an unexpected one.
    #[verifier::when_used_as_spec(expected_side)]
    pub fn expected(self) -> (payload: Option<E>)
        ensures
            payload == self.expected_side(),
    {
        match self {
            Exun::Expected(e) => Some(e),
            Exun::Unexpected(_) => None,
        }
    }

    /// Converts into the unexpected payload, discarding an expected one.
    #[verifier::when_used_as_spec(unexpected_side)]
    pub fn unexpected(self) -> (payload: Option<U>)
        ensures
            payload == self.unexpected_side(),
    {
        match self {
            Exun::Expected(_) => None,
            Exun::Unexpected(u) => Some(u),
        }
    }

    /// Borrows whichever payload is present for mutation in place.
    ///
    /// The variant cannot change through the returned view: what the caller
    /// leaves behind the reference is what `self` holds afterwards.
    pub fn as_mut(&mut self) -> (view: Exun<&mut E, &mut U>)
        ensures
            match *old(self) {
                Exun::Expected(e) => {
                    &&& view matches Exun::Expected(slot)
                    &&& *slot == e
                    &&& *final(self) == Exun::<E, U>::Expected(*final(slot))
                },
                Exun::Unexpected(u) => {
                    &&& view matches Exun::Unexpected(slot)
                    &&& *slot == u
                    &&& *final(self) == Exun::<E, U>::Unexpected(*final(slot))
                },
            },
    {
        match self {
            Exun::Expected(e) => Exun::Expected(e),
            Exun::Unexpected(u) => Exun::Unexpected(u),
        }
    }

    /// Applies `op` to an expected payload and leaves an unexpected one as it
    /// is.
    pub fn map<T, F: FnOnce(E) -> T>(self, op: F) -> (mapped: Exun<T, U>)
        requires
            self matches Exun::Expected(e) ==> op.requires((e,)),
        ensures
            match self {
                Exun::Expected(e) => mapped matches Exun::Expected(t) && op.ensures((e,), t),
                Exun::Unexpected(u) => mapped == Exun::<T, U>::Unexpected(u),
            },
    {
        match self {
            Exun::Expected(e) => Exun::Expected(op(e)),
            Exun::Unexpected(u) => Exun::Unexpected(u),
        }
    }

    /// Applies `op` to an unexpected payload and leaves an expected one as it
    /// is.
    pub fn map_unexpected<T, F: FnOnce(U) -> T>(self, op: F) -> (mapped: Exun<E, T>)
        requires
            self matches Exun::Unexpected(u) ==> op.requires((u,)),
        ensures
            match self {
                Exun::Expected(e) => mapped == Exun::<E, T>::Expected(e),
                Exun::Unexpected(u) => mapped matches Exun::Unexpected(t) && op.ensures((u,), t),
            },
    {
        match self {
            Exun::Expected(e) => Exun::Expected(e),
            Exun::Unexpected(u) => Exun::Unexpected(op(u)),
        }
    }

    /// Returns the expected payload.
    ///
    /// The caller has to know that the expected side is present; `msg` says
    /// why it was assumed to be.
    pub fn expect(self, msg: &str) -> (payload: E) where U: Debug
        requires
            self is Expected,
        ensures
            self == Exun::<E, U>::Expected(payload),
    {
        match self {
            Exun::Expected(e) => e,
            Exun::Unexpected(_) => unreached(),
        }
    }

    /// Returns the expected payload of a value known to hold one.
    pub fn unwrap(self) -> (payload: E) where U: Debug
        requires
            self is Expected,
        ensures
            self == Exun::<E, U>::Expected(payload),
    {
        match self {
            Exun::Expected(e) => e,
            Exun::Unexpected(_) => unreached(),
        }
    }

    /// Returns the unexpected payload of a value known to hold one.
    pub fn unwrap_unexpected(self) -> (payload: U) where E: Debug
        requires
            self is Unexpected,
        ensures
            self == Exun::<E, U>::Unexpected(payload),
    {
        match self {
            Exun::Expected(_) => unreached(),
            Exun::Unexpected(u) => u,
        }
    }
}

impl<E: Display, U: Display> Exun<E, U> {
    /// Renders whichever payload is present, as that payload displays
    /// itself.
    pub fn to_string(&self) -> (text: String)
        ensures
            match *self {
                Exun::Expected(e) => displays_as(&e, text@),
                Exun::Unexpected(u) => displays_as(&u, text@),
            },
    {
        match self {
            Exun::Expected(e) => e.to_string(),
            Exun::Unexpected(u) => u.to_string(),
        }
    }
}

/// Of the two sides exactly one is present: never both, never neither.
pub proof fn lemma_exactly_one_side<E, U>(container: Exun<E, U>)
    ensures
        container.expected_side() is Some <==> container.unexpected_side() is None,
        container.expected_side() is None <==> container.unexpected_side() is Some,
{
}

/// Unwrapping returns for the expected side alone: whatever `unwrap` or
/// `expect` hands back was the expected payload, so neither returns for a
/// value that holds an unexpected one. The same holds the other way round
/// of `unwrap_unexpected`.
pub proof fn lemma_unwrap_returns_for_its_side_alone<E: Debug, U: Debug>(
    container: Exun<E, U>,
    msg: &str,
    expected: E,
    unexpected: U,
)
    ensures
        call_ensures(Exun::<E, U>::unwrap, (container,), expected) ==> container == Exun::<
            E,
            U,
        >::Expected(expected),
        call_ensures(Exun::<E, U>::expect, (container, msg), expected) ==> container == Exun::<
            E,
            U,
        >::Expected(expected),
        call_ensures(Exun::<E, U>::unwrap_unexpected, (container,), unexpected) ==> container
            == Exun::<E, U>::Unexpected(unexpected),
        container is Unexpected ==> !call_ensures(Exun::<E, U>::unwrap, (container,), expected),
        container is Unexpected ==> !call_ensures(
            Exun::<E, U>::expect,
            (container, msg),
            expected,
        ),
        container is Expected ==> !call_ensures(
            Exun::<E, U>::unwrap_unexpected,
            (container,),
            unexpected,
        ),
{
}

/// The variant counts before the payload does: an expected value never
/// equals an unexpected one, whatever the two hold, and it orders before it.
pub proof fn lemma_variant_counts_first<E: PartialOrd, U: PartialOrd>(expected: E, unexpected: U)
    ensures
        !Exun::<E, U>::Expected(expected).eq_spec(&Exun::<E, U>::Unexpected(unexpected)),
        Exun::<E, U>::Expected(expected).partial_cmp_spec(&Exun::<E, U>::Unexpected(unexpected))
            == Some(Ordering::Less),
        Exun::<E, U>::Unexpected(unexpected).partial_cmp_spec(&Exun::<E, U>::Expected(expected))
            == Some(Ordering::Greater),
{
}

impl<E: Clone, U: Clone> Clone for Exun<E, U> {
    /// Clones the payload that is present; the variant stays what it was.
    fn clone(&self) -> (copy: Self)
        ensures
            match *self {
                Exun::Expected(e) => copy matches Exun::Expected(c) && cloned::<E>(e, c),
                Exun::Unexpected(u) => copy matches Exun::Unexpected(c) && cloned::<U>(u, c),
            },
    {
        match self {
            Exun::Expected(e) => Exun::Expected(e.clone()),
            Exun::Unexpected(u) => Exun::Unexpected(u.clone()),
        }
    }
}

impl<E: PartialEq, U: PartialEq> PartialEq for Exun<E, U> {
    fn eq(&self, other: &Self) -> (equal: bool) {
        match (self, other) {
            (Exun::Expected(a), Exun::Expected(b)) => a == b,
            (Exun::Unexpected(a), Exun::Unexpected(b)) => a == b,
            _ => false,
        }
    }
}

impl<E: PartialEq, U: PartialEq> vstd::std_specs::cmp::PartialEqSpecImpl for Exun<E, U> {
    open spec fn obeys_eq_spec() -> bool {
        E::obeys_eq_spec() && U::obeys_eq_spec()
    }

    open spec fn eq_spec(&self, other: &Self) -> bool {
        match (*self, *other) {
            (Exun::Expected(a), Exun::Expected(b)) => a.eq_spec(&b),
            (Exun::Unexpected(a), Exun::Unexpected(b)) => a.eq_spec(&b),
            _ => false,
        }
    }
}

impl<E: PartialOrd, U: PartialOrd> PartialOrd for Exun<E, U> {
    fn partial_cmp(&self, other: &Self) -> (order: Option<Ordering>) {
        match (self, other) {
            (Exun::Expected(a), Exun::Expected(b)) => a.partial_cmp(b),
            (Exun::Expected(_), Exun::Unexpected(_)) => Some(Ordering::Less),
            (Exun::Unexpected(_), Exun::Expected(_)) => Some(Ordering::Greater),
            (Exun::Unexpected(a), Exun::Unexpected(b)) => a.partial_cmp(b),
        }
    }
}

impl<E: PartialOrd, U: PartialOrd> vstd::std_specs::cmp::PartialOrdSpecImpl for Exun<E, U> {
    open spec fn obeys_partial_cmp_spec() -> bool {
        E::obeys_partial_cmp_spec() && U::obeys_partial_cmp_spec()
    }

    open spec fn partial_cmp_spec(&self, other: &Self) -> Option<Ordering> {
        match (*self, *other) {
            (Exun::Expected(a), Exun::Expected(b)) => a.partial_cmp_spec(&b),
            (Exun::Expected(_), Exun::Unexpected(_)) => Some(Ordering::Less),
            (Exun::Unexpected(_), Exun::Expected(_)) => Some(Ordering::Greater),
            (Exun::Unexpected(a), Exun::Unexpected(b)) => a.partial_cmp_spec(&b),
        }
    }
}

} // verus!
