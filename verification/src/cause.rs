//! Cause chains, kept as text.
//!
//! A failure is kept as what it displays as and what it debugs as, and so is
//! each failure below it in its chain. The text is taken when the failure is
//! rendered, so that what is held is plain data that any thread may own.
//!
//! Rendering walks a chain no further than a limit. Nothing obliges an error
//! to name a chain that ends, and the walk has to end all the same.

use crate::render::{debug_string, debugs_as, displays_as};
use std::error::Error;
use vstd::prelude::*;

verus! {

/// The most links that are kept below a failure when it is rendered.
pub const MAX_DEPTH: usize = 128;

/// Holds when `source` is what `error` names as its source, rendered and
/// kept to at most `limit` links: the chain below `error`, or nothing where
/// `error` names no source or `limit` is zero.
pub closed spec fn names_source_within<E: Error + ?Sized>(
    error: &E,
    limit: usize,
    source: Option<CauseView>,
) -> bool {
    if limit == 0 {
        source is None
    } else {
        exists|reported: Option<Cause>| #[trigger]
            call_ensures(source_of::<E>, (error, (limit - 1) as usize), reported) && source
                == match reported {
                Some(below) => Some(below@.cut((limit - 1) as nat)),
                None => None,
            }
    }
}

/// Holds when `source` is what `error` names as its source, rendered and
/// kept to at most [`MAX_DEPTH`] links.
pub open spec fn names_source<E: Error + ?Sized>(error: &E, source: Option<CauseView>) -> bool {
    names_source_within(error, MAX_DEPTH, source)
}

/// A failure in a cause chain as a mathematical value: what it displays as,
/// what it debugs as, and the deeper failure that it names as its source.
pub struct CauseView {
    pub display: Seq<char>,
    pub debug: Seq<char>,
    pub source: Option<Box<CauseView>>,
}

impl CauseView {
    /// The link below this one, if there is one.
    pub open spec fn next(self) -> Option<CauseView> {
        match self.source {
            Some(deeper) => Some(*deeper),
            None => None,
        }
    }

    /// The number of links below this one.
    pub open spec fn depth(self) -> nat
        decreases self,
    {
        match self.source {
            Some(deeper) => 1 + deeper.depth(),
            None => 0,
        }
    }

    /// This link with at most `limit` links below it: what lies deeper is
    /// left out.
    pub open spec fn cut(self, limit: nat) -> CauseView
        decreases limit,
    {
        CauseView {
            display: self.display,
            debug: self.debug,
            source: match self.source {
                Some(deeper) => if limit == 0 {
                    None
                } else {
                    Some(Box::new(deeper.cut((limit - 1) as nat)))
                },
                None => None,
            },
        }
    }

    /// Holds when this link is a rendering of `error` that keeps at most
    /// `limit` links below it: it shows and debugs as `error` does, and below
    /// it stands what `error` names as its source.
    pub open spec fn renders_within<E: Error + ?Sized>(self, error: &E, limit: usize) -> bool {
        &&& displays_as(error, self.display)
        &&& debugs_as(error, self.debug)
        &&& names_source_within(error, limit, self.next())
        &&& self.depth() <= limit
    }

    /// Holds when this link is a rendering of `error` that keeps at most
    /// [`MAX_DEPTH`] links below it.
    pub open spec fn renders<E: Error + ?Sized>(self, error: &E) -> bool {
        self.renders_within(error, MAX_DEPTH)
    }
}

/// What an optional chain is as a mathematical value.
pub open spec fn chain_of(source: Option<Cause>) -> Option<CauseView> {
    match source {
        Some(below) => Some(below@),
        None => None,
    }
}

/// A chain that was cut has no more links than the limit, and a chain that
/// was within the limit is left as it was.
pub proof fn lemma_cut_keeps_to_limit(chain: CauseView, limit: nat)
    ensures
        chain.cut(limit).depth() <= limit,
        chain.depth() <= limit ==> chain.cut(limit) == chain,
    decreases limit,
{
    match chain.source {
        Some(deeper) => {
            if limit > 0 {
                lemma_cut_keeps_to_limit(*deeper, (limit - 1) as nat);
            }
        },
        None => {},
    }
}

/// A failure that can stand in a cause chain, kept as its renderings.
///
/// The failure it was taken from is not kept: a `Cause` owns text only, so it
/// can cross threads freely and never changes.
#[derive(Debug)]
pub struct Cause {
    display: String,
    debug: String,
    source: Option<Box<Cause>>,
}

impl View for Cause {
    type V = CauseView;

    closed spec fn view(&self) -> CauseView {
        self.chain()
    }
}

impl Cause {
    /// This link and the ones below it, as mathematical values.
    spec fn chain(self) -> CauseView
        decreases self,
    {
        CauseView {
            display: self.display@,
            debug: self.debug@,
            source: match self.source {
                Some(deeper) => Some(Box::new(deeper.chain())),
                None => None,
            },
        }
    }

    /// Builds a link from its renderings and the link below it.
    pub fn new(display: String, debug: String, source: Option<Cause>) -> (cause: Cause)
        ensures
            cause@ == (CauseView {
                display: display@,
                debug: debug@,
                source: match source {
                    Some(deeper) => Some(Box::new(deeper@)),
                    None => None,
                },
            }),
    {
        let source = match source {
            Some(deeper) => Some(Box::new(deeper)),
            None => None,
        };
        Cause { display, debug, source }
    }

    /// Renders `error`, and with it the chain of failures below it, as far
    /// as [`MAX_DEPTH`] links down.
    pub fn render<E: Error + ?Sized>(error: &E) -> (cause: Cause)
        ensures
            cause@.renders(error),
    {
        Cause::render_within(error, MAX_DEPTH)
    }

    /// Renders `error`, and with it the chain of failures below it, as far
    /// as `limit` links down.
    ///
    /// The walk ends whatever the chain is like: each step down has one link
    /// less to spend, and with none left the error is not asked for its
    /// source.
    pub fn render_within<E: Error + ?Sized>(error: &E, limit: usize) -> (cause: Cause)
        ensures
            cause@.renders_within(error, limit),
    {
        let source = Cause::render_source_within(error, limit);
        Cause::new(error.to_string(), debug_string(error), source)
    }

    /// Renders what `error` names as its source, as far as [`MAX_DEPTH`]
    /// links: nothing where it names none.
    pub fn render_source<E: Error + ?Sized>(error: &E) -> (source: Option<Cause>)
        ensures
            names_source(error, chain_of(source)),
            source matches Some(below) ==> below@.depth() < MAX_DEPTH,
    {
        Cause::render_source_within(error, MAX_DEPTH)
    }

    /// Renders what `error` names as its source, as far as `limit` links:
    /// nothing where it names none, and nothing where `limit` is zero.
    ///
    /// What comes back from the error is held to the limit here, so the
    /// bound does not rest on the error.
    pub fn render_source_within<E: Error + ?Sized>(error: &E, limit: usize) -> (source: Option<
        Cause,
    >)
        ensures
            names_source_within(error, limit, chain_of(source)),
            source matches Some(below) ==> below@.depth() < limit,
    {
        if limit == 0 {
            None
        } else {
            match source_of(error, limit - 1) {
                Some(below) => Some(below.cut(limit - 1)),
                None => None,
            }
        }
    }

    /// Keeps at most `limit` links below this one and drops what lies
    /// deeper.
    pub fn cut(self, limit: usize) -> (kept: Cause)
        ensures
            kept@ == self@.cut(limit as nat),
            kept@.depth() <= limit,
        decreases limit,
    {
        proof {
            lemma_cut_keeps_to_limit(self@, limit as nat);
        }
        let Cause { display, debug, source } = self;
        let source = match source {
            Some(deeper) => if limit == 0 {
                None
            } else {
                Some(Box::new((*deeper).cut(limit - 1)))
            },
            None => None,
        };
        Cause { display, debug, source }
    }

    /// The display text of this failure.
    pub fn to_string(&self) -> (text: String)
        ensures
            text@ == self@.display,
    {
        self.display.clone()
    }

    /// The debug text of this failure.
    pub fn debug_string(&self) -> (text: String)
        ensures
            text@ == self@.debug,
    {
        self.debug.clone()
    }

    /// The next failure down the chain, if this one names any.
    pub fn source(&self) -> (deeper: Option<&Cause>)
        ensures
            match self@.next() {
                Some(below) => deeper matches Some(link) && link@ == below,
                None => deeper is None,
            },
    {
        match &self.source {
            Some(below) => Some(&**below),
            None => None,
        }
    }
}

impl Clone for Cause {
    /// Copies the link and the chain below it, text for text.
    fn clone(&self) -> (copy: Self)
        ensures
            copy@ == self@,
        decreases self,
    {
        let source = match &self.source {
            Some(below) => Some(Box::new((**below).clone())),
            None => None,
        };
        Cause { display: self.display.clone(), debug: self.debug.clone(), source }
    }
}

/// What `std::error::Error::source` reports for `error`: nothing, or the
/// failure below `error`, which [`Cause::render_within`] then renders with
/// `limit` links to spend.
///
/// Nothing is claimed of the result: whether an error names a source, and
/// which, is up to its `Error` implementation. The error is asked once, and
/// each call further down is made with a smaller limit, so the walk ends.
#[verifier::external_body]
fn source_of<E: Error + ?Sized>(error: &E, limit: usize) -> (source: Option<Cause>) {
    error.source().map(|deeper| Cause::render_within(deeper, limit))
}

} // verus!
