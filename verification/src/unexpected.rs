//! The holders for unexpected failures.

use crate::cause::{names_source, Cause, CauseView};
use crate::render::{debug_of_str, debug_of_text, debug_string, debugs_as, displays_as};
use std::error::Error;
use std::fmt::{Debug, Display};
use vstd::prelude::*;

verus! {

/// What a value needs in order to be kept as a message: it can be shown, it
/// can be debugged, and it can be handed to another thread.
pub trait Errorable: Display + Debug + Send + Sync {
}

impl<T: Display + Debug + Send + Sync + ?Sized> Errorable for T {
}

/// The text that stands for a failure value that is not there.
pub const ABSENT_TEXT: &'static str = "Called `unexpect` on a `None` value";

/// The debug rendering of a failure value that is not there.
pub const ABSENT_DEBUG: &'static str = "None";

/// The three states of a [`RawUnexpected`] as mathematical values.
pub enum UnexpectedView {
    /// No failure value is available.
    Absent,
    /// A value that was kept for its text alone.
    Message { display: Seq<char>, debug: Seq<char> },
    /// A failure that stands in a cause chain.
    Cause(CauseView),
}

impl UnexpectedView {
    /// The text that a box in this state displays as.
    pub open spec fn display(self) -> Seq<char> {
        match self {
            UnexpectedView::Absent => ABSENT_TEXT@,
            UnexpectedView::Message { display, .. } => display,
            UnexpectedView::Cause(cause) => cause.display,
        }
    }

    /// The text that a box in this state debugs as.
    pub open spec fn debug(self) -> Seq<char> {
        match self {
            UnexpectedView::Absent => ABSENT_DEBUG@,
            UnexpectedView::Message { debug, .. } => debug,
            UnexpectedView::Cause(cause) => cause.debug,
        }
    }

    /// The next link of the cause chain: the source that the boxed failure
    /// names. Only a box that holds a cause can have one.
    pub open spec fn source(self) -> Option<CauseView> {
        match self {
            UnexpectedView::Cause(cause) => cause.next(),
            _ => None,
        }
    }

    /// Holds when a box in this state is what boxing `error` as a cause
    /// gives: it holds a rendering of `error`.
    pub open spec fn is_cause_of<E: Error + ?Sized>(self, error: &E) -> bool {
        self matches UnexpectedView::Cause(cause) && cause.renders(error)
    }

    /// Holds when a box in this state is what boxing `value` as a message
    /// gives: it shows and debugs as `value` does.
    pub open spec fn is_message_of<T: Display + Debug + ?Sized>(self, value: &T) -> bool {
        &&& self matches UnexpectedView::Message { display, debug }
        &&& displays_as(value, display)
        &&& debugs_as(value, debug)
    }

    /// A box in this state taken as a link of a chain: it shows and debugs as
    /// the box does, and the chain below it is the chain below the box.
    pub open spec fn as_link(self) -> CauseView {
        CauseView {
            display: self.display(),
            debug: self.debug(),
            source: match self.source() {
                Some(below) => Some(Box::new(below)),
                None => None,
            },
        }
    }
}

#[derive(Debug)]
enum ErrorTy {
    Absent,
    Message { display: String, debug: String },
    Error(Cause),
}

/// A holder for a failure that was not expected to occur.
///
/// Any failure can be put into it, from whatever domain it comes: one that
/// stands in a cause chain, one that can only be shown, or the lack of a
/// value. It is an easy target for conversions, and for that reason it is
/// not itself a link that others can chain to: that is what
/// [`UnexpectedError`] is for.
#[derive(Debug)]
pub struct RawUnexpected {
    internal: ErrorTy,
}

impl View for RawUnexpected {
    type V = UnexpectedView;

    closed spec fn view(&self) -> UnexpectedView {
        match self.internal {
            ErrorTy::Absent => UnexpectedView::Absent,
            ErrorTy::Message { display, debug } => UnexpectedView::Message {
                display: display@,
                debug: debug@,
            },
            ErrorTy::Error(cause) => UnexpectedView::Cause(cause@),
        }
    }
}

impl RawUnexpected {
    /// Boxes a failure that stands in a cause chain.
    pub fn new<E: Error + Send + Sync + 'static>(error: E) -> (boxed: Self)
        ensures
            boxed@.is_cause_of(&error),
    {
        RawUnexpected::from_cause(Cause::render(&error))
    }

    /// Boxes a failure that was rendered before.
    pub fn from_cause(cause: Cause) -> (boxed: Self)
        ensures
            boxed@ == UnexpectedView::Cause(cause@),
    {
        RawUnexpected { internal: ErrorTy::Error(cause) }
    }

    /// Boxes a value for its text. It is the end of its chain: it has no
    /// source.
    pub fn msg<E: Display + Debug + Send + Sync + 'static>(error: E) -> (boxed: Self)
        ensures
            boxed@.is_message_of(&error),
    {
        let display = error.to_string();
        let debug = debug_string(&error);
        RawUnexpected::from_text(display, debug)
    }

    /// Boxes a message that was rendered before.
    pub fn from_text(display: String, debug: String) -> (boxed: Self)
        ensures
            boxed@ == (UnexpectedView::Message { display: display@, debug: debug@ }),
    {
        RawUnexpected { internal: ErrorTy::Message { display, debug } }
    }

    /// The box that stands for a value that was not there.
    pub fn none() -> (boxed: Self)
        ensures
            boxed@ == UnexpectedView::Absent,
    {
        RawUnexpected { internal: ErrorTy::Absent }
    }

    /// The next link of the cause chain, which only a boxed cause can have.
    pub fn source(&self) -> (deeper: Option<&Cause>)
        ensures
            match self@.source() {
                Some(below) => deeper matches Some(link) && link@ == below,
                None => deeper is None,
            },
    {
        match &self.internal {
            ErrorTy::Error(cause) => cause.source(),
            _ => None,
        }
    }

    /// The text of the box: that of the value it holds, or a fixed one where
    /// it holds none.
    pub fn to_string(&self) -> (text: String)
        ensures
            text@ == self@.display(),
    {
        match &self.internal {
            ErrorTy::Absent => ABSENT_TEXT.to_string(),
            ErrorTy::Message { display, .. } => display.clone(),
            ErrorTy::Error(cause) => cause.to_string(),
        }
    }

    /// The debug text of the box: that of the value it holds, or a fixed one
    /// where it holds none.
    pub fn debug_string(&self) -> (text: String)
        ensures
            text@ == self@.debug(),
    {
        match &self.internal {
            ErrorTy::Absent => ABSENT_DEBUG.to_string(),
            ErrorTy::Message { debug, .. } => debug.clone(),
            ErrorTy::Error(cause) => cause.debug_string(),
        }
    }
}

/// Boxing a value as a message keeps its text: what the box shows is a
/// rendering that the value's own `Display` gives. Such a box is the end of
/// its chain.
pub proof fn lemma_message_keeps_display<E: Display + Debug + Send + Sync + 'static>(
    value: E,
    boxed: RawUnexpected,
    text: String,
    deeper: Option<&Cause>,
)
    requires
        call_ensures(RawUnexpected::msg::<E>, (value,), boxed),
        call_ensures(RawUnexpected::to_string, (&boxed,), text),
        call_ensures(RawUnexpected::source, (&boxed,), deeper),
    ensures
        displays_as(&value, text@),
        deeper is None,
{
}

/// Boxing an error keeps its place in the chain: the box shows what the
/// error shows, and the source of the box is what the error names as its
/// source, or none where the error names none.
pub proof fn lemma_error_keeps_chain<E: Error + Send + Sync + 'static>(
    error: E,
    boxed: RawUnexpected,
    text: String,
    deeper: Option<&Cause>,
)
    requires
        call_ensures(RawUnexpected::new::<E>, (error,), boxed),
        call_ensures(RawUnexpected::to_string, (&boxed,), text),
        call_ensures(RawUnexpected::source, (&boxed,), deeper),
    ensures
        displays_as(&error, text@),
        names_source(
            &error,
            match deeper {
                Some(link) => Some(link@),
                None => None,
            },
        ),
{
}

/// Boxing a cause that was rendered before keeps its chain: the box shows
/// what the cause shows, and the source of the box is the link below the
/// cause, or none where the cause is the last.
pub proof fn lemma_cause_keeps_chain(
    cause: Cause,
    boxed: RawUnexpected,
    text: String,
    deeper: Option<&Cause>,
)
    requires
        call_ensures(RawUnexpected::from_cause, (cause,), boxed),
        call_ensures(RawUnexpected::to_string, (&boxed,), text),
        call_ensures(RawUnexpected::source, (&boxed,), deeper),
    ensures
        text@ == cause@.display,
        match cause@.next() {
            Some(below) => deeper matches Some(link) && link@ == below,
            None => deeper is None,
        },
{
}

/// The box that stands for a missing value has no source, and it shows one
/// fixed text, which is not empty. It is in no state that a message or a
/// cause can be in.
pub proof fn lemma_absent_is_fixed(boxed: RawUnexpected, text: String, deeper: Option<&Cause>)
    requires
        call_ensures(RawUnexpected::none, (), boxed),
        call_ensures(RawUnexpected::to_string, (&boxed,), text),
        call_ensures(RawUnexpected::source, (&boxed,), deeper),
    ensures
        deeper is None,
        text@ == ABSENT_TEXT@,
        text@.len() > 0,
        !(boxed@ is Message),
        !(boxed@ is Cause),
{
    reveal_strlit("Called `unexpect` on a `None` value");
}

/// An unexpected failure that can itself stand in a cause chain.
///
/// It has the states of a [`RawUnexpected`] and no others. Nothing converts
/// into it by itself but a [`RawUnexpected`] and plain text.
#[derive(Debug)]
pub struct UnexpectedError(RawUnexpected);

impl View for UnexpectedError {
    type V = UnexpectedView;

    closed spec fn view(&self) -> UnexpectedView {
        self.0@
    }
}

impl UnexpectedError {
    /// The chainable form of `raw`.
    pub closed spec fn wrap(raw: RawUnexpected) -> UnexpectedError {
        UnexpectedError(raw)
    }

    /// Boxes a failure that stands in a cause chain.
    pub fn new<E: Error + Send + Sync + 'static>(error: E) -> (boxed: Self)
        ensures
            boxed@.is_cause_of(&error),
    {
        UnexpectedError(RawUnexpected::new(error))
    }

    /// Boxes a value for its text. It is the end of its chain: it has no
    /// source.
    pub fn msg<E: Display + Debug + Send + Sync + 'static>(error: E) -> (boxed: Self)
        ensures
            boxed@.is_message_of(&error),
    {
        UnexpectedError(RawUnexpected::msg(error))
    }

    /// The box that stands for a value that was not there.
    pub fn none() -> (boxed: Self)
        ensures
            boxed@ == UnexpectedView::Absent,
    {
        UnexpectedError(RawUnexpected::none())
    }

    /// The box inside.
    pub fn as_ref(&self) -> (raw: &RawUnexpected)
        ensures
            raw@ == self@,
            *self == UnexpectedError::wrap(*raw),
    {
        &self.0
    }

    /// The next link of the cause chain, which only a boxed cause can have.
    pub fn source(&self) -> (deeper: Option<&Cause>)
        ensures
            match self@.source() {
                Some(below) => deeper matches Some(link) && link@ == below,
                None => deeper is None,
            },
    {
        self.0.source()
    }

    /// The text of the box: that of the value it holds, or a fixed one where
    /// it holds none.
    pub fn to_string(&self) -> (text: String)
        ensures
            text@ == self@.display(),
    {
        self.0.to_string()
    }

    /// The debug text of the box: that of the value it holds, or a fixed one
    /// where it holds none.
    pub fn debug_string(&self) -> (text: String)
        ensures
            text@ == self@.debug(),
    {
        self.0.debug_string()
    }

    /// Turns the box into a link that another box can hold in turn.
    ///
    /// The link shows and debugs as the box did, and the chain below the box
    /// is the chain below the link.
    pub fn into_cause(self) -> (cause: Cause)
        ensures
            cause@ == self@.as_link(),
    {
        match self.0.internal {
            ErrorTy::Absent => Cause::new(ABSENT_TEXT.to_string(), ABSENT_DEBUG.to_string(), None),
            ErrorTy::Message { display, debug } => Cause::new(display, debug, None),
            ErrorTy::Error(cause) => cause,
        }
    }
}

impl From<RawUnexpected> for UnexpectedError {
    /// Makes the box chainable. Its state stays what it was.
    fn from(ru: RawUnexpected) -> (boxed: Self)
        ensures
            boxed == UnexpectedError::wrap(ru),
            boxed@ == ru@,
    {
        UnexpectedError(ru)
    }
}

impl vstd::std_specs::convert::FromSpecImpl<RawUnexpected> for UnexpectedError {
    open spec fn obeys_from_spec() -> bool {
        true
    }

    open spec fn from_spec(ru: RawUnexpected) -> Self {
        UnexpectedError::wrap(ru)
    }
}

impl From<&'static str> for UnexpectedError {
    /// Boxes `value` as a message that reads as `value` does.
    fn from(value: &'static str) -> (boxed: Self)
        ensures
            boxed@ == (UnexpectedView::Message {
                display: value@,
                debug: debug_of_text(value@),
            }),
    {
        UnexpectedError(RawUnexpected::from_text(value.to_string(), debug_of_str(value)))
    }
}

/// The box that comes out is told by its view, in the contract of `from`:
/// no value of the type is singled out for a text.
impl vstd::std_specs::convert::FromSpecImpl<&'static str> for UnexpectedError {
    open spec fn obeys_from_spec() -> bool {
        false
    }

    open spec fn from_spec(value: &'static str) -> Self {
        arbitrary()
    }
}

impl From<String> for UnexpectedError {
    /// Boxes `value` as a message that reads as `value` does.
    fn from(value: String) -> (boxed: Self)
        ensures
            boxed@ == (UnexpectedView::Message {
                display: value@,
                debug: debug_of_text(value@),
            }),
    {
        let debug = debug_of_str(value.as_str());
        UnexpectedError(RawUnexpected::from_text(value, debug))
    }
}

/// The box that comes out is told by its view, in the contract of `from`:
/// no value of the type is singled out for a text.
impl vstd::std_specs::convert::FromSpecImpl<String> for UnexpectedError {
    open spec fn obeys_from_spec() -> bool {
        false
    }

    open spec fn from_spec(value: String) -> Self {
        arbitrary()
    }
}

} // verus!
