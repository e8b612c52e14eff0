//! The boundary result type and its two conversion directions.

use vstd::pervasive::unreached;
use vstd::prelude::*;
use vstd::string::StringExecFns;

verus! {

/// Tag value of the boundary representation when no error occurred.
pub const TAG_NONE: i32 = 0;
/// Tag value of the boundary representation for a thrown exception.
pub const TAG_EXCEPTION: i32 = 1;
/// Tag value of the boundary representation for rejected input.
pub const TAG_VALIDATION: i32 = 2;

/// The error struct shape that crosses the foreign boundary: a tag and an
/// owned, optional message. A missing message stands for the null pointer of
/// the C-side struct; a present message owns the buffer's contents.
pub struct FfiError {
    pub tag: i32,
    pub msg: Option<String>,
}

/// Mathematical view of [`FfiError`]: the tag as an unbounded integer and the
/// message as an optional character sequence.
pub struct FfiErrorView {
    pub tag: int,
    pub msg: Option<Seq<char>>,
}

impl FfiErrorView {
    /// The boundary invariant: the tag is one of the three known constants,
    /// and a message is present exactly when the tag reports an error.
    pub open spec fn wf(self) -> bool {
        &&& (self.tag == TAG_NONE || self.tag == TAG_EXCEPTION || self.tag == TAG_VALIDATION)
        &&& (self.msg is None <==> self.tag == TAG_NONE)
    }

    /// The ok state: no error, no message.
    pub open spec fn ok() -> Self {
        FfiErrorView { tag: TAG_NONE as int, msg: Option::None }
    }
}

impl View for FfiError {
    type V = FfiErrorView;

    open spec fn view(&self) -> FfiErrorView {
        FfiErrorView {
            tag: self.tag as int,
            msg: match self.msg {
                Option::Some(s) => Option::Some(s@),
                Option::None => Option::None,
            },
        }
    }
}

/// The two kinds of error the boundary can report.
#[derive(Debug, Clone, Copy, PartialEq, Eq, Structural)]
pub enum NvimErrorKind {
    Exception,
    Validation,
}

/// The host-native error: a kind and the owned message taken from the
/// boundary representation.
#[derive(Debug)]
pub struct NvimError {
    pub kind: NvimErrorKind,
    pub msg: String,
}

/// The tag constant under which the boundary reports an error of `kind`.
pub open spec fn tag_of_kind(kind: NvimErrorKind) -> int {
    match kind {
        NvimErrorKind::Exception => TAG_EXCEPTION as int,
        NvimErrorKind::Validation => TAG_VALIDATION as int,
    }
}

/// The error kind reported by an error tag.
pub open spec fn kind_of_tag(tag: int) -> NvimErrorKind
    recommends
        tag == TAG_EXCEPTION || tag == TAG_VALIDATION,
{
    if tag == TAG_EXCEPTION {
        NvimErrorKind::Exception
    } else {
        NvimErrorKind::Validation
    }
}

/// Mathematical view of a host outcome: the error, if any, reduced to its
/// kind and its message characters.
pub open spec fn outcome_view(r: Result<(), NvimError>) -> Result<(), (NvimErrorKind, Seq<char>)> {
    match r {
        Result::Ok(_) => Result::Ok(()),
        Result::Err(e) => Result::Err((e.kind, e.msg@)),
    }
}

impl FfiErrorView {
    /// The representation a host outcome is carried across the boundary as.
    pub open spec fn of_outcome(o: Result<(), (NvimErrorKind, Seq<char>)>) -> Self {
        match o {
            Result::Ok(_) => FfiErrorView::ok(),
            Result::Err((kind, msg)) => FfiErrorView {
                tag: tag_of_kind(kind),
                msg: Option::Some(msg),
            },
        }
    }

    /// The host outcome a well-formed representation stands for.
    pub open spec fn to_outcome(self) -> Result<(), (NvimErrorKind, Seq<char>)>
        recommends
            self.wf(),
    {
        if self.tag == TAG_NONE {
            Result::Ok(())
        } else {
            Result::Err((kind_of_tag(self.tag), self.msg->Some_0))
        }
    }
}

/// Round-trip identity: carrying any host outcome across the boundary and
/// back yields the same outcome — the same kind and the identical message
/// characters — and the representation it travels as is well formed, so the
/// return conversion is always within its contract.
pub proof fn lemma_round_trip(o: Result<(), (NvimErrorKind, Seq<char>)>)
    ensures
        FfiErrorView::of_outcome(o).wf(),
        FfiErrorView::of_outcome(o).to_outcome() == o,
{
    match o {
        Result::Ok(u) => {
            assert(u == ());
        },
        Result::Err((kind, msg)) => {
            match kind {
                NvimErrorKind::Exception => {
                },
                NvimErrorKind::Validation => {
                },
            }
        },
    }
}

/// An error-tagged representation without a message breaks the boundary
/// invariant: conversion refuses it rather than inventing an empty message.
pub proof fn lemma_error_tag_requires_message(r: FfiErrorView)
    requires
        r.tag == TAG_EXCEPTION || r.tag == TAG_VALIDATION,
        r.msg is None,
    ensures
        !r.wf(),
{
}

/// A representation whose tag is outside the known set breaks the boundary
/// invariant: conversion refuses it rather than coercing it to success or to
/// a known error kind.
pub proof fn lemma_unknown_tag_rejected(r: FfiErrorView)
    requires
        r.tag != TAG_NONE,
        r.tag != TAG_EXCEPTION,
        r.tag != TAG_VALIDATION,
    ensures
        !r.wf(),
{
}

/// Owns exactly one boundary error representation for its whole lifetime.
///
/// The message has one owner at every instant: the consuming conversions
/// move the representation out, so no instance survives an extraction and
/// nothing is left behind that could touch the message again.
pub struct NvimResult(FfiError);

impl View for NvimResult {
    type V = FfiErrorView;

    closed spec fn view(&self) -> FfiErrorView {
        self.0@
    }
}

impl NvimResult {
    /// Creates a new ok `NvimResult`: tag `TAG_NONE`, no message. It stands
    /// for the successful outcome.
    pub fn new_ok() -> (r: Self)
        ensures
            r@ == FfiErrorView::ok(),
            r@.wf(),
            r@.to_outcome() == Result::<(), (NvimErrorKind, Seq<char>)>::Ok(()),
    {
        NvimResult(FfiError { tag: TAG_NONE, msg: Option::None })
    }

    /// Consumes this object and yields the wrapped boundary representation.
    ///
    /// Ownership of the message moves to the caller; the consumed value no
    /// longer exists, so nothing can release the message a second time.
    pub fn into_ffi(self) -> (r: FfiError)
        ensures
            r@ == self@,
    {
        self.0
    }

    /// Creates an `NvimResult` from a host-native `Result`.
    ///
    /// Success becomes the ok state; an error becomes the representation
    /// whose tag matches the error's kind and whose message is the error's
    /// message, moved, not copied.
    pub fn from_result(result: Result<(), NvimError>) -> (r: Self)
        ensures
            r@ == FfiErrorView::of_outcome(outcome_view(result)),
            r@.wf(),
    {
        match result {
            Result::Ok(()) => NvimResult(FfiError { tag: TAG_NONE, msg: Option::None }),
            Result::Err(err) => {
                let tag: i32 = match err.kind {
                    NvimErrorKind::Exception => TAG_EXCEPTION,
                    NvimErrorKind::Validation => TAG_VALIDATION,
                };
                NvimResult(FfiError { tag, msg: Option::Some(err.msg) })
            },
        }
    }

    /// Returns a mutable borrow of the wrapped boundary representation, for
    /// a foreign call to fill in. The caller may overwrite the tag and the
    /// message but must leave the representation well formed before it is
    /// converted.
    pub fn as_borrowed_ffi_mut(&mut self) -> (r: &mut FfiError)
        ensures
            r@ == old(self)@,
            final(self)@ == final(r)@,
    {
        &mut self.0
    }

    /// Whether the wrapped representation obeys the boundary invariant.
    ///
    /// A representation that fails this check must not be converted: its tag
    /// is outside the known set, or its message is missing on an error tag
    /// or present on the ok tag.
    pub fn is_wf(&self) -> (r: bool)
        ensures
            r == self@.wf(),
    {
        let tag_known =
            self.0.tag == TAG_NONE || self.0.tag == TAG_EXCEPTION || self.0.tag == TAG_VALIDATION;
        tag_known && (self.0.msg.is_none() == (self.0.tag == TAG_NONE))
    }

    /// Converts this object into a host-native `Result`.
    ///
    /// `TAG_NONE` becomes success; an error tag becomes the error of the
    /// matching kind carrying the representation's message, moved out with no
    /// copy. A representation that breaks the boundary invariant is outside
    /// this function's contract; on such a value the executable exhaustive
    /// match halts instead of inventing an outcome.
    pub fn into_result(self) -> (r: Result<(), NvimError>)
        requires
            self@.wf(),
        ensures
            outcome_view(r) == self@.to_outcome(),
    {
        let FfiError { tag, msg } = self.into_ffi();
        if tag == TAG_NONE {
            Result::Ok(())
        } else if tag == TAG_EXCEPTION {
            Result::Err(NvimError { kind: NvimErrorKind::Exception, msg: expect_message(msg) })
        } else if tag == TAG_VALIDATION {
            Result::Err(NvimError { kind: NvimErrorKind::Validation, msg: expect_message(msg) })
        } else {
            unreached()
        }
    }
}

impl Default for NvimResult {
    /// Returns the default value, which is an ok result standing for the
    /// successful outcome.
    fn default() -> (r: Self)
        ensures
            r@ == FfiErrorView::ok(),
            r@.wf(),
            r@.to_outcome() == Result::<(), (NvimErrorKind, Seq<char>)>::Ok(()),
    {
        NvimResult::new_ok()
    }
}

/// The label under which an error kind is shown.
pub open spec fn label_of(kind: NvimErrorKind) -> Seq<char> {
    match kind {
        NvimErrorKind::Exception => "Exception"@,
        NvimErrorKind::Validation => "Validation"@,
    }
}

/// The one-line rendering of an error: its kind's label, a separator, and
/// its message.
pub open spec fn display_of(kind: NvimErrorKind, msg: Seq<char>) -> Seq<char> {
    label_of(kind) + ": "@ + msg
}

impl NvimError {
    /// Renders this error as `"<label>: <message>"`, with the kind's label
    /// written once.
    pub fn display_text(&self) -> (r: String)
        ensures
            r@ == display_of(self.kind, self.msg@),
    {
        let mut s: String = match self.kind {
            NvimErrorKind::Exception => String::from_str("Exception"),
            NvimErrorKind::Validation => String::from_str("Validation"),
        };
        s.append(": ");
        s.append(self.msg.as_str());
        s
    }
}

/// Takes the message out of an error-tagged representation. A missing
/// message there breaks the boundary invariant, so it is outside this
/// function's contract; on such a value execution halts.
fn expect_message(msg: Option<String>) -> (r: String)
    requires
        msg is Some,
    ensures
        r@ == msg->Some_0@,
{
    match msg {
        Option::Some(s) => s,
        Option::None => unreached(),
    }
}

} // verus!
