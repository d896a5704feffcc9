//! Failures of this layer, and the context they collect on their way up.
//!
//! An [`Error`] is a payload (the stitch that a format cannot hold, or a
//! failure from below) plus a stack of context frames, oldest first. Every
//! operation takes an error by value or by reference and returns a new one.

use crate::stitch::Stitch;
use vstd::prelude::*;
use vstd::std_specs::convert::FromSpecImpl;

verus! {

/// Where a failure from below this layer arose.
#[derive(Clone, Copy, Debug, PartialEq, Eq, Structural)]
pub enum CauseKind {
    /// The stream could not be read or written.
    Io,
    /// The bytes read are not of the expected form.
    Parse,
    /// A value could not be put into bytes.
    Encoding,
}

/// A failure from below this layer. It is carried along unchanged and never
/// looked into.
#[derive(Debug, PartialEq, Eq)]
pub struct StdError {
    pub kind: CauseKind,
    pub message: String,
}

/// The mathematical value of a [`StdError`].
pub struct Cause {
    pub kind: CauseKind,
    pub message: Seq<char>,
}

impl View for StdError {
    type V = Cause;

    open spec fn view(&self) -> Cause {
        Cause { kind: self.kind, message: self.message@ }
    }
}

impl Clone for StdError {
    fn clone(&self) -> (copy: Self)
        ensures
            copy@ == self@,
    {
        StdError { kind: self.kind, message: self.message.clone() }
    }
}

/// A failure to read or write a pattern.
#[derive(Debug, PartialEq, Eq)]
pub enum Error {
    /// The target format cannot hold `stitch`, which stands at position `idx`
    /// of the pattern where the position is known.
    UnsupportedStitch { stitch: Stitch, idx: Option<usize>, ctx: Vec<String> },
    /// A failure from below this layer, with the context added since.
    Std(StdError, Vec<String>),
}

/// What an error reports, apart from its context.
pub enum Payload {
    Stitch { stitch: Stitch, idx: Option<usize> },
    Cause(Cause),
}

/// The mathematical value of an [`Error`]: its payload and its context
/// frames, oldest first.
pub struct ErrorView {
    pub payload: Payload,
    pub context: Seq<Seq<char>>,
}

impl ErrorView {
    /// The error with `extra` as its newest context frame.
    pub open spec fn with_additional_context(self, extra: Seq<char>) -> ErrorView {
        ErrorView { payload: self.payload, context: self.context.push(extra) }
    }

    /// The error with no context frame left.
    pub open spec fn without_context(self) -> ErrorView {
        ErrorView { payload: self.payload, context: Seq::empty() }
    }
}

impl View for Error {
    type V = ErrorView;

    open spec fn view(&self) -> ErrorView {
        match *self {
            Error::UnsupportedStitch { stitch, idx, ctx } => ErrorView {
                payload: Payload::Stitch { stitch, idx },
                context: ctx.deep_view(),
            },
            Error::Std(cause, ctx) => ErrorView {
                payload: Payload::Cause(cause@),
                context: ctx.deep_view(),
            },
        }
    }
}

impl Clone for Error {
    fn clone(&self) -> (copy: Self)
        ensures
            copy@ == self@,
    {
        match self {
            Error::UnsupportedStitch { stitch, idx, ctx } => {
                let frames = ctx.clone();
                assert(frames.deep_view() =~= ctx.deep_view());
                Error::UnsupportedStitch { stitch: *stitch, idx: *idx, ctx: frames }
            },
            Error::Std(cause, ctx) => {
                let frames = ctx.clone();
                assert(frames.deep_view() =~= ctx.deep_view());
                Error::Std(cause.clone(), frames)
            },
        }
    }
}

impl Error {
    /// The error for a stitch that the target format cannot hold, with no
    /// context yet.
    pub fn unsupported_stitch(stitch: Stitch, idx: Option<usize>) -> (e: Self)
        ensures
            e@ == (ErrorView {
                payload: Payload::Stitch { stitch, idx },
                context: Seq::empty(),
            }),
    {
        let ctx: Vec<String> = Vec::new();
        assert(ctx.deep_view() =~= Seq::<Seq<char>>::empty());
        Error::UnsupportedStitch { stitch, idx, ctx }
    }

    /// The error for a stitch that the target format cannot hold, with `msg`
    /// as its first context frame.
    pub fn unsupported_stitch_msg(stitch: Stitch, idx: Option<usize>, msg: &str) -> (e: Self)
        ensures
            e@ == (ErrorView { payload: Payload::Stitch { stitch, idx }, context: seq![msg@] }),
    {
        let mut ctx: Vec<String> = Vec::new();
        ctx.push(msg.to_owned());
        assert(ctx.deep_view() =~= seq![msg@]);
        Error::UnsupportedStitch { stitch, idx, ctx }
    }

    /// The context frames, oldest first. The error is left as it is.
    pub fn context(&self) -> (frames: Vec<String>)
        ensures
            frames.deep_view() == self@.context,
    {
        let ctx = match self {
            Error::UnsupportedStitch { ctx, .. } => ctx,
            Error::Std(_, ctx) => ctx,
        };
        let frames = ctx.clone();
        assert(frames.deep_view() =~= ctx.deep_view());
        frames
    }

    /// The same error with `extra` added as its newest context frame,
    /// whichever variant it is.
    pub fn with_additional_context(self, extra: &str) -> (e: Self)
        ensures
            e@ == self@.with_additional_context(extra@),
    {
        match self {
            Error::UnsupportedStitch { stitch, idx, ctx } => {
                let mut ctx = ctx;
                let ghost before = ctx.deep_view();
                ctx.push(extra.to_owned());
                assert(ctx.deep_view() =~= before.push(extra@));
                Error::UnsupportedStitch { stitch, idx, ctx }
            },
            Error::Std(cause, ctx) => {
                let mut ctx = ctx;
                let ghost before = ctx.deep_view();
                ctx.push(extra.to_owned());
                assert(ctx.deep_view() =~= before.push(extra@));
                Error::Std(cause, ctx)
            },
        }
    }

    /// The same error with its context cleared, for an error that is taken
    /// over into another, unrelated report.
    pub fn without_context(self) -> (e: Self)
        ensures
            e@ == self@.without_context(),
    {
        let ctx: Vec<String> = Vec::new();
        assert(ctx.deep_view() =~= Seq::<Seq<char>>::empty());
        match self {
            Error::UnsupportedStitch { stitch, idx, ctx: _ } => Error::UnsupportedStitch {
                stitch,
                idx,
                ctx,
            },
            Error::Std(cause, _) => Error::Std(cause, ctx),
        }
    }
}

impl From<StdError> for Error {
    /// Lifts a failure from below into this error type: it becomes the cause,
    /// unchanged, and the context starts empty.
    fn from(err: StdError) -> (e: Self)
        ensures
            e@ == (ErrorView { payload: Payload::Cause(err@), context: Seq::empty() }),
    {
        let ctx: Vec<String> = Vec::new();
        assert(ctx.deep_view() =~= Seq::<Seq<char>>::empty());
        Error::Std(err, ctx)
    }
}

/// The result of `from` holds a fresh, empty `Vec`, which no specification
/// expression can name: `from` states its result through the view instead.
impl FromSpecImpl<StdError> for Error {
    open spec fn obeys_from_spec() -> bool {
        false
    }

    open spec fn from_spec(err: StdError) -> Error {
        arbitrary()
    }
}

/// Context is append-only and keeps its order: after two frames are added,
/// the context is the old one followed by the two, in the order of adding.
pub proof fn lemma_context_appends(e: ErrorView, m1: Seq<char>, m2: Seq<char>)
    ensures
        e.with_additional_context(m1).with_additional_context(m2).context == e.context + seq![
            m1,
            m2,
        ],
{
    assert(e.context.push(m1).push(m2) =~= e.context + seq![m1, m2]);
}

/// Clearing the context leaves no frame and keeps the payload.
pub proof fn lemma_without_context_keeps_payload(e: ErrorView)
    ensures
        e.without_context().context == Seq::<Seq<char>>::empty(),
        e.without_context().payload == e.payload,
{
}

} // verus!
