//! The protocol between an operation and whoever runs it.
//!
//! An operation touches no file itself. It asks for one effect at a time;
//! its caller carries the effect out on the file system and resumes the
//! operation with what came of it, until the operation has finished.

use crate::error::{FsError, FsErrorView};
use vstd::prelude::*;

verus! {

/// What an operation asks its caller to do.
#[derive(Clone, Debug, PartialEq, Eq)]
pub enum Effect {
    /// Tell whether anything exists at the path, and whether it is a
    /// directory.
    Probe { path: String },
    /// Create the directory and each ancestor that is missing.
    CreateDirAll { path: String },
    /// Rename `from` to `to` in one file system call. Whether that call can
    /// cross from one volume to another is up to the platform; where it
    /// cannot, the reply is `Failed` and the file is where it was.
    Rename { from: String, to: String },
    /// Remove the file for good.
    RemoveFile { path: String },
}

/// What came of an effect.
#[derive(Clone, Debug, PartialEq, Eq)]
pub enum Reply {
    /// Something exists at the probed path: a directory, or anything else.
    Found { is_dir: bool },
    /// Nothing exists at the probed path.
    Missing,
    /// The change was made.
    Done,
    /// The change was not made; the text is what the file system said.
    Failed(String),
}

/// Where an operation stands after a step.
#[derive(Debug, PartialEq, Eq)]
pub enum Progress<Op, T> {
    /// The caller carries out the effect and resumes the operation.
    Continue(Op, Effect),
    /// The operation is over, with its result.
    Finished(Result<T, FsError>),
}

/// An effect as a mathematical value.
pub enum EffectView {
    Probe { path: Seq<char> },
    CreateDirAll { path: Seq<char> },
    Rename { from: Seq<char>, to: Seq<char> },
    RemoveFile { path: Seq<char> },
}

/// A reply as a mathematical value.
pub enum ReplyView {
    Found { is_dir: bool },
    Missing,
    Done,
    Failed(Seq<char>),
}

/// A step's result as a mathematical value.
pub enum ProgressView<Op, T> {
    Continue(Op, EffectView),
    Finished(Result<T, FsErrorView>),
}

impl View for Effect {
    type V = EffectView;

    open spec fn view(&self) -> EffectView {
        match *self {
            Effect::Probe { path } => EffectView::Probe { path: path@ },
            Effect::CreateDirAll { path } => EffectView::CreateDirAll { path: path@ },
            Effect::Rename { from, to } => EffectView::Rename { from: from@, to: to@ },
            Effect::RemoveFile { path } => EffectView::RemoveFile { path: path@ },
        }
    }
}

impl View for Reply {
    type V = ReplyView;

    open spec fn view(&self) -> ReplyView {
        match *self {
            Reply::Found { is_dir } => ReplyView::Found { is_dir },
            Reply::Missing => ReplyView::Missing,
            Reply::Done => ReplyView::Done,
            Reply::Failed(detail) => ReplyView::Failed(detail@),
        }
    }
}

impl<Op: View, T: View> View for Progress<Op, T> {
    type V = ProgressView<Op::V, T::V>;

    open spec fn view(&self) -> ProgressView<Op::V, T::V> {
        match *self {
            Progress::Continue(op, effect) => ProgressView::Continue(op@, effect@),
            Progress::Finished(Ok(value)) => ProgressView::Finished(Ok(value@)),
            Progress::Finished(Err(e)) => ProgressView::Finished(Err(e@)),
        }
    }
}

impl EffectView {
    /// Whether the effect changes the file system. A probe only looks.
    pub open spec fn is_mutation(self) -> bool {
        !(self is Probe)
    }
}

impl ReplyView {
    /// Whether the reply says that a directory exists at the probed path.
    pub open spec fn is_directory(self) -> bool {
        self matches ReplyView::Found { is_dir } && is_dir
    }

    /// What the file system said of a change that was not made. A reply
    /// that is no answer to a change says nothing.
    pub open spec fn detail(self) -> Seq<char> {
        match self {
            ReplyView::Failed(detail) => detail,
            _ => Seq::empty(),
        }
    }
}

impl Effect {
    /// Whether the effect changes the file system.
    pub fn is_mutation(&self) -> (yes: bool)
        ensures
            yes == self@.is_mutation(),
    {
        match self {
            Effect::Probe { .. } => false,
            _ => true,
        }
    }
}

impl Reply {
    /// Whether the reply says that the probed path exists.
    pub fn is_found(&self) -> (yes: bool)
        ensures
            yes == (self@ is Found),
    {
        match self {
            Reply::Found { .. } => true,
            _ => false,
        }
    }

    /// Whether the reply says that a directory exists at the probed path.
    pub fn is_directory(&self) -> (yes: bool)
        ensures
            yes == self@.is_directory(),
    {
        match self {
            Reply::Found { is_dir } => *is_dir,
            _ => false,
        }
    }

    /// Whether the reply says that the probed path does not exist.
    pub fn is_missing(&self) -> (yes: bool)
        ensures
            yes == (self@ is Missing),
    {
        match self {
            Reply::Missing => true,
            _ => false,
        }
    }

    /// Whether the reply says that the change was made.
    pub fn is_done(&self) -> (yes: bool)
        ensures
            yes == (self@ is Done),
    {
        match self {
            Reply::Done => true,
            _ => false,
        }
    }

    /// What the file system said of a change that was not made.
    pub fn into_detail(self) -> (detail: String)
        ensures
            detail@ == self@.detail(),
    {
        match self {
            Reply::Failed(detail) => detail,
            _ => String::new(),
        }
    }
}


/// What a caller sees of an operation that it carries out: the effects it
/// is asked for, in order, and the result. There is no result where the
/// operation has not finished after the effects that were allowed.
pub struct Trace<T> {
    pub effects: Seq<EffectView>,
    pub result: Option<Result<T, FsErrorView>>,
}

/// The trace of an operation from `progress` on, for at most `steps`
/// effects, in a world that answers each effect as `world` says.
pub open spec fn trace<Op, T>(
    resume: spec_fn(Op, ReplyView) -> ProgressView<Op, T>,
    progress: ProgressView<Op, T>,
    world: spec_fn(EffectView) -> ReplyView,
    steps: nat,
) -> Trace<T>
    decreases steps,
{
    match progress {
        ProgressView::Finished(result) => Trace { effects: Seq::empty(), result: Some(result) },
        ProgressView::Continue(op, effect) => {
            if steps == 0 {
                Trace { effects: Seq::empty(), result: None }
            } else {
                let rest = trace(resume, resume(op, world(effect)), world, (steps - 1) as nat);
                Trace { effects: seq![effect] + rest.effects, result: rest.result }
            }
        },
    }
}

/// Whether the operation asked for no change at all.
pub open spec fn only_looked<T>(t: Trace<T>) -> bool {
    forall|i: int| 0 <= i < t.effects.len() ==> !(#[trigger] t.effects[i]).is_mutation()
}

} // verus!
