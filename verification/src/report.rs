//! What is told to the operator once a command has ended: what the node
//! said of a commit, and what becomes of a failure.

use vstd::prelude::*;
use vstd::string::StringExecFns;
use crate::error::{CliError, ErrorKind};

verus! {

/// What the node said of a commit, as far as this layer shows it.
#[derive(Clone, Debug, PartialEq, Eq)]
pub enum CommitInfo {
    /// The commit is a block; `header_hash` is the hash of its header in
    /// the words of the node.
    Block { header_hash: String },
    /// The commit is of a kind that cannot be shown yet.
    Other,
}

/// The line that is shown for `info`: for a block the hash of its header.
/// The other kinds of commit cannot be shown yet.
pub fn show_line(info: &CommitInfo) -> (r: Result<String, CliError>)
    ensures
        match *info {
            CommitInfo::Block { header_hash } => r is Ok && r->Ok_0@ == "hash: "@ + header_hash@,
            CommitInfo::Other => r is Err && r->Err_0 == CliError::NotImplemented,
        },
{
    match info {
        CommitInfo::Block { header_hash } => Ok(
            "hash: ".to_owned().concat(header_hash.as_str()),
        ),
        CommitInfo::Other => Err(CliError::NotImplemented),
    }
}

/// How a command failed.
#[derive(Clone, Debug, PartialEq, Eq)]
pub enum Failure {
    /// This layer refused the command or could not complete it.
    Rejected(CliError),
    /// The node found that its repository is not what it should be.
    Integrity { message: String },
    /// The node failed in any other way.
    Node { message: String },
}

impl Failure {
    /// The class that this failure belongs to.
    pub open spec fn kind_of(self) -> ErrorKind {
        match self {
            Failure::Rejected(e) => e.kind_of(),
            Failure::Integrity { message } => ErrorKind::Integrity,
            Failure::Node { message } => ErrorKind::Node,
        }
    }

    /// The class that this failure belongs to.
    pub fn kind(&self) -> (r: ErrorKind)
        ensures
            r == self.kind_of(),
    {
        match self {
            Failure::Rejected(e) => e.kind(),
            Failure::Integrity { message } => ErrorKind::Integrity,
            Failure::Node { message } => ErrorKind::Node,
        }
    }
}

/// What the top level does with a failure.
#[derive(Clone, Debug, PartialEq, Eq)]
pub enum Handling {
    /// The failure is one of integrity. It is told apart from all others so
    /// that a remedy can be attached to it; none is defined yet.
    Integrity,
    /// The failure is shown to the operator in these words.
    Surface { message: String },
}

/// What a `Handling` stands for.
pub ghost enum HandlingView {
    Integrity,
    Surface { message: Seq<char> },
}

impl View for Handling {
    type V = HandlingView;

    open spec fn view(&self) -> HandlingView {
        match self {
            Handling::Integrity => HandlingView::Integrity,
            Handling::Surface { message } => HandlingView::Surface { message: message@ },
        }
    }
}

/// What the top level does with `failure`: a failure of integrity is set
/// apart, and every other failure is shown with its message.
pub open spec fn handling(failure: Failure) -> HandlingView {
    match failure {
        Failure::Rejected(e) => HandlingView::Surface { message: e.message_text() },
        Failure::Integrity { message } => HandlingView::Integrity,
        Failure::Node { message } => HandlingView::Surface { message: message@ },
    }
}

/// Decides what the top level does with `failure`.
pub fn handle(failure: Failure) -> (r: Handling)
    ensures
        r@ == handling(failure),
        r is Integrity <==> failure.kind_of() == ErrorKind::Integrity,
{
    match failure {
        Failure::Rejected(e) => Handling::Surface { message: e.message() },
        Failure::Integrity { message } => Handling::Integrity,
        Failure::Node { message } => Handling::Surface { message },
    }
}

} // verus!
