//! The ways in which a run fails.

use crate::text::text_of;
use vstd::prelude::*;

verus! {

/// The outside parties that a run talks to.
#[derive(Clone, Copy, Debug, PartialEq, Eq, Structural)]
pub enum Collaborator {
    /// The host of the repository.
    Repository,
    /// The channel that receives the message.
    Notifier,
}

/// Why a run failed. Every failure ends the run.
#[derive(Debug)]
pub enum Error {
    /// A request failed on the network or its answer could not be decoded.
    Transport { collaborator: Collaborator, detail: String },
    /// The channel answered and refused the message.
    Rejected { description: Option<String> },
    /// An answer arrived that no request was waiting for.
    OutOfTurn,
}

/// An error as plain values.
pub enum ErrorView {
    Transport { collaborator: Collaborator, detail: Seq<char> },
    Rejected { description: Option<Seq<char>> },
    OutOfTurn,
}

impl View for Error {
    type V = ErrorView;

    open spec fn view(&self) -> ErrorView {
        match *self {
            Error::Transport { collaborator, detail } => ErrorView::Transport {
                collaborator,
                detail: detail@,
            },
            Error::Rejected { description } => ErrorView::Rejected {
                description: text_of(description),
            },
            Error::OutOfTurn => ErrorView::OutOfTurn,
        }
    }
}

/// What a report of a refusal opens with; the channel's description follows.
pub const REPORTED: &'static str = "Telegram reported an error: ";

/// The report of a refusal that came without a description.
pub const UNKNOWN: &'static str = "An unknown Telegram error occurred.";

/// The report of an answer that no request was waiting for.
pub const OUT_OF_TURN: &'static str = "An answer arrived that no request was waiting for.";

/// The report of an error. A transport failure is reported in the words of
/// the party that failed, and the channel's description of a refusal is
/// passed on word for word.
pub open spec fn report(error: ErrorView) -> Seq<char> {
    match error {
        ErrorView::Transport { detail, .. } => detail,
        ErrorView::Rejected { description: Some(description) } => REPORTED@ + description,
        ErrorView::Rejected { description: None } => UNKNOWN@,
        ErrorView::OutOfTurn => OUT_OF_TURN@,
    }
}

impl Error {
    /// Writes the report of the error.
    pub fn message(&self) -> (text: String)
        ensures
            text@ == report(self@),
    {
        match self {
            Error::Transport { detail, .. } => detail.clone(),
            Error::Rejected { description: Some(description) } => {
                let mut text = String::from_str(REPORTED);
                text.append(description.as_str());
                text
            },
            Error::Rejected { description: None } => String::from_str(UNKNOWN),
            Error::OutOfTurn => String::from_str(OUT_OF_TURN),
        }
    }
}

} // verus!
