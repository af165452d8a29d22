//! The outcome of reading one file.

use vstd::prelude::*;

verus! {

/// Why a file read produced no bytes.
#[derive(Clone, Copy, Debug, PartialEq, Eq, Structural)]
pub enum FailureReason {
    /// The file does not exist or could not be opened.
    Open,
    /// The file was opened, but reading it failed part-way.
    Read,
    /// The worker that was to read the file ended without delivering anything.
    Worker,
}

/// The outcome of one file read: the whole contents, or the reason there are
/// none.
#[derive(Clone, Debug, PartialEq, Eq)]
pub enum FileReadOutcome {
    Success(Vec<u8>),
    Failure(FailureReason),
}

impl View for FileReadOutcome {
    type V = Result<Seq<u8>, FailureReason>;

    open spec fn view(&self) -> Result<Seq<u8>, FailureReason> {
        match *self {
            FileReadOutcome::Success(bytes) => Ok(bytes@),
            FileReadOutcome::Failure(reason) => Err(reason),
        }
    }
}

/// What the awaiting side holds once the hand-off from a worker has ended:
/// the worker's own outcome if it delivered one, a worker failure if it did
/// not.
pub open spec fn handed_off(delivered: Option<Result<Seq<u8>, FailureReason>>) -> Result<
    Seq<u8>,
    FailureReason,
> {
    match delivered {
        Some(outcome) => outcome,
        None => Err(FailureReason::Worker),
    }
}

impl FileReadOutcome {
    /// Closes a hand-off. A worker that ended without delivering a value
    /// becomes an explicit failure, so that the request never waits for it.
    pub fn received(delivered: Option<FileReadOutcome>) -> (outcome: FileReadOutcome)
        ensures
            outcome@ == handed_off(
                match delivered {
                    Some(o) => Some(o@),
                    None => None,
                },
            ),
    {
        match delivered {
            Some(outcome) => outcome,
            None => FileReadOutcome::Failure(FailureReason::Worker),
        }
    }

    /// The number of bytes read, if the read succeeded.
    pub fn length(&self) -> (n: Option<u64>)
        ensures
            n == match self@ {
                Ok(bytes) => Some(bytes.len() as u64),
                Err(_) => None,
            },
    {
        match self {
            FileReadOutcome::Success(bytes) => Some(bytes.len() as u64),
            FileReadOutcome::Failure(_) => None,
        }
    }
}

} // verus!
