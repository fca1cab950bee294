//! Error taxonomy: store failures, import failures, and the closed set of
//! reasons a training set is refused.

use vstd::prelude::*;

verus! {

/// Opaque failure reported by a store. The message is for logging only; it
/// carries no domain meaning.
#[derive(Debug, PartialEq, Eq)]
pub struct RepoError {
    pub message: String,
}

/// Why a puzzle import was refused.
#[derive(Debug)]
pub enum ImportError {
    /// The record's popularity score lies outside `[-100, 100]`. Carries
    /// the offending record's external identifier and the value seen.
    PopularityOutOfRange { puzzle_id: String, popularity: i8 },
    /// The puzzle store failed while persisting the record.
    RepositoryError { source: RepoError },
}

/// Why a training set was not created. The variants are checked in a fixed
/// order, so the first violated rule names the error.
#[derive(Debug)]
pub enum CreateTrainingSetError {
    EmptyName,
    NameLengthLimitExceeded,
    SizeTooSmall,
    SizeLimitExceeded,
    CriteriaUnmet,
    RepositoryError { source: RepoError },
}

/// The one sentence that describes each error kind to an end user.
pub open spec fn spec_message(e: CreateTrainingSetError) -> Seq<char> {
    match e {
        CreateTrainingSetError::EmptyName => "Set name can't be blank."@,
        CreateTrainingSetError::NameLengthLimitExceeded => "Set name length can't exceed 100."@,
        CreateTrainingSetError::SizeTooSmall => "Set size must be at least 5."@,
        CreateTrainingSetError::SizeLimitExceeded => "Set size can't exceed 1000."@,
        CreateTrainingSetError::CriteriaUnmet => "Not enough puzzles meet the criteria given."@,
        CreateTrainingSetError::RepositoryError { .. } => "Repository error."@,
    }
}

impl CreateTrainingSetError {
    /// User-facing description of the error, one sentence per kind.
    pub fn message(&self) -> (r: String)
        ensures
            r@ == spec_message(*self),
    {
        let m: &str = match self {
            CreateTrainingSetError::EmptyName => "Set name can't be blank.",
            CreateTrainingSetError::NameLengthLimitExceeded => "Set name length can't exceed 100.",
            CreateTrainingSetError::SizeTooSmall => "Set size must be at least 5.",
            CreateTrainingSetError::SizeLimitExceeded => "Set size can't exceed 1000.",
            CreateTrainingSetError::CriteriaUnmet => "Not enough puzzles meet the criteria given.",
            CreateTrainingSetError::RepositoryError { .. } => "Repository error.",
        };
        m.to_owned()
    }
}

} // verus!
