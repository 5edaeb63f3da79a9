//! What an update run reports: the status of a check, the errors this library
//! raises itself, and the reply of a wrapped update.

use vstd::prelude::*;

verus! {

/// The status of an update check: the program was already up to date, or it
/// was updated. Each variant carries a version tag.
#[derive(Clone, Debug)]
pub enum Status {
    UpToDate(String),
    Updated(String),
}

/// The status of an update check with the installed release: nothing was
/// installed, or the given release was.
#[derive(Clone, Debug)]
pub enum UpdateStatus<R> {
    UpToDate,
    Updated(R),
}

/// The errors that the wrappers raise themselves.
#[derive(Clone, Debug)]
pub enum UpdateError {
    /// The wrapper was configured incompletely.
    Config(String),
    /// The freshly installed release could not be started.
    Release(String),
}

/// A check status that tells whether the check installed something.
pub trait Outcome {
    /// Whether the check installed a new release.
    spec fn spec_updated(&self) -> bool;

    /// Whether the check installed a new release.
    fn updated(&self) -> (b: bool)
        ensures
            b == self.spec_updated(),
    ;
}

impl Outcome for Status {
    open spec fn spec_updated(&self) -> bool {
        self is Updated
    }

    fn updated(&self) -> (b: bool)
        ensures
            b <==> self is Updated,
    {
        match self {
            Status::UpToDate(_) => false,
            Status::Updated(_) => true,
        }
    }
}

impl<R> Outcome for UpdateStatus<R> {
    open spec fn spec_updated(&self) -> bool {
        self is Updated
    }

    fn updated(&self) -> (b: bool)
        ensures
            b <==> self is Updated,
    {
        match self {
            UpdateStatus::UpToDate => false,
            UpdateStatus::Updated(_) => true,
        }
    }
}

/// How a wrapped update ends: the check was skipped and the program counts as
/// up to date, or the check ran and this is what it gave.
#[derive(Debug)]
pub enum Reply<S, E> {
    UpToDate,
    Finished(Result<S, E>),
}

/// A status counts as installing a release exactly when it is `Updated`,
/// whatever version it carries; `UpToDate` never does.
pub proof fn lemma_status_updated_by_variant(version: String)
    ensures
        Status::Updated(version).spec_updated(),
        !Status::UpToDate(version).spec_updated(),
        forall|s: Status| s.spec_updated() <==> s is Updated,
{
}

/// An extended status counts as installing a release exactly when it is
/// `Updated`; `UpToDate` never does.
pub proof fn lemma_update_status_updated_by_variant<R>(release: R)
    ensures
        UpdateStatus::Updated(release).spec_updated(),
        !UpdateStatus::<R>::UpToDate.spec_updated(),
        forall|s: UpdateStatus<R>| s.spec_updated() <==> s is Updated,
{
}

} // verus!
