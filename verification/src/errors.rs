use vstd::prelude::*;

verus! {

/// The error taxonomy of the lifecycle manager and dispatch bus.  Every
/// lifecycle and dispatch operation returns a success value or exactly one
/// of these; none is swallowed internally, and no operation retries.
#[derive(Clone, Copy, Debug, PartialEq, Eq, Structural)]
pub enum SourceError {
    /// The remote repository could not be reached at all.
    RepoUnreachable,
    /// The repository's manifest document could not be decoded.
    MalformedIndex,
    /// The manifest holds no descriptor for the requested id.
    NotFoundInIndex,
    /// The registry holds no source for the requested id.
    NotFound,
    /// The registry already holds a source for the id being installed.
    AlreadyInstalled,
    /// The descriptor's build or interface identity differs from the host's.
    IncompatibleVersion,
    /// The remote version does not strictly exceed the installed one.
    NoNewVersion,
    /// A version string could not be parsed.
    VersionParseError,
    /// The execution collaborator reported a failure for a dispatched call.
    ExecutionError,
    /// The collaborator's result could not be converted into a host record.
    ProtocolError,
}

/// How a call delegated to the execution collaborator failed, as the caller
/// reports it back to the dispatch facade.
#[derive(Clone, Copy, Debug, PartialEq, Eq, Structural)]
pub enum DispatchFailure {
    /// The collaborator itself reported an error.
    Execution,
    /// The collaborator returned something that does not convert into a
    /// normalized catalog record.
    Protocol,
}

} // verus!
