use vstd::prelude::*;

verus! {

/// A field of a node's status that reconciliation needs.
#[derive(Clone, Copy, Debug, PartialEq, Eq, Structural)]
pub enum ObjectKey {
    Status,
    Addresses,
    Hostname,
    ExternalIp,
}

impl ObjectKey {
    /// The path of the field inside the node object.
    pub fn path(&self) -> (r: &'static str)
        ensures
            *self is Status ==> r@ == ".status"@,
            *self is Addresses ==> r@ == ".status.addresses"@,
            *self is Hostname ==> r@ == "status.addresses.Hostname"@,
            *self is ExternalIp ==> r@ == "status.addresses.ExternalIP"@,
    {
        match self {
            ObjectKey::Status => ".status",
            ObjectKey::Addresses => ".status.addresses",
            ObjectKey::Hostname => "status.addresses.Hostname",
            ObjectKey::ExternalIp => "status.addresses.ExternalIP",
        }
    }
}

/// Every way in which a reconcile can fail.
#[derive(Debug)]
pub enum Error {
    /// The node lacks a status field that is needed.
    MissingObjectKey(ObjectKey),
    /// The ExternalIP entry does not hold an IP literal; carries the text.
    InvalidAddress(String),
    /// The zone is not served by the DNS provider; carries the zone name.
    ZoneNotFound(String),
    /// A provider listing spans more than one page.
    PaginationUnsupported,
    /// A provider or network call failed; carries its message.
    Transport(String),
    /// The cluster API failed; carries its message.
    KubeApiFailure(String),
    /// A configuration variable is not set; carries its message.
    MissingEnvVar(String),
    /// The node object has no name.
    UnnamedObject,
    /// A sync run was handed an event that does not answer its last action.
    UnexpectedEvent,
}

/// Why the finalizer machinery around a reconcile failed.
#[derive(Debug)]
pub enum FinalizerFailure {
    ApplyFailed(Error),
    CleanupFailed(Error),
    AddFinalizer(String),
    RemoveFinalizer(String),
    UnnamedObject,
}

/// The error that a finalizer failure stands for: the reconcile's own error
/// where there is one, else a cluster API failure or a missing name.
pub open spec fn error_of_finalizer(f: FinalizerFailure) -> Error {
    match f {
        FinalizerFailure::ApplyFailed(e) => e,
        FinalizerFailure::CleanupFailed(e) => e,
        FinalizerFailure::AddFinalizer(m) => Error::KubeApiFailure(m),
        FinalizerFailure::RemoveFinalizer(m) => Error::KubeApiFailure(m),
        FinalizerFailure::UnnamedObject => Error::UnnamedObject,
    }
}

impl From<FinalizerFailure> for Error {
    fn from(err: FinalizerFailure) -> (r: Error)
        ensures
            r == error_of_finalizer(err),
    {
        match err {
            FinalizerFailure::ApplyFailed(e) => e,
            FinalizerFailure::CleanupFailed(e) => e,
            FinalizerFailure::AddFinalizer(m) => Error::KubeApiFailure(m),
            FinalizerFailure::RemoveFinalizer(m) => Error::KubeApiFailure(m),
            FinalizerFailure::UnnamedObject => Error::UnnamedObject,
        }
    }
}

impl vstd::std_specs::convert::FromSpecImpl<FinalizerFailure> for Error {
    open spec fn obeys_from_spec() -> bool {
        true
    }

    open spec fn from_spec(v: FinalizerFailure) -> Error {
        error_of_finalizer(v)
    }
}

} // verus!
