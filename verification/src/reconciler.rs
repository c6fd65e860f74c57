//! What a reconciliation attempt asks of the controller next, how it can
//! fail, and the uniform policy that turns any failure into a retry.

use vstd::prelude::*;
use vstd::string::*;

verus! {

/// Seconds to wait before a failed resource is reconciled again.
pub const RETRY_DELAY_SECONDS: u64 = 15;

/// The instruction a reconciliation attempt ends with.
#[derive(Clone, Copy, Debug, PartialEq, Eq, Structural)]
pub enum Action {
    /// Nothing more to do until the resource changes.
    NoRequeue,
    /// Reconcile the same resource again after the given delay.
    RequeueAfter { seconds: u64, nanos: u32 },
}

/// All the ways a reconciliation attempt can fail. Each variant carries the
/// rendered detail of the underlying failure.
#[derive(Clone, Debug, PartialEq, Eq)]
pub enum Error {
    /// Communication with the cluster API failed.
    ClusterApi(String),
    /// The resource definition is invalid or incomplete.
    UserInput(String),
    /// The token endpoint was unreachable or rejected the credentials.
    AuthIssuance(String),
    /// The managed backend rejected a request.
    ExternalApi(String),
    /// A secret or payload was not validly encoded.
    Decoding(String),
}

/// What every reconciliation attempt is handed besides the resource: a handle
/// to the cluster API and a handle to the managed backend. It is put together
/// once and only read afterwards.
pub struct ContextData<K, S> {
    pub kubernetes_client: K,
    pub sftpgo_client: S,
}

impl Error {
    /// The detail the failure was reported with.
    pub open spec fn detail(self) -> Seq<char> {
        match self {
            Error::ClusterApi(detail) => detail@,
            Error::UserInput(detail) => detail@,
            Error::AuthIssuance(detail) => detail@,
            Error::ExternalApi(detail) => detail@,
            Error::Decoding(detail) => detail@,
        }
    }

    /// What the message of a failure of this kind starts with.
    pub open spec fn prefix(self) -> Seq<char> {
        match self {
            Error::ClusterApi(_) => "Kubernetes reported error: "@,
            Error::UserInput(_) => "Invalid CRD: "@,
            Error::AuthIssuance(_) => "Token issuance failed: "@,
            Error::ExternalApi(_) => "Sftpgo client reported error: "@,
            Error::Decoding(_) => "Error while decoding base64: "@,
        }
    }

    /// The message for the log: what kind of failure it was, then its detail.
    pub fn message(&self) -> (text: String)
        ensures
            text@ == self.prefix() + self.detail(),
    {
        let (prefix, detail) = match self {
            Error::ClusterApi(detail) => ("Kubernetes reported error: ", detail),
            Error::UserInput(detail) => ("Invalid CRD: ", detail),
            Error::AuthIssuance(detail) => ("Token issuance failed: ", detail),
            Error::ExternalApi(detail) => ("Sftpgo client reported error: ", detail),
            Error::Decoding(detail) => ("Error while decoding base64: ", detail),
        };
        let mut text = prefix.to_owned();
        text.append(detail.as_str());
        text
    }
}

/// The retry every failure is answered with, whatever its kind.
pub open spec fn retry_action() -> Action {
    Action::RequeueAfter { seconds: RETRY_DELAY_SECONDS, nanos: 0 }
}

/// Maps a failed reconciliation of `echo` to the action the controller takes:
/// always a requeue after the fixed delay, whatever the error, so that a
/// failed resource is always revisited.
pub fn error_policy<TResource, K, S>(
    echo: &TResource,
    error: &Error,
    context: &ContextData<K, S>,
) -> (action: Action)
    ensures
        action == retry_action(),
        action != Action::NoRequeue,
{
    Action::RequeueAfter { seconds: RETRY_DELAY_SECONDS, nanos: 0 }
}

} // verus!
