//! The state the embedded runtime's host operations read: the artifact store,
//! and the reverse-request client, which is present only while a call that
//! needs network data runs.
use vstd::prelude::*;

use crate::error::UndercoverError;
use crate::railgun::artifacts::Artifact;
use crate::text::owned;

verus! {

/// The host state of the embedded runtime; `C` is the client that serves
/// reverse requests.
#[derive(Debug)]
pub struct EmbeddedHostState<C> {
    artifact: Artifact,
    rpc_client: Option<C>,
}

/// The message of a reverse request made while no client is installed.
pub open spec fn no_client_message() -> Seq<char> {
    "reverse request attempted without RPC client"@
}

impl<C> EmbeddedHostState<C> {
    /// The artifact store.
    pub closed spec fn artifact_spec(&self) -> Artifact {
        self.artifact
    }

    /// The installed reverse-request client, if any.
    pub closed spec fn client_spec(&self) -> Option<C> {
        self.rpc_client
    }

    /// The host state of an artifact store; no client is installed.
    pub fn new(artifact: Artifact) -> (s: Self)
        ensures
            s.artifact_spec() == artifact,
            s.client_spec().is_none(),
    {
        EmbeddedHostState { artifact, rpc_client: None }
    }

    /// The artifact store.
    pub fn artifact(&self) -> (r: &Artifact)
        ensures
            *r == self.artifact_spec(),
    {
        &self.artifact
    }

    /// Install a client for the duration of a call, or remove it with `None`.
    pub fn set_rpc_client(&mut self, rpc_client: Option<C>)
        ensures
            final(self).client_spec() == rpc_client,
            final(self).artifact_spec() == old(self).artifact_spec(),
    {
        self.rpc_client = rpc_client;
    }

    /// The client that serves a reverse request: refused when none is
    /// installed.
    pub fn reverse_client(&self) -> (r: Result<&C, UndercoverError>)
        ensures
            match r {
                Ok(c) => self.client_spec() == Some(*c),
                Err(e) => self.client_spec().is_none() && e.message_view() == no_client_message(),
            },
    {
        match &self.rpc_client {
            Some(c) => Ok(c),
            None => {
                proof {
                    reveal_strlit("reverse request attempted without RPC client");
                }
                Err(UndercoverError::Message(owned("reverse request attempted without RPC client")))
            },
        }
    }
}

} // verus!
