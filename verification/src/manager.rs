//! Connection manager: owns zero-or-one active backend at a time, keyed by a
//! generated connection id, and routes all uniform operations to the active
//! backend, reporting `NotConnected` otherwise.

use std::collections::HashMap;
use vstd::prelude::*;

use crate::compression::str_eq;
use crate::storage::{
    ConnectionConfig, DirectoryResult, ListOptions, StorageCapabilities, StorageClient,
    StorageError, StorageRequest, StorageResponse,
};

verus! {

broadcast use vstd::std_specs::hash::group_hash_axioms;

/// Relies on `std::time::SystemTime::now`: the current Unix timestamp in
/// seconds, used only to derive connection ids.  Nothing is assumed of the
/// value; a clock before the epoch yields zero and a clock past the
/// representable range saturates, so the call cannot abort.
#[verifier::external_body]
fn now_unix_timestamp() -> i64 {
    match std::time::SystemTime::now().duration_since(std::time::UNIX_EPOCH) {
        Ok(elapsed) => i64::try_from(elapsed.as_secs()).unwrap_or(i64::MAX),
        Err(_) => 0,
    }
}

/// The protocols a backend may register under.
pub open spec fn spec_supported_protocol(protocol: Seq<char>) -> bool {
    protocol == "webdav"@ || protocol == "local"@
}

/// Tracks the registered backend instances and the single active one.  The
/// uniform operations go through the active instance; an instance superseded
/// by a later `connect` stays registered but is unreachable through them.
pub struct StorageManager<C> {
    pub clients: HashMap<u64, C>,
    pub active_client: Option<u64>,
}

impl<C: StorageClient> StorageManager<C> {
    /// The active id, when set, refers to a registered instance.
    pub open spec fn wf(self) -> bool {
        self.active_client matches Some(id) ==> self.clients@.contains_key(id)
    }

    /// A fresh manager with no registered backends.
    pub fn new() -> (r: Self)
        ensures
            r.clients@ == Map::<u64, C>::empty(),
            r.active_client is None,
            r.wf(),
    {
        StorageManager { clients: HashMap::new(), active_client: None }
    }

    /// Registers `client` for `config` and makes it active: validates the
    /// protocol, establishes the connection, and stores the instance under an
    /// id derived from the protocol and the timestamp.  A new instance is
    /// always registered, never one reused for an identical configuration.  An unrecognized protocol is
    /// rejected with `UnsupportedProtocol` and changes nothing; a failed
    /// backend connection propagates the backend's error and changes
    /// nothing.
    pub fn connect(&mut self, config: &ConnectionConfig, client: C) -> (r: Result<
        (),
        StorageError,
    >)
        requires
            old(self).wf(),
        ensures
            final(self).wf(),
            !spec_supported_protocol(config.protocol@) ==> {
                &&& r matches Err(e) && e matches StorageError::UnsupportedProtocol(p) && p@
                    == config.protocol@
                &&& *final(self) == *old(self)
            },
            r is Ok ==> {
                &&& final(self).active_client matches Some(id) && exists|c: C|
                    final(self).clients@ == old(self).clients@.insert(id, c)
                &&& spec_supported_protocol(config.protocol@)
            },
            r is Err ==> *final(self) == *old(self),
    {
        let is_webdav = str_eq(config.protocol.as_str(), "webdav");
        let is_local = str_eq(config.protocol.as_str(), "local");
        if !(is_webdav || is_local) {
            return Err(StorageError::UnsupportedProtocol(config.protocol.clone()));
        }
        let mut client = client;
        match client.connect(config) {
            Ok(_) => {},
            Err(e) => {
                return Err(e);
            },
        }
        let timestamp = now_unix_timestamp();
        let ts_part: u64 = #[verifier::truncate] (timestamp as u64);
        let protocol_bit: u64 = if is_webdav {
            0
        } else {
            1
        };
        let client_id: u64 = #[verifier::truncate] (((ts_part as u128) * 2 + protocol_bit as u128)
            as u64);
        self.clients.insert(client_id, client);
        self.active_client = Some(client_id);
        Ok(())
    }

    /// Removes and disconnects only the active instance; without one it does
    /// nothing.  Idempotent.
    pub fn disconnect(&mut self) -> (r: Result<(), StorageError>)
        requires
            old(self).wf(),
        ensures
            final(self).wf(),
            r is Ok,
            final(self).active_client is None,
            match old(self).active_client {
                Some(id) => final(self).clients@ == old(self).clients@.remove(id),
                None => final(self).clients@ == old(self).clients@,
            },
    {
        match self.active_client {
            Some(client_id) => {
                match self.clients.remove(&client_id) {
                    Some(client) => {
                        client.disconnect();
                    },
                    None => {},
                }
                self.active_client = None;
            },
            None => {},
        }
        Ok(())
    }

    /// Whether an active backend exists.
    pub fn is_connected(&self) -> (r: bool)
        ensures
            r == (self.active_client is Some),
    {
        match self.active_client {
            Some(_) => true,
            None => false,
        }
    }

    /// Routes a generic request to the active backend; fails with
    /// `NotConnected` when none exists.
    pub fn request(&self, request: &StorageRequest) -> (r: Result<StorageResponse, StorageError>)
        requires
            self.wf(),
        ensures
            self.active_client is None ==> (r matches Err(e) && e is NotConnected),
    {
        match self.active_client {
            Some(client_id) => match self.clients.get(&client_id) {
                Some(client) => client.request(request),
                None => Err(StorageError::NotConnected),
            },
            None => Err(StorageError::NotConnected),
        }
    }

    /// Routes a binary request to the active backend; fails with
    /// `NotConnected` when none exists.
    pub fn request_binary(&self, request: &StorageRequest) -> (r: Result<Vec<u8>, StorageError>)
        requires
            self.wf(),
        ensures
            self.active_client is None ==> (r matches Err(e) && e is NotConnected),
    {
        match self.active_client {
            Some(client_id) => match self.clients.get(&client_id) {
                Some(client) => client.request_binary(request),
                None => Err(StorageError::NotConnected),
            },
            None => Err(StorageError::NotConnected),
        }
    }

    /// Routes a directory listing to the active backend; fails with
    /// `NotConnected` when none exists.
    pub fn list_directory(&self, path: &str, options: Option<&ListOptions>) -> (r: Result<
        DirectoryResult,
        StorageError,
    >)
        requires
            self.wf(),
        ensures
            self.active_client is None ==> (r matches Err(e) && e is NotConnected),
    {
        match self.active_client {
            Some(client_id) => match self.clients.get(&client_id) {
                Some(client) => client.list_directory(path, options),
                None => Err(StorageError::NotConnected),
            },
            None => Err(StorageError::NotConnected),
        }
    }

    /// The active backend's capability description, when one exists.
    pub fn current_capabilities(&self) -> (r: Option<StorageCapabilities>)
        requires
            self.wf(),
        ensures
            r is Some <==> self.active_client is Some,
    {
        match self.active_client {
            Some(client_id) => match self.clients.get(&client_id) {
                Some(client) => Some(client.capabilities()),
                None => None,
            },
            None => None,
        }
    }

    /// A handle to the active backend, when one exists, so callers can run
    /// I/O without holding the manager.
    pub fn get_current_client(&self) -> (r: Option<&C>)
        requires
            self.wf(),
        ensures
            r is Some <==> self.active_client is Some,
            r matches Some(c) ==> self.active_client matches Some(id) && *c
                == self.clients@[id],
    {
        match self.active_client {
            Some(client_id) => self.clients.get(&client_id),
            None => None,
        }
    }

    /// The protocols this manager accepts on `connect`.
    pub fn supported_protocols(&self) -> (r: Vec<&'static str>)
        ensures
            r@.len() == 2,
            r@[0]@ == "webdav"@,
            r@[1]@ == "local"@,
    {
        let mut protocols: Vec<&'static str> = Vec::new();
        protocols.push("webdav");
        protocols.push("local");
        protocols
    }
}

} // verus!
