//! Backend client cache: a remote client handle that is connected on first
//! use, kept while it works and dropped when a call through it fails.
//!
//! Connecting is the caller's work. A caller asks the cache for a client;
//! where none is cached it is told the address to connect to, and it reports
//! what the attempt gave. The address is resolved once, when the cache is
//! made, and every reconnect goes to it.

use vstd::prelude::*;
use vstd::string::StringExecFns;

verus! {

/// What a `GrpcClient` holds.
pub struct GrpcClientView<T> {
    /// The cached client, if one is connected.
    pub inner: Option<T>,
    /// The address that every connect attempt goes to.
    pub address: Seq<char>,
}

/// Lazily connected client of one backend.
#[derive(Debug)]
pub struct GrpcClient<T> {
    inner: Option<T>,
    address: String,
}

/// The clients of all backends.
#[derive(Debug)]
pub struct GrpcClients<T> {
    /// Svc-Storage ADS-B Client
    pub adsb: GrpcClient<T>,
}

/// What a caller that asked for a client has to do next.
#[derive(Debug)]
pub enum ClientStep<T> {
    /// A client is cached: use this copy of it.
    Ready(T),
    /// None is cached: connect to this address and report the outcome.
    Connect(String),
}

/// `http://host:port`, with an empty string in place of a part that is not
/// configured.
pub open spec fn endpoint_spec(host: Option<&str>, port: Option<&str>) -> Seq<char> {
    "http://"@ + (match host {
        Some(h) => h@,
        None => Seq::<char>::empty(),
    }) + ":"@ + (match port {
        Some(p) => p@,
        None => Seq::<char>::empty(),
    })
}

/// The slot after a request for a client, the client handed out, and whether
/// a connect attempt was made; `connect` is what an attempt gives.
pub open spec fn get_client_spec<T>(slot: Option<T>, connect: Option<T>) -> (
    Option<T>,
    Option<T>,
    bool,
) {
    match slot {
        Some(client) => (Some(client), Some(client), false),
        None => (connect, connect, true),
    }
}

/// `r` is a copy of the client that was to be handed out, or nothing where
/// none was.
pub open spec fn handed_out<T: Clone>(client: Option<T>, r: Option<T>) -> bool {
    match client {
        Some(c) => r matches Some(copy) && cloned(c, copy),
        None => r is None,
    }
}

/// Returns a string in http://host:port format from the configured host and
/// port.
pub fn get_grpc_endpoint(host: Option<&str>, port: Option<&str>) -> (r: String)
    ensures
        r@ == endpoint_spec(host, port),
{
    let mut endpoint = String::from_str("http://");
    if let Some(h) = host {
        endpoint.append(h);
    }
    endpoint.append(":");
    if let Some(p) = port {
        endpoint.append(p);
    }
    assert(endpoint@ =~= endpoint_spec(host, port));
    endpoint
}

impl<T> View for GrpcClient<T> {
    type V = GrpcClientView<T>;

    closed spec fn view(&self) -> GrpcClientView<T> {
        GrpcClientView { inner: self.inner, address: self.address@ }
    }
}

impl<T> GrpcClient<T> {
    /// An empty cache for the backend at the configured host and port.
    pub fn new(host: Option<&str>, port: Option<&str>) -> (r: Self)
        ensures
            r@.inner is None,
            r@.address == endpoint_spec(host, port),
    {
        GrpcClient { inner: None, address: get_grpc_endpoint(host, port) }
    }

    /// Drops the cached client, so that the next request for one reconnects.
    pub fn invalidate(&mut self)
        ensures
            final(self)@.inner is None,
            final(self)@.address == old(self)@.address,
    {
        self.inner = None;
    }

    /// The address that connect attempts go to.
    pub fn address(&self) -> (r: &str)
        ensures
            r@ == self@.address,
    {
        self.address.as_str()
    }

    /// Whether a client is cached.
    pub fn is_connected(&self) -> (r: bool)
        ensures
            r == self@.inner is Some,
    {
        self.inner.is_some()
    }

    /// A copy of the cached client, or the address to connect to where none
    /// is cached and `get_client_spec` has a connect attempt made. The cache
    /// is left as it is.
    pub fn get_client(&self) -> (r: ClientStep<T>) where T: Clone
        ensures
            r is Connect == get_client_spec(self@.inner, None).2,
            match r {
                ClientStep::Ready(c) => self@.inner matches Some(client) && cloned(client, c),
                ClientStep::Connect(address) => self@.inner is None && address@ == self@.address,
            },
    {
        match &self.inner {
            Some(client) => ClientStep::Ready(client.clone()),
            None => ClientStep::Connect(self.address.clone()),
        }
    }

    /// Takes the outcome of the connect attempt that `get_client` asked for
    /// (`None`: it failed) and completes the request as `get_client_spec`
    /// says. A new client is cached and a copy of it handed out; after a
    /// failure the cache is empty and nothing is handed out. Should a client
    /// be cached after all, it stays, and a copy of it is handed out.
    pub fn connected(&mut self, outcome: Option<T>) -> (r: Option<T>) where T: Clone
        ensures
            final(self)@.inner == get_client_spec(old(self)@.inner, outcome).0,
            final(self)@.address == old(self)@.address,
            handed_out(get_client_spec(old(self)@.inner, outcome).1, r),
    {
        if self.inner.is_none() {
            self.inner = outcome;
        }
        match &self.inner {
            Some(client) => Some(client.clone()),
            None => None,
        }
    }
}

impl<T> GrpcClients<T> {
    /// Empty caches for the backends at the configured storage host and port.
    pub fn default(storage_host: Option<&str>, storage_port: Option<&str>) -> (r: Self)
        ensures
            r.adsb@.inner is None,
            r.adsb@.address == endpoint_spec(storage_host, storage_port),
    {
        GrpcClients { adsb: GrpcClient::new(storage_host, storage_port) }
    }
}

/// After a failed connect no client is handed out and the cache stays empty,
/// so the next request connects again.
pub proof fn lemma_failure_leaves_cache_empty<T>()
    ensures
        get_client_spec::<T>(None, None) == (None::<T>, None::<T>, true),
{
}

/// A successful connect hands the new client out and caches it: the request
/// after it gets the same client without connecting, whatever a connect
/// would have given.
pub proof fn lemma_success_is_cached<T>(client: T, other: Option<T>)
    ensures
        get_client_spec(None, Some(client)) == (Some(client), Some(client), true),
        get_client_spec(get_client_spec(None, Some(client)).0, other) == (
            Some(client),
            Some(client),
            false,
        ),
{
}

/// After `invalidate`, which leaves the slot empty whatever it held, the
/// next request connects anew and hands out what that attempt gave, not the
/// client that was cached before.
pub proof fn lemma_invalidate_forces_reconnect<T>(
    stale: Option<T>,
    invalidated: Option<T>,
    connect: Option<T>,
)
    requires
        invalidated is None,
    ensures
        get_client_spec(invalidated, connect) == (connect, connect, true),
        stale is Some ==> get_client_spec(stale, connect) == (stale, stale, false),
{
}

} // verus!
