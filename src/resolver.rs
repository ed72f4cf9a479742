//! The resolver handle: hickory's asynchronous resolver behind a cheaply
//! cloned handle, and the outcome of a lookup made through it.
use crate::endpoint::{endpoints_from_addresses, endpoints_of, Endpoint, IpAddress};
use hickory_resolver::config::{ResolverConfig, ResolverOpts};
use hickory_resolver::error::ResolveError;
use hickory_resolver::TokioAsyncResolver;
use vstd::prelude::*;

verus! {

#[verifier::external_type_specification]
#[verifier::external_body]
pub struct ExResolverConfig(ResolverConfig);

#[verifier::external_type_specification]
#[verifier::external_body]
pub struct ExResolverOpts(ResolverOpts);

#[verifier::external_type_specification]
#[verifier::external_body]
pub struct ExResolveError(ResolveError);

#[verifier::external_type_specification]
#[verifier::external_body]
pub struct ExIoError(std::io::Error);

/// Relies on `TokioAsyncResolver::tokio`, which builds the engine from the
/// configuration and options given and cannot fail.
#[verifier::external_body]
fn engine_with(config: ResolverConfig, options: ResolverOpts) -> AsyncHyperResolver {
    AsyncHyperResolver(TokioAsyncResolver::tokio(config, options))
}

/// Relies on `TokioAsyncResolver::tokio_from_system_conf`, which reads the
/// system's resolver configuration and fails where it cannot be read.
#[verifier::external_body]
fn engine_from_system_conf() -> Result<AsyncHyperResolver, ResolveError> {
    TokioAsyncResolver::tokio_from_system_conf().map(AsyncHyperResolver)
}

/// Relies on hickory's `From<ResolveError> for std::io::Error`, which keeps
/// the resolver's error as the source of the I/O error.
#[verifier::external_body]
fn io_error_from(e: ResolveError) -> std::io::Error {
    std::io::Error::from(e)
}

/// A handle to hickory's asynchronous resolver. Clones share one engine:
/// its configuration, cache and connections. The engine is hidden from
/// proofs: Verus cannot declare hickory's resolver type, whose parameter is
/// bounded by hickory's own traits.
#[verifier::external_body]
#[derive(Debug)]
pub struct AsyncHyperResolver(pub TokioAsyncResolver);

impl AsyncHyperResolver {
    /// A handle to a new engine built from `config` and `options`.
    pub fn new(config: ResolverConfig, options: ResolverOpts) -> (r: Result<Self, std::io::Error>)
        ensures
            r is Ok,
    {
        Ok(engine_with(config, options))
    }

    /// A handle to a new engine built from the system's resolver
    /// configuration; an I/O error where that cannot be read.
    pub fn new_from_system_conf() -> (r: Result<Self, std::io::Error>) {
        Self::from_engine_outcome(engine_from_system_conf())
    }

    /// The handle for the outcome of building an engine: the handle where
    /// the engine was built, else the failure as an I/O error.
    pub fn from_engine_outcome(outcome: Result<Self, ResolveError>) -> (r: Result<
        Self,
        std::io::Error,
    >)
        ensures
            r is Ok <==> outcome is Ok,
            r is Ok ==> r->Ok_0 == outcome->Ok_0,
    {
        match outcome {
            Ok(handle) => Ok(handle),
            Err(e) => Err(io_error_from(e)),
        }
    }
}

impl Clone for AsyncHyperResolver {
    /// A second handle to the same engine. Relies on the `Clone` that
    /// hickory's `AsyncResolver` derives: configuration and options are
    /// copied, and the cache and connection pool are shared through `Arc`.
    #[verifier::external_body]
    fn clone(&self) -> (r: Self)
        ensures
            r == *self,
    {
        AsyncHyperResolver(self.0.clone())
    }
}

/// The outcome of resolving a name, from the outcome of the engine's lookup:
/// the endpoints of its answer, or its failure as an I/O error, with no retry
/// and no fallback.
pub fn endpoints_from_lookup(answer: Result<Vec<IpAddress>, ResolveError>) -> (r: Result<
    Vec<Endpoint>,
    std::io::Error,
>)
    ensures
        r is Ok <==> answer is Ok,
        answer is Ok ==> r->Ok_0@ == endpoints_of(answer->Ok_0@),
{
    match answer {
        Ok(addresses) => Ok(endpoints_from_addresses(&addresses)),
        Err(e) => Err(io_error_from(e)),
    }
}

} // verus!
