//! A plain connector for hyper's client that resolves names through the
//! resolver handle.
use crate::resolver::AsyncHyperResolver;
use hyper::client::HttpConnector;
use vstd::prelude::*;

verus! {

#[verifier::external_type_specification]
#[verifier::external_body]
#[verifier::reject_recursive_types(R)]
pub struct ExHttpConnector<R>(HttpConnector<R>);

/// Relies on `HttpConnector::new_with_resolver`: a connector with hyper's
/// default settings that resolves names through `resolver`.
#[verifier::external_body]
fn connector_with_resolver<R>(resolver: R) -> HttpConnector<R> {
    HttpConnector::new_with_resolver(resolver)
}

/// A plain connector that resolves through a handle to a new engine built
/// from the system's resolver configuration. `R` is the type that hyper
/// calls to resolve, made from the handle.
pub fn new_async_http_connector<R: From<AsyncHyperResolver>>() -> (r: Result<
    HttpConnector<R>,
    std::io::Error,
>) {
    http_connector_with(AsyncHyperResolver::new_from_system_conf())
}

/// A plain connector for the outcome of building a resolver handle: one
/// that resolves through the handle, else the handle's failure.
pub fn http_connector_with<R: From<AsyncHyperResolver>>(
    handle: Result<AsyncHyperResolver, std::io::Error>,
) -> (r: Result<HttpConnector<R>, std::io::Error>)
    ensures
        r is Ok <==> handle is Ok,
        handle is Err ==> r == Err::<HttpConnector<R>, std::io::Error>(handle->Err_0),
{
    match handle {
        Ok(handle) => Ok(connector_with_resolver(R::from(handle))),
        Err(e) => Err(e),
    }
}

} // verus!
