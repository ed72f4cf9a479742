//! A TLS-capable connector over the plain one, and the error that unites
//! the failures of building it.
use crate::connector::new_async_http_connector;
use crate::resolver::AsyncHyperResolver;
use hyper::client::HttpConnector;
use hyper_tls::HttpsConnector;
use native_tls::{Error as NativeTlsError, TlsConnector};
use vstd::prelude::*;

verus! {

#[verifier::external_type_specification]
#[verifier::external_body]
#[verifier::reject_recursive_types(T)]
pub struct ExHttpsConnector<T>(HttpsConnector<T>);

#[verifier::external_type_specification]
#[verifier::external_body]
pub struct ExTlsConnector(TlsConnector);

#[verifier::external_type_specification]
#[verifier::external_body]
pub struct ExTlsError(NativeTlsError);

/// A failure to build a connector: the TLS context could not be built, or
/// the resolver could not (an I/O error).
#[derive(Debug)]
pub enum Error {
    NativeTls(NativeTlsError),
    Io(std::io::Error),
}

impl From<std::io::Error> for Error {
    fn from(error: std::io::Error) -> (r: Error)
        ensures
            r == Error::Io(error),
    {
        Error::Io(error)
    }
}

impl vstd::std_specs::convert::FromSpecImpl<std::io::Error> for Error {
    open spec fn obeys_from_spec() -> bool {
        true
    }

    open spec fn from_spec(error: std::io::Error) -> Error {
        Error::Io(error)
    }
}

impl From<NativeTlsError> for Error {
    fn from(error: NativeTlsError) -> (r: Error)
        ensures
            r == Error::NativeTls(error),
    {
        Error::NativeTls(error)
    }
}

impl vstd::std_specs::convert::FromSpecImpl<NativeTlsError> for Error {
    open spec fn obeys_from_spec() -> bool {
        true
    }

    open spec fn from_spec(error: NativeTlsError) -> Error {
        Error::NativeTls(error)
    }
}

/// Relies on `HttpConnector::enforce_http`: with `false`, the connector
/// accepts `https` URIs too, for a TLS layer to wrap.
#[verifier::external_body]
fn accept_any_scheme<R>(http: &mut HttpConnector<R>) {
    http.enforce_http(false)
}

/// Relies on `native_tls::TlsConnector::new`: a TLS context with the
/// platform's defaults, or the platform's error.
#[verifier::external_body]
fn platform_tls() -> Result<TlsConnector, NativeTlsError> {
    TlsConnector::new()
}

/// Relies on hyper-tls's `From<(T, TlsConnector)> for HttpsConnector<T>`:
/// the TLS layer over `http`.
#[verifier::external_body]
fn tls_over<R>(http: HttpConnector<R>, tls: TlsConnector) -> HttpsConnector<HttpConnector<R>> {
    HttpsConnector::from((http, tls.into()))
}

/// A TLS-capable connector over a plain one built as by
/// `new_async_http_connector`.
pub fn new_async_https_connector<R: From<AsyncHyperResolver>>() -> (r: Result<
    HttpsConnector<HttpConnector<R>>,
    Error,
>) {
    https_connector_with(new_async_http_connector())
}

/// A TLS-capable connector for the outcome of building a plain one: the
/// plain one's failure as `Error::Io`; else the TLS context is built, and
/// its failure comes as `Error::NativeTls`.
pub fn https_connector_with<R>(http: Result<HttpConnector<R>, std::io::Error>) -> (r: Result<
    HttpsConnector<HttpConnector<R>>,
    Error,
>)
    ensures
        http is Err ==> r == Err::<HttpsConnector<HttpConnector<R>>, Error>(
            Error::Io(http->Err_0),
        ),
        http is Ok && r is Err ==> r->Err_0 is NativeTls,
{
    match http {
        Ok(http) => https_connector_from(http, platform_tls()),
        Err(e) => Err(Error::from(e)),
    }
}

/// A TLS-capable connector from a plain connector and the outcome of
/// building the TLS context: the plain connector accepts `https` URIs and
/// the TLS layer goes over it; a failed context gives `Error::NativeTls`.
pub fn https_connector_from<R>(
    http: HttpConnector<R>,
    tls: Result<TlsConnector, NativeTlsError>,
) -> (r: Result<HttpsConnector<HttpConnector<R>>, Error>)
    ensures
        r is Ok <==> tls is Ok,
        tls is Err ==> r == Err::<HttpsConnector<HttpConnector<R>>, Error>(
            Error::NativeTls(tls->Err_0),
        ),
{
    match tls {
        Ok(tls) => {
            let mut http = http;
            accept_any_scheme(&mut http);
            Ok(tls_over(http, tls))
        },
        Err(e) => Err(Error::from(e)),
    }
}

} // verus!
