use hickory_resolver::config::{ResolverConfig, ResolverOpts};
use hyper::client::HttpConnector;
use hyper_hickory_dns::connector::http_connector_with;
use hyper_hickory_dns::https::{https_connector_from, https_connector_with, Error};
use hyper_hickory_dns::{new_async_http_connector, AsyncHyperResolver};
use std::io;

fn plain_connector() -> HttpConnector<AsyncHyperResolver> {
    let handle = AsyncHyperResolver::new(ResolverConfig::default(), ResolverOpts::default());
    http_connector_with::<AsyncHyperResolver>(handle).expect("the handle was built")
}

fn bad_certificate() -> native_tls::Error {
    native_tls::Certificate::from_pem(b"not a certificate")
        .err()
        .expect("the PEM is invalid")
}

#[test]
fn plain_connector_from_a_handle() {
    let handle = AsyncHyperResolver::new(ResolverConfig::default(), ResolverOpts::default());
    assert!(http_connector_with::<AsyncHyperResolver>(handle).is_ok());
}

#[test]
fn plain_connector_keeps_the_handle_failure() {
    let failed = Err(io::Error::new(io::ErrorKind::NotFound, "no resolv.conf"));
    let e = http_connector_with::<AsyncHyperResolver>(failed).expect_err("no handle");
    assert_eq!(e.kind(), io::ErrorKind::NotFound);
    assert_eq!(e.to_string(), "no resolv.conf");
}

#[test]
fn plain_connector_follows_the_system_configuration() {
    let handle = AsyncHyperResolver::new_from_system_conf();
    let connector = new_async_http_connector::<AsyncHyperResolver>();
    assert_eq!(handle.is_ok(), connector.is_ok());
}

#[test]
fn resolver_failure_gives_the_io_variant() {
    let failed: Result<HttpConnector<AsyncHyperResolver>, io::Error> =
        Err(io::Error::new(io::ErrorKind::Other, "no resolver"));
    match https_connector_with(failed) {
        Err(Error::Io(e)) => assert_eq!(e.to_string(), "no resolver"),
        Err(Error::NativeTls(_)) => panic!("the TLS context was not the failure"),
        Ok(_) => panic!("a failed resolver gives no connector"),
    }
}

#[test]
fn tls_failure_gives_the_tls_variant() {
    match https_connector_from(plain_connector(), Err(bad_certificate())) {
        Err(Error::NativeTls(_)) => {}
        Err(Error::Io(_)) => panic!("the resolver was not the failure"),
        Ok(_) => panic!("a failed TLS context gives no connector"),
    }
}

#[test]
fn built_tls_context_gives_a_connector() {
    let tls = native_tls::TlsConnector::new().expect("the platform builds a TLS context");
    assert!(https_connector_from(plain_connector(), Ok(tls)).is_ok());
}

#[test]
fn error_conversions_pick_the_variant() {
    assert!(matches!(
        Error::from(io::Error::new(io::ErrorKind::Other, "x")),
        Error::Io(_)
    ));
    assert!(matches!(Error::from(bad_certificate()), Error::NativeTls(_)));
}
