//! Resolution of host names for hyper's HTTP connector through hickory's
//! asynchronous resolver, with the reshaping of its answers proved.
pub mod endpoint;
pub mod resolver;
pub mod connector;
pub mod https;

pub use connector::new_async_http_connector;
pub use endpoint::{endpoints_from_addresses, Endpoint, IpAddress, UNBOUND_PORT};
pub use resolver::{endpoints_from_lookup, AsyncHyperResolver};
