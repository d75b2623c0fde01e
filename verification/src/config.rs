//! What is configured from outside, and the values used where nothing is.

use vstd::prelude::*;
use crate::supervisor::DEFAULT_BACKOFF_SECS;
use crate::supervisor::DEFAULT_GRACE_SECS;

verus! {

/// The port that the gateway listens on where none is configured.
pub const DEFAULT_GATEWAY_PORT: u16 = 3000;

/// The port that a backend listens on where none is configured.
pub const DEFAULT_BACKEND_PORT: u16 = 50051;

/// The most requests in flight at once on one HTTP/2 connection.
pub const DEFAULT_MAX_CONCURRENT_STREAMS: u32 = 200;

/// The most header lines that a request may have.
pub const DEFAULT_MAX_HEADERS: usize = 100;

/// The time that a client has to send its header section, in seconds.
pub const DEFAULT_HEADER_READ_TIMEOUT_SECS: u64 = 30;

/// The configuration of a gateway.
#[derive(Clone, Debug, PartialEq, Eq)]
pub struct GatewayConfig {
    pub listen_port: u16,
    pub endpoints: Vec<String>,
    pub grace_secs: u64,
    pub backoff_secs: u64,
    pub max_concurrent_streams: u32,
    pub max_headers: usize,
    pub header_read_timeout_secs: u64,
}

impl GatewayConfig {
    /// The configuration used where nothing is configured: port 3000, one
    /// backend on the local host at port 50051, ten seconds of grace, one
    /// second of pause after a failed accept, 200 streams, 100 header lines,
    /// 30 seconds for the header section.
    pub fn standard() -> (config: GatewayConfig)
        ensures
            config.listen_port == 3000,
            config.endpoints.deep_view() == seq!["http://[::1]:50051"@],
            config.grace_secs == 10,
            config.backoff_secs == 1,
            config.max_concurrent_streams == 200,
            config.max_headers == 100,
            config.header_read_timeout_secs == 30,
    {
        let mut endpoints: Vec<String> = Vec::new();
        endpoints.push("http://[::1]:50051".to_owned());
        proof {
            assert(endpoints.deep_view() =~= seq!["http://[::1]:50051"@]);
        }
        GatewayConfig {
            listen_port: DEFAULT_GATEWAY_PORT,
            endpoints,
            grace_secs: DEFAULT_GRACE_SECS,
            backoff_secs: DEFAULT_BACKOFF_SECS,
            max_concurrent_streams: DEFAULT_MAX_CONCURRENT_STREAMS,
            max_headers: DEFAULT_MAX_HEADERS,
            header_read_timeout_secs: DEFAULT_HEADER_READ_TIMEOUT_SECS,
        }
    }
}

} // verus!
