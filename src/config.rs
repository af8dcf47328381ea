//! Connection settings of a client.

use vstd::prelude::*;

verus! {

#[derive(Default, Clone)]
pub struct Config {
    /// Url of the source hypersync instance
    pub url: String,
    /// Optional bearer_token to put into http requests made to source hypersync instance
    pub bearer_token: Option<String>,
    /// Timout treshold for a single http request in milliseconds, default is 30 seconds (30_000ms)
    pub http_req_timeout_millis: Option<i64>,
}

} // verus!
