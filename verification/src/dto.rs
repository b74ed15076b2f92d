//! Plain data carriers: the process configuration and the query-parameter
//! sets of the two query-based routes. The surrounding HTTP and
//! configuration layers fill these in and hand them to the handlers.

use vstd::prelude::*;

verus! {

/// Connection settings for the backing database, read at process startup.
pub struct Configuration {
    pub db_host: String,
    pub db_port: u16,
    pub db_user: String,
    pub db_password: String,
    pub db_name: String,
}

/// Query parameters of the v3 route. The surrounding framework decodes
/// query-string values before they reach the handler.
pub struct StatsV3Query {
    /// item name
    pub n: Option<String>,
    /// item id
    pub i: Option<String>,
    /// user id
    pub u: Option<String>,
    /// session id
    pub s: Option<String>,
}

/// Query parameters of the v4 route. The surrounding framework decodes
/// query-string values before they reach the handler.
pub struct StatsV4Query {
    /// item name
    pub n: Option<String>,
    /// item id
    pub i: Option<String>,
    /// user id
    pub u: Option<String>,
    /// session id
    pub s: Option<String>,
    /// world url
    pub w: Option<String>,
    /// client version string
    pub v: Option<String>,
    /// client major version
    pub c1: Option<u16>,
    /// client minor version
    pub c2: Option<u16>,
}

} // verus!
