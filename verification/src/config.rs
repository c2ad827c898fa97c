//! The relay's fixed configuration: one port, one local path, one
//! upstream resource. Nothing is read from the environment; these are
//! the values, as named constants.

use vstd::prelude::*;

verus! {

/// The TCP port the listener binds on every local interface.
pub const LOCAL_PORT: u16 = 8000;

/// The one local path the relay serves.
pub fn relay_path() -> (r: &'static str)
    ensures
        r@ == "/dhmz"@,
{
    "/dhmz"
}

/// The one upstream resource every relayed request fetches.
pub fn upstream_url() -> (r: &'static str)
    ensures
        r@ == "https://vrijeme.hr/hrvatska1_n.xml"@,
{
    "https://vrijeme.hr/hrvatska1_n.xml"
}

} // verus!
