//! How a device announces itself on the local network.

use vstd::prelude::*;
use vstd::string::StringExecFns;

verus! {

/// The service type under which devices announce and look for each other.
pub const SERVICE_TYPE: &'static str = "_flymouse._tcp.local.";

/// The host name that a machine called `hostname` announces.
pub open spec fn local_host(hostname: Seq<char>) -> Seq<char> {
    hostname + ".local."@
}

/// The host name that a machine called `hostname` announces: its name in
/// the local domain.
pub fn service_host(hostname: &str) -> (host: String)
    ensures
        host@ == local_host(hostname@),
{
    String::from_str(hostname).concat(".local.")
}

} // verus!
