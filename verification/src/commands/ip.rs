use vstd::prelude::*;
use vstd::string::*;

verus! {

/// The answer to the `ip` command for a given public address.
pub open spec fn ip_message_text(ip: Seq<char>) -> Seq<char> {
    "The current server ip is "@ + ip
}

/// Reports the host's public address, as the lookup collaborator
/// handed it over (a literal `unknown` when the lookup failed).
pub fn run(ip: &str) -> (r: String)
    ensures
        r@ == ip_message_text(ip@),
{
    String::from_str("The current server ip is ").concat(ip)
}

} // verus!
