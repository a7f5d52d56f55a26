use vstd::prelude::*;
use vstd::string::*;

verus! {

/// The directory that holds the mailbox sockets.
pub const SOCK_DIR: &'static str = "/run/iml/";

/// The socket path of a mailbox: the socket directory, then
/// `/postman-<mailbox>.sock`.
pub open spec fn socket_path(mailbox: Seq<char>) -> Seq<char> {
    "/run/iml/"@ + "/postman-"@ + mailbox + ".sock"@
}

/// Returns the socket address for a given mailbox.
pub fn socket_name(mailbox: &str) -> (r: String)
    ensures
        r@ == socket_path(mailbox@),
{
    let mut s = String::from_str(SOCK_DIR);
    s.append("/postman-");
    s.append(mailbox);
    s.append(".sock");
    s
}

} // verus!
