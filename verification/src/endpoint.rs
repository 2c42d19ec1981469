//! Where the proving service is reached: the host that its location names,
//! and the socket address that a client resolves once and then keeps.

use vstd::prelude::*;
use vstd::string::{StrSliceExecFns, StringExecFns};

verus! {

/// The scheme separator `://` stands at index `i` of `url`.
pub open spec fn separator_at(url: Seq<char>, i: int) -> bool {
    &&& 0 <= i
    &&& i + 3 <= url.len()
    &&& url[i] == ':'
    &&& url[i + 1] == '/'
    &&& url[i + 2] == '/'
}

/// A separator stands at `i`, and none stands further right.
pub open spec fn is_last_separator(url: Seq<char>, i: int) -> bool {
    separator_at(url, i) && forall|j: int| separator_at(url, j) ==> j <= i
}

/// The index at which the host begins: right after the last separator, or at
/// the start where there is none.
pub open spec fn spec_host_start(url: Seq<char>) -> int {
    if exists|i: int| is_last_separator(url, i) {
        (choose|i: int| is_last_separator(url, i)) + 3
    } else {
        0
    }
}

/// The host that a service location names: all that follows its last `://`,
/// and the whole location where it holds none.
pub open spec fn spec_service_host(url: Seq<char>) -> Seq<char> {
    url.subrange(spec_host_start(url), url.len() as int)
}

/// The socket address of the service on `host`: the host, a colon, and the
/// port of HTTPS.
pub open spec fn spec_socket_address(host: Seq<char>) -> Seq<char> {
    host + seq![':', '4', '4', '3']
}

/// Finds the host that the service location `url` names.
pub fn service_host(url: &str) -> (host: &str)
    ensures
        host@ == spec_service_host(url@),
{
    let n: usize = url.unicode_len();
    if n >= 3 {
        let mut i: usize = n - 3;
        loop
            invariant
                n == url@.len(),
                i + 3 <= n,
                forall|j: int| i < j ==> !separator_at(url@, j),
            ensures
                forall|j: int| !separator_at(url@, j),
            decreases i,
        {
            if url.get_char(i) == ':' && url.get_char(i + 1) == '/' && url.get_char(i + 2) == '/' {
                assert(is_last_separator(url@, i as int));
                return url.substring_char(i + 3, n);
            }
            if i == 0 {
                break ;
            }
            i = i - 1;
        }
    }
    url
}

/// Writes the socket address of the service on `host`.
pub fn socket_address(host: &str) -> (address: String)
    ensures
        address@ == spec_socket_address(host@),
{
    let address = String::from_str(host).concat(":443");
    proof {
        reveal_strlit(":443");
    }
    address
}

} // verus!
