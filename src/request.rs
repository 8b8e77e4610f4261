use vstd::prelude::*;
use crate::url::Url;

verus! {

/// The HTTP/1.1 GET request for a URL: the request line with the path as it
/// stands, a `Host` header with the host alone, `Connection: close`, and one
/// blank line.
pub open spec fn request_text(path: Seq<char>, host: Seq<char>) -> Seq<char> {
    "GET "@ + path + " HTTP/1.1\r\n"@ + "Host: "@ + host + "\r\n"@ + "Connection: close\r\n"@
        + "\r\n"@
}

/// The bytes of the GET request for `url`, as text.
pub fn get_request(url: &Url) -> (r: String)
    ensures
        r@ == request_text(url@.path, url@.host),
{
    let mut r = String::from_str("GET ");
    r.append(url.path());
    r.append(" HTTP/1.1\r\n");
    r.append("Host: ");
    r.append(url.host());
    r.append("\r\n");
    r.append("Connection: close\r\n");
    r.append("\r\n");
    r
}

} // verus!
