//! Reverse-proxy viewer routes.
//!
//! A proxy handler fetches one upstream URL and shows the whole exchange.
//! The outbound fetch is transport work performed outside the core; what is
//! verified here is the `pre` block the viewer page is built around, from
//! the fetched response's parts.

use vstd::prelude::*;

verus! {

/// The `pre` block of the proxy page: the current time, the request made,
/// and the upstream response's status line, headers and body.
pub open spec fn spec_proxy_pre_string(
    now_string: Seq<char>,
    url: Seq<char>,
    version: Seq<char>,
    status: Seq<char>,
    headers: Seq<char>,
    body: Seq<char>,
) -> Seq<char> {
    "Now: "@ + now_string + "\n\nGET "@ + url + "\n\nResponse Status: "@ + version + " "@ + status
        + "\n\nResponse Headers: "@ + headers + "\n\n"@ + body
}

/// Builds the proxy page's `pre` block from the fetched response's parts.
pub fn build_pre_string(
    now_string: &String,
    url: &String,
    version: &String,
    status: &String,
    headers: &String,
    body: &String,
) -> (r: String)
    ensures
        r@ == spec_proxy_pre_string(now_string@, url@, version@, status@, headers@, body@),
{
    let mut pre_string = "Now: ".to_owned();
    pre_string.append(now_string.as_str());
    pre_string.append("\n\nGET ");
    pre_string.append(url.as_str());
    pre_string.append("\n\nResponse Status: ");
    pre_string.append(version.as_str());
    pre_string.append(" ");
    pre_string.append(status.as_str());
    pre_string.append("\n\nResponse Headers: ");
    pre_string.append(headers.as_str());
    pre_string.append("\n\n");
    pre_string.append(body.as_str());
    proof {
        assert(pre_string@ =~= spec_proxy_pre_string(
            now_string@,
            url@,
            version@,
            status@,
            headers@,
            body@,
        ));
    }
    pre_string
}

} // verus!
