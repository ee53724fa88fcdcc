use vstd::prelude::*;
use vstd::string::*;

verus! {

/// The host whose resolution and answer the startup probe checks.
pub const PROBE_HOST: &'static str = "httpbin.org";

/// The scheme that the probe resolves and requests with.
pub const PROBE_SCHEME: &'static str = "http";

/// Where the probe goes when `PROBE_HOST` does not resolve.
pub open spec fn fallback_address() -> Seq<char> {
    "34.203.186.29:80"@
}

/// The address the probe requests: the first one resolved, or the fallback
/// where resolution failed or gave nothing.
pub open spec fn probe_address(resolved: Option<Seq<Seq<char>>>) -> Seq<char> {
    match resolved {
        Some(addrs) => if addrs.len() > 0 {
            addrs[0]
        } else {
            fallback_address()
        },
        None => fallback_address(),
    }
}

/// The URL of the probe's request, from the addresses that resolving
/// `PROBE_HOST` gave (`None` where it failed), each as `ip:port` text.
pub fn probe_url(resolved: Option<&Vec<String>>) -> (r: String)
    ensures
        r@ == "http://"@ + probe_address(
            match resolved {
                Some(v) => Some(v@.map_values(|a: String| a@)),
                None => None,
            },
        ),
{
    let mut url = String::from_str("http://");
    match resolved {
        Some(addrs) if addrs.len() > 0 => {
            url.append(addrs[0].as_str());
        },
        _ => {
            url.append("34.203.186.29:80");
        },
    }
    url
}

} // verus!
