//! The agent's startup configuration and the endpoints it dials: one request
//! URL per registry operation and one duplex URL for the streaming session.

use vstd::prelude::*;

verus! {

/// The agent's startup configuration. The identifier under which the agent
/// registers is `hostname`; it defaults to the machine's host name when left
/// empty, which the caller resolves before use.
#[derive(Clone, Debug)]
pub struct Args {
    pub domain: String,
    pub port: String,
    pub hostname: String,
    pub passphrase: String,
    pub url: String,
    pub ssl_enabled: bool,
}

/// The request scheme: secure when SSL is enabled.
pub open spec fn http_scheme(ssl_enabled: bool) -> Seq<char> {
    if ssl_enabled {
        "https://"@
    } else {
        "http://"@
    }
}

/// The streaming scheme: secure when SSL is enabled.
pub open spec fn ws_scheme(ssl_enabled: bool) -> Seq<char> {
    if ssl_enabled {
        "wss://"@
    } else {
        "ws://"@
    }
}

/// The request scheme as a string.
pub fn get_http_str(ssl_enabled: bool) -> (r: String)
    ensures
        r@ == http_scheme(ssl_enabled),
{
    if ssl_enabled {
        String::from_str("https://")
    } else {
        String::from_str("http://")
    }
}

/// The streaming scheme as a string.
pub fn get_ws_str(ssl_enabled: bool) -> (r: String)
    ensures
        r@ == ws_scheme(ssl_enabled),
{
    if ssl_enabled {
        String::from_str("wss://")
    } else {
        String::from_str("ws://")
    }
}

/// Completes the configuration's base URL: the scheme chosen by
/// `ssl_enabled`, then whatever was supplied, then the domain. The other
/// fields stay as they are.
pub fn sanitize_input(opt: &mut Args)
    ensures
        final(opt).url@ == http_scheme(old(opt).ssl_enabled) + old(opt).url@ + old(opt).domain@,
        final(opt).domain == old(opt).domain,
        final(opt).port == old(opt).port,
        final(opt).hostname == old(opt).hostname,
        final(opt).passphrase == old(opt).passphrase,
        final(opt).ssl_enabled == old(opt).ssl_enabled,
{
    let mut u = get_http_str(opt.ssl_enabled);
    u.append(opt.url.as_str());
    u.append(opt.domain.as_str());
    opt.url = u;
}

/// The request URL of one registry operation: the base URL, the port, the
/// operation's path, and the agent's identifier.
pub fn build_url(opt: &Args, url_path: &String) -> (r: String)
    ensures
        r@ == opt.url@ + ":"@ + opt.port@ + url_path@ + opt.hostname@,
{
    let mut url_string = opt.url.clone();
    url_string.append(":");
    url_string.append(opt.port.as_str());
    url_string.append(url_path.as_str());
    url_string.append(opt.hostname.as_str());
    url_string
}

/// The URL of the streaming session for this agent's identifier.
pub fn build_ws_str(opt: &Args) -> (r: String)
    ensures
        r@ == ws_scheme(opt.ssl_enabled) + opt.domain@ + ":"@ + opt.port@
            + "/api/clipboard_websocket/"@ + opt.hostname@,
{
    let mut ws_str = get_ws_str(opt.ssl_enabled);
    ws_str.append(opt.domain.as_str());
    ws_str.append(":");
    ws_str.append(opt.port.as_str());
    ws_str.append("/api/clipboard_websocket/");
    ws_str.append(opt.hostname.as_str());
    ws_str
}

} // verus!
