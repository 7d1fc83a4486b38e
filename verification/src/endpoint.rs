//! The older one-directional daemon's configuration: it posts every
//! clipboard change over a plain request, so all it needs is a normalized
//! endpoint.

use vstd::prelude::*;

verus! {

/// The older daemon's startup configuration.
#[derive(Clone, Debug)]
pub struct Args {
    pub url: String,
    pub port: String,
    pub kill: bool,
    pub hostname: String,
}

/// Whether `prefix` is a prefix of `s`.
pub open spec fn starts_with(s: Seq<char>, prefix: Seq<char>) -> bool {
    prefix.len() <= s.len() && s.subrange(0, prefix.len() as int) == prefix
}

/// The URL after normalization: a scheme is put in front unless one is
/// already there, and one trailing colon is dropped.
pub open spec fn sanitized_url(u: Seq<char>) -> Seq<char> {
    let w = if starts_with(u, "http://"@) || starts_with(u, "https://"@) {
        u
    } else {
        "http://"@ + u
    };
    if w.len() > 0 && w[w.len() - 1] == ':' {
        w.drop_last()
    } else {
        w
    }
}

/// The port after normalization: one leading colon is dropped.
pub open spec fn sanitized_port(p: Seq<char>) -> Seq<char> {
    if p.len() > 0 && p[0] == ':' {
        p.drop_first()
    } else {
        p
    }
}

/// Whether `prefix` is a prefix of `s`.
pub fn str_starts_with(s: &str, prefix: &str) -> (r: bool)
    ensures
        r == starts_with(s@, prefix@),
{
    let n = prefix.unicode_len();
    let m = s.unicode_len();
    if n > m {
        return false;
    }
    let mut i: usize = 0;
    while i < n
        invariant
            i <= n,
            n == prefix@.len(),
            n <= m,
            m == s@.len(),
            forall|j: int| 0 <= j < i ==> s@[j] == prefix@[j],
        decreases n - i,
    {
        if s.get_char(i) != prefix.get_char(i) {
            proof {
                if starts_with(s@, prefix@) {
                    assert(s@.subrange(0, n as int)[i as int] == prefix@[i as int]);
                }
            }
            return false;
        }
        i = i + 1;
    }
    proof {
        assert(s@.subrange(0, n as int) =~= prefix@);
    }
    true
}

/// Normalizes the endpoint in place: the URL gets a scheme unless one is
/// already there and loses one trailing colon; the port loses one leading
/// colon. The other fields stay as they are.
pub fn sanitize_input(opt: &mut Args)
    ensures
        final(opt).url@ == sanitized_url(old(opt).url@),
        final(opt).port@ == sanitized_port(old(opt).port@),
        final(opt).kill == old(opt).kill,
        final(opt).hostname == old(opt).hostname,
{
    if !str_starts_with(opt.url.as_str(), "http://") && !str_starts_with(
        opt.url.as_str(),
        "https://",
    ) {
        let mut u = String::from_str("http://");
        u.append(opt.url.as_str());
        opt.url = u;
    }
    let n = opt.url.as_str().unicode_len();
    if n > 0 && opt.url.as_str().get_char(n - 1) == ':' {
        let trimmed = opt.url.as_str().substring_char(0, n - 1).to_owned();
        proof {
            assert(opt.url@.subrange(0, n as int - 1) =~= opt.url@.drop_last());
        }
        opt.url = trimmed;
    }
    let m = opt.port.as_str().unicode_len();
    if m > 0 && opt.port.as_str().get_char(0) == ':' {
        let shifted = opt.port.as_str().substring_char(1, m).to_owned();
        proof {
            assert(opt.port@.subrange(1, m as int) =~= opt.port@.drop_first());
        }
        opt.port = shifted;
    }
}

/// The endpoint one request of the older daemon posts to: the base URL, the
/// port, the operation's path, and the daemon's identifier.
pub fn request_url(opt: &Args, url_path: &str) -> (r: String)
    ensures
        r@ == opt.url@ + ":"@ + opt.port@ + url_path@ + opt.hostname@,
{
    let mut url_string = opt.url.clone();
    url_string.append(":");
    url_string.append(opt.port.as_str());
    url_string.append(url_path);
    url_string.append(opt.hostname.as_str());
    url_string
}

} // verus!
