//! Configuration snapshot for the bridge: the two downstream service URLs and
//! the bind host and port of the connection server, with the derivation of
//! plain `host:port` addresses from service URLs.

use vstd::prelude::*;
use vstd::string::*;
use crate::strutil::{
    starts_with, find_from, contains_char, starts_with_str, find_char_from, lemma_find_from,
    lemma_find_from_at, lemma_not_contains, lemma_contains_forall,
};

verus! {

/// Immutable snapshot of the four addresses the bridge is configured with.
#[derive(Clone, Debug)]
pub struct Config {
    /// Base URL of the compute service.
    pub core_url: String,
    /// Base URL of the render service.
    pub plotter_url: String,
    /// Host the connection server binds to.
    pub ws_host: String,
    /// Port the connection server binds to, kept as text for interpolation.
    pub ws_port: String,
}

/// The override if one was given, the default otherwise.
pub open spec fn override_or(o: Option<String>, d: Seq<char>) -> Seq<char> {
    match o {
        Some(s) => s@,
        None => d,
    }
}

/// `url` with one leading `http://` or `https://` scheme removed.
pub open spec fn strip_scheme(s: Seq<char>) -> Seq<char> {
    if starts_with(s, "http://"@) {
        s.subrange(7, s.len() as int)
    } else if starts_with(s, "https://"@) {
        s.subrange(8, s.len() as int)
    } else {
        s
    }
}

/// The part of `s` before its first path separator.
pub open spec fn first_segment(s: Seq<char>) -> Seq<char> {
    s.subrange(0, find_from(s, '/', 0))
}

/// The `host:port` form derived from a URL: scheme stripped, first segment
/// taken, and `:default_port` appended when the segment has no port of its
/// own.
pub open spec fn spec_host_port(url: Seq<char>, default_port: Seq<char>) -> Seq<char> {
    let seg = first_segment(strip_scheme(url));
    if contains_char(seg, ':') {
        seg
    } else {
        seg + seq![':'] + default_port
    }
}

/// The `ws://host:port` address of the connection server.
pub open spec fn spec_ws_address(host: Seq<char>, port: Seq<char>) -> Seq<char> {
    "ws://"@ + host + seq![':'] + port
}

impl Config {
    /// Builds the snapshot from optional overrides, substituting the fixed
    /// defaults where an override is absent.
    pub fn from_overrides(
        core_url: Option<String>,
        plotter_url: Option<String>,
        ws_host: Option<String>,
        ws_port: Option<String>,
    ) -> (c: Config)
        ensures
            c.core_url@ == override_or(core_url, "http://127.0.0.1:5000"@),
            c.plotter_url@ == override_or(plotter_url, "http://127.0.0.1:5001"@),
            c.ws_host@ == override_or(ws_host, "127.0.0.1"@),
            c.ws_port@ == override_or(ws_port, "9191"@),
    {
        let core_url = match core_url {
            Some(s) => s,
            None => "http://127.0.0.1:5000".to_owned(),
        };
        let plotter_url = match plotter_url {
            Some(s) => s,
            None => "http://127.0.0.1:5001".to_owned(),
        };
        let ws_host = match ws_host {
            Some(s) => s,
            None => "127.0.0.1".to_owned(),
        };
        let ws_port = match ws_port {
            Some(s) => s,
            None => "9191".to_owned(),
        };
        Config { core_url, plotter_url, ws_host, ws_port }
    }

    /// The full address of the connection server, as `ws://host:port`.
    pub fn ws_address(&self) -> (r: String)
        ensures
            r@ == spec_ws_address(self.ws_host@, self.ws_port@),
    {
        let mut out = "ws://".to_owned();
        out.append(self.ws_host.as_str());
        out.append(":");
        out.append(self.ws_port.as_str());
        proof {
            reveal_strlit(":");
            assert(out@ =~= spec_ws_address(self.ws_host@, self.ws_port@));
        }
        out
    }

    /// Derives `host:port` from a URL: strips a leading scheme, keeps the
    /// segment before the first path separator, and appends the default port
    /// when the segment carries none. Malformed input is never rejected: the
    /// worst case is the segment unchanged plus the default port.
    pub fn host_port_from_url(url: &str, default_port: &str) -> (r: String)
        ensures
            r@ == spec_host_port(url@, default_port@),
    {
        proof {
            reveal_strlit("http://");
            reveal_strlit("https://");
            reveal_strlit(":");
        }
        let trimmed: &str = if starts_with_str(url, "http://") {
            url.substring_char(7, url.unicode_len())
        } else if starts_with_str(url, "https://") {
            url.substring_char(8, url.unicode_len())
        } else {
            url
        };
        proof {
            assert(trimmed@ == strip_scheme(url@));
        }
        let slash = find_char_from(trimmed, '/', 0);
        proof {
            lemma_find_from(trimmed@, '/', 0);
        }
        let seg: &str = trimmed.substring_char(0, slash);
        proof {
            assert(seg@ == first_segment(strip_scheme(url@)));
        }
        let colon = find_char_from(seg, ':', 0);
        proof {
            lemma_find_from(seg@, ':', 0);
        }
        if colon < seg.unicode_len() {
            seg.to_owned()
        } else {
            let mut out = seg.to_owned();
            out.append(":");
            out.append(default_port);
            proof {
                assert(out@ =~= seg@ + seq![':'] + default_port@);
            }
            out
        }
    }

    /// The compute service's `host:port`, derived from its URL with the
    /// service's default port.
    pub fn core_addr(&self) -> (r: String)
        ensures
            r@ == spec_host_port(self.core_url@, "5000"@),
    {
        Config::host_port_from_url(self.core_url.as_str(), "5000")
    }

    /// The render service's `host:port`, derived from its URL with the
    /// service's default port.
    pub fn plotter_addr(&self) -> (r: String)
        ensures
            r@ == spec_host_port(self.plotter_url@, "5001"@),
    {
        Config::host_port_from_url(self.plotter_url.as_str(), "5001")
    }
}

/// Stripping the scheme from `scheme + tail` yields exactly `tail`.
pub proof fn lemma_strip_scheme_concat(scheme: Seq<char>, tail: Seq<char>)
    requires
        scheme == "http://"@ || scheme == "https://"@,
    ensures
        strip_scheme(scheme + tail) == tail,
{
    reveal_strlit("http://");
    reveal_strlit("https://");
    let url = scheme + tail;
    if scheme == "http://"@ {
        assert(url.subrange(0, 7) =~= scheme);
        assert(starts_with(url, "http://"@));
        assert(url.subrange(7, url.len() as int) =~= tail);
    } else {
        assert(url[4] == 's');
        assert(!starts_with(url, "http://"@)) by {
            if starts_with(url, "http://"@) {
                assert(url.subrange(0, 7)[4] == "http://"@[4]);
            }
        }
        assert(url.subrange(0, 8) =~= scheme);
        assert(starts_with(url, "https://"@));
        assert(url.subrange(8, url.len() as int) =~= tail);
    }
}

/// The first segment of `pre + rest` is `pre` itself when `pre` holds no
/// path separator and `rest` is empty or begins with one.
pub proof fn lemma_first_segment_concat(pre: Seq<char>, rest: Seq<char>)
    requires
        !contains_char(pre, '/'),
        rest.len() == 0 || rest[0] == '/',
    ensures
        first_segment(pre + rest) == pre,
{
    let t = pre + rest;
    lemma_contains_forall(pre, '/');
    assert(forall|k: int| 0 <= k < pre.len() ==> t[k] == pre[k]);
    if rest.len() == 0 {
        lemma_find_from(t, '/', 0);
        assert(find_from(t, '/', 0) == t.len());
        assert(t.subrange(0, t.len() as int) =~= pre);
    } else {
        assert(t[pre.len() as int] == '/');
        lemma_find_from_at(t, '/', 0, pre.len() as int);
        assert(t.subrange(0, pre.len() as int) =~= pre);
    }
}

/// A URL whose authority carries an explicit port derives to exactly that
/// `host:port`, whatever default is supplied.
pub proof fn lemma_derive_address_explicit_port(
    scheme: Seq<char>,
    host: Seq<char>,
    port: Seq<char>,
    rest: Seq<char>,
    dp: Seq<char>,
)
    requires
        scheme == "http://"@ || scheme == "https://"@,
        !contains_char(host, ':'),
        !contains_char(host, '/'),
        !contains_char(port, '/'),
        rest.len() == 0 || rest[0] == '/',
    ensures
        spec_host_port(scheme + (host + seq![':'] + port) + rest, dp) == host + seq![':'] + port,
{
    let pre = host + seq![':'] + port;
    let url = scheme + pre + rest;
    lemma_strip_scheme_concat(scheme, pre + rest);
    assert(scheme + pre + rest =~= scheme + (pre + rest));
    lemma_contains_forall(host, '/');
    lemma_contains_forall(port, '/');
    assert(forall|k: int| 0 <= k < pre.len() ==> pre[k] != '/') by {
        assert(forall|k: int| 0 <= k < host.len() ==> pre[k] == host[k]);
        assert(pre[host.len() as int] == ':');
        assert(forall|k: int|
            host.len() + 1 <= k < pre.len() ==> pre[k] == port[k - host.len() - 1]);
    }
    lemma_not_contains(pre, '/');
    lemma_first_segment_concat(pre, rest);
    assert(pre[host.len() as int] == ':');
    lemma_find_from(pre, ':', 0);
    assert(contains_char(pre, ':'));
    assert(spec_host_port(url, dp) == pre);
}

/// A URL whose authority carries no port derives to `host` with the supplied
/// default port appended.
pub proof fn lemma_derive_address_default_port(
    scheme: Seq<char>,
    host: Seq<char>,
    rest: Seq<char>,
    dp: Seq<char>,
)
    requires
        scheme == "http://"@ || scheme == "https://"@,
        !contains_char(host, ':'),
        !contains_char(host, '/'),
        rest.len() == 0 || rest[0] == '/',
    ensures
        spec_host_port(scheme + host + rest, dp) == host + seq![':'] + dp,
{
    let url = scheme + host + rest;
    lemma_strip_scheme_concat(scheme, host + rest);
    assert(scheme + host + rest =~= scheme + (host + rest));
    lemma_first_segment_concat(host, rest);
    assert(spec_host_port(url, dp) == host + seq![':'] + dp);
}

} // verus!
