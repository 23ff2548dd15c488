//! Registry hosts, held as plain values, and the URL parsing that finds them.

use vstd::prelude::*;

verus! {

/// The value of a `Host`.
pub enum HostView {
    Domain(Seq<char>),
    Ipv4(u32),
    Ipv6(u128),
}

/// The host of a URL: a domain name or an IP address (the address's bits,
/// most significant first).
#[derive(Debug, Clone, PartialEq, Eq)]
pub enum Host {
    Domain(String),
    Ipv4(u32),
    Ipv6(u128),
}

impl View for Host {
    type V = HostView;

    open spec fn view(&self) -> HostView {
        match self {
            Host::Domain(d) => HostView::Domain(d@),
            Host::Ipv4(a) => HostView::Ipv4(*a),
            Host::Ipv6(a) => HostView::Ipv6(*a),
        }
    }
}

/// The value of an optional host.
pub open spec fn opt_host_view(h: Option<Host>) -> Option<HostView> {
    match h {
        Some(x) => Some(x@),
        None => None,
    }
}

/// The host that the url crate finds in a URL text: `None` where the text
/// does not parse as a URL or the URL has no host.
pub uninterp spec fn url_host(url: Seq<char>) -> Option<HostView>;

/// Calls `url::Url::parse` on the text and takes `host()` of the result,
/// converting it to a `Host`. Claims that the result is what `url_host`
/// names for the text.
#[verifier::external_body]
pub(crate) fn host_of_url(url: &str) -> (r: Option<Host>)
    ensures
        opt_host_view(r) == url_host(url@),
{
    match url::Url::parse(url) {
        Ok(u) => match u.host() {
            Some(url::Host::Domain(d)) => Some(Host::Domain(d.to_string())),
            Some(url::Host::Ipv4(a)) => Some(Host::Ipv4(u32::from(a))),
            Some(url::Host::Ipv6(a)) => Some(Host::Ipv6(u128::from(a))),
            None => None,
        },
        Err(_) => None,
    }
}

} // verus!
