//! Parsed URLs, through the `url` crate, and the video id that a platform link names.

use vstd::prelude::*;
use crate::text::{starts_with, ends_with, str_eq, str_starts_with, str_ends_with};

verus! {

/// The `url` crate's parsed URL, carried as an opaque value.
#[verifier::external_type_specification]
#[verifier::external_body]
pub struct ExUrl(url::Url);

/// Whether `url::Url::parse` accepts the text.
pub uninterp spec fn url_is_valid(s: Seq<char>) -> bool;

/// What `url::Url::domain` returns for the URL parsed from the text.
pub uninterp spec fn url_domain_of(s: Seq<char>) -> Option<Seq<char>>;

/// What `url::Url::path_segments` yields for the URL parsed from the text.
pub uninterp spec fn url_segments_of(s: Seq<char>) -> Option<Seq<Seq<char>>>;

/// Relies on `url::Url::parse`: it succeeds or fails depending on the text alone.
#[verifier::external_body]
fn parse_url(s: &str) -> (r: Option<url::Url>)
    ensures
        r.is_some() == url_is_valid(s@),
{
    url::Url::parse(s).ok()
}

/// A URL together with the text it was parsed from.
pub struct ParsedUrl {
    url: url::Url,
    source: Ghost<Seq<char>>,
}

impl ParsedUrl {
    pub closed spec fn source(&self) -> Seq<char> {
        self.source@
    }

    pub fn parse(s: &str) -> (r: Option<ParsedUrl>)
        ensures
            r.is_some() == url_is_valid(s@),
            r matches Some(p) ==> p.source() == s@,
    {
        match parse_url(s) {
            Some(url) => Some(ParsedUrl { url, source: Ghost(s@) }),
            None => None,
        }
    }

    /// Relies on `url::Url::domain`: the host of the URL when it is a domain name.
    #[verifier::external_body]
    pub fn domain(&self) -> (r: Option<String>)
        ensures
            match r {
                Some(d) => url_domain_of(self.source()) == Some(d@),
                None => url_domain_of(self.source()).is_none(),
            },
    {
        self.url.domain().map(|d| d.to_string())
    }

    /// Relies on `url::Url::path_segments`: the path split at `/`, when the URL has a path.
    #[verifier::external_body]
    pub fn path_segments(&self) -> (r: Option<Vec<String>>)
        ensures
            match r {
                Some(v) => url_segments_of(self.source()) == Some(v@.map_values(|x: String| x@)),
                None => url_segments_of(self.source()).is_none(),
            },
    {
        self.url.path_segments().map(|it| it.map(|x| x.to_string()).collect())
    }
}

/// The domain of the video platform.
pub open spec fn platform_domain() -> Seq<char> {
    "bilibili.com"@
}

/// Whether a host is the platform's domain or one of its subdomains.
pub open spec fn on_platform(d: Seq<char>) -> bool {
    d == platform_domain() || ends_with(d, ".bilibili.com"@)
}

/// The prefix that every platform video id begins with.
pub open spec fn id_prefix() -> Seq<char> {
    "BV"@
}

/// The first segment that begins with the id prefix, from index `i` on.
pub open spec fn first_id_segment(segs: Seq<Seq<char>>, i: int) -> Option<Seq<char>>
    decreases segs.len() - i,
{
    if i < 0 || i >= segs.len() {
        None
    } else if starts_with(segs[i], id_prefix()) {
        Some(segs[i])
    } else {
        first_id_segment(segs, i + 1)
    }
}

/// The video id that a URL with this domain and these path segments names.
pub open spec fn id_in_url(domain: Option<Seq<char>>, segs: Option<Seq<Seq<char>>>) -> Option<
    Seq<char>,
> {
    match domain {
        Some(d) => if on_platform(d) {
            match segs {
                Some(ss) => first_id_segment(ss, 0),
                None => None,
            }
        } else {
            None
        },
        None => None,
    }
}

/// The video id that the text names: the text itself when it is an id, else
/// the id in the path of a platform URL.
pub open spec fn resolve_id(s: Seq<char>) -> Option<Seq<char>> {
    if starts_with(s, id_prefix()) {
        Some(s)
    } else if url_is_valid(s) {
        id_in_url(url_domain_of(s), url_segments_of(s))
    } else {
        None
    }
}

pub open spec fn domain_view(domain: Option<&str>) -> Option<Seq<char>> {
    match domain {
        Some(d) => Some(d@),
        None => None,
    }
}

pub open spec fn segments_view(segments: Option<&Vec<String>>) -> Option<Seq<Seq<char>>> {
    match segments {
        Some(v) => Some(v@.map_values(|w: String| w@)),
        None => None,
    }
}

/// The video id named by a URL with the given domain and path segments.
pub fn bvid_in_url(domain: Option<&str>, segments: Option<&Vec<String>>) -> (r: Option<String>)
    ensures
        match r {
            Some(x) => id_in_url(domain_view(domain), segments_view(segments)) == Some(x@),
            None => id_in_url(domain_view(domain), segments_view(segments)).is_none(),
        },
{
    let d = match domain {
        Some(d) => d,
        None => return None,
    };
    if !(str_eq(d, "bilibili.com") || str_ends_with(d, ".bilibili.com")) {
        return None;
    }
    let segs = match segments {
        Some(v) => v,
        None => return None,
    };
    let ghost ss = segs@.map_values(|w: String| w@);
    assert(segments_view(segments) == Some(ss));
    let mut i: usize = 0;
    while i < segs.len()
        invariant
            ss == segs@.map_values(|w: String| w@),
            segments_view(segments) == Some(ss),
            domain_view(domain) == Some(d@),
            on_platform(d@),
            i <= segs@.len(),
            first_id_segment(ss, 0) == first_id_segment(ss, i as int),
        decreases segs@.len() - i,
    {
        if str_starts_with(segs[i].as_str(), "BV") {
            assert(ss.len() == segs@.len());
            assert(ss[i as int] == segs@[i as int]@);
            assert(first_id_segment(ss, i as int) == Some(ss[i as int]));
            return Some(segs[i].clone());
        }
        i = i + 1;
    }
    None
}

/// Resolves the video id that the text names (see `resolve_id`).
pub fn extract_bvid(input: &str) -> (r: Option<String>)
    ensures
        match r {
            Some(x) => resolve_id(input@) == Some(x@),
            None => resolve_id(input@).is_none(),
        },
{
    if str_starts_with(input, "BV") {
        return Some(String::from_str(input));
    }
    match ParsedUrl::parse(input) {
        Some(url) => {
            let d = url.domain();
            let segs = url.path_segments();
            match d {
                Some(ds) => match segs {
                    Some(v) => bvid_in_url(Some(ds.as_str()), Some(&v)),
                    None => bvid_in_url(Some(ds.as_str()), None),
                },
                None => None,
            }
        }
        None => None,
    }
}

} // verus!
