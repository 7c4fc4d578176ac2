//! Records of the remote search and video-info service, and the pure parts of
//! talking to it: request URLs, title clean-up, filtering and failure text.

use vstd::prelude::*;
use crate::text::{remove_all, remove_occurrences, str_eq};

verus! {

/// Details of one video.
#[derive(Clone, Debug, PartialEq, Eq)]
pub struct VideoInfo {
    pub bvid: String,
    pub title: String,
    pub desc: String,
    pub owner: Owner,
    pub stat: Stat,
}

/// The uploader of a video.
#[derive(Clone, Debug, PartialEq, Eq)]
pub struct Owner {
    pub name: String,
}

/// The counters of a video.
#[derive(Clone, Copy, Debug, PartialEq, Eq)]
pub struct Stat {
    pub view: u64,
    pub like: u64,
    pub coin: u64,
    pub favorite: u64,
    pub share: u64,
}

/// One item of a search result.
#[derive(Clone, Debug, PartialEq, Eq)]
pub struct VideoResult {
    /// The kind of item; only `video` items are kept.
    pub kind: String,
    pub author: String,
    pub bvid: String,
    /// The title, with the service's emphasis markup removed.
    pub title: String,
    pub description: String,
    /// The play count as the service sent it (a number or a string), in JSON text.
    pub play: String,
    pub like: u64,
    pub video_review: u64,
    pub duration: String,
}

pub open spec fn search_prefix() -> Seq<char> {
    "https://api.bilibili.com/x/web-interface/search/type?search_type=video&keyword="@
}

pub open spec fn info_prefix() -> Seq<char> {
    "https://api.bilibili.com/x/web-interface/view?bvid="@
}

pub open spec fn page_prefix() -> Seq<char> {
    "https://www.bilibili.com/video/"@
}

pub open spec fn em_open() -> Seq<char> {
    "<em class=\"keyword\">"@
}

pub open spec fn em_close() -> Seq<char> {
    "</em>"@
}

/// A title with its emphasis markup removed: first every opening tag, then every closing one.
pub open spec fn strip_em_spec(s: Seq<char>) -> Seq<char> {
    remove_all(remove_all(s, em_open()), em_close())
}

/// The text of a failed decoding: the decoder's message and the raw body.
pub open spec fn decode_failure_spec(err: Seq<char>, body: Seq<char>) -> Seq<char> {
    "error decoding response body: "@ + err + ". Raw response: "@ + body
}

/// The items of `s` whose kind is `video`, in order.
pub open spec fn videos_of(s: Seq<VideoResult>) -> Seq<VideoResult>
    decreases s.len(),
{
    if s.len() == 0 {
        s
    } else {
        let rest = videos_of(s.subrange(1, s.len() as int));
        if s[0].kind@ == "video"@ {
            seq![s[0]] + rest
        } else {
            rest
        }
    }
}

fn concat(a: &str, b: &str) -> (r: String)
    ensures
        r@ == a@ + b@,
{
    let mut r = String::from_str(a);
    r.append(b);
    r
}

/// The request URL of a search for `keyword`.
pub fn search_url(keyword: &str) -> (r: String)
    ensures
        r@ == search_prefix() + keyword@,
{
    concat("https://api.bilibili.com/x/web-interface/search/type?search_type=video&keyword=", keyword)
}

/// The request URL of the details of video `bvid`.
pub fn video_info_url(bvid: &str) -> (r: String)
    ensures
        r@ == info_prefix() + bvid@,
{
    concat("https://api.bilibili.com/x/web-interface/view?bvid=", bvid)
}

/// The page of video `bvid`, which the media player is given.
pub fn video_page_url(bvid: &str) -> (r: String)
    ensures
        r@ == page_prefix() + bvid@,
{
    concat("https://www.bilibili.com/video/", bvid)
}

/// Removes the emphasis markup that the service puts around matched keywords.
pub fn strip_em_tags(s: &str) -> (r: String)
    ensures
        r@ == strip_em_spec(s@),
{
    let a = remove_occurrences(s, "<em class=\"keyword\">");
    remove_occurrences(a.as_str(), "</em>")
}

/// The failure text for a response body that did not decode.
pub fn decode_failure(err: &str, body: &str) -> (r: String)
    ensures
        r@ == decode_failure_spec(err@, body@),
{
    let mut r = String::from_str("error decoding response body: ");
    r.append(err);
    r.append(". Raw response: ");
    r.append(body);
    r
}

/// Keeps the items whose kind is `video`, in their order.
pub fn videos_only(results: Vec<VideoResult>) -> (r: Vec<VideoResult>)
    ensures
        r@ == videos_of(results@),
{
    let ghost orig = results@;
    let mut rest = results;
    let mut out: Vec<VideoResult> = Vec::new();
    while rest.len() > 0
        invariant
            videos_of(orig) == out@ + videos_of(rest@),
        decreases rest@.len(),
    {
        let ghost before = rest@;
        let v = rest.remove(0);
        assert(rest@ =~= before.subrange(1, before.len() as int));
        if str_eq(v.kind.as_str(), "video") {
            out.push(v);
            assert(videos_of(orig) =~= out@ + videos_of(rest@));
        } else {
            assert(videos_of(orig) =~= out@ + videos_of(rest@));
        }
    }
    assert(out@ + videos_of(rest@) =~= out@);
    out
}

} // verus!
