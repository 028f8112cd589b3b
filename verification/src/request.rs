//! The two requests of a resolution, as values: address, headers and
//! transfer policy. Sending them is left to the caller.

use vstd::prelude::*;
use vstd::string::StringExecFns;
use crate::headers::{browser_headers, generate_headers, header_entries, is_header_value, HeaderSet};
use crate::text::{decimal, push_decimal};

verus! {

/// Which representations the playback endpoint is asked for. A deployment
/// picks one and keeps it.
#[derive(Debug, Clone, Copy, PartialEq, Eq, Structural)]
pub enum PlaybackMode {
    /// Ask for the adaptive and the single-file representation, and prefer
    /// the adaptive one.
    MultiFormat,
    /// Ask for the single-file representation only.
    SingleFormat,
}

/// The time, in seconds, after which a request is given up.
pub const REQUEST_TIMEOUT_SECS: u64 = 15;

/// A GET request to be sent.
#[derive(Debug)]
pub struct Request {
    /// The address, query included.
    pub url: String,
    pub headers: reqwest::header::HeaderMap,
    /// The time after which the request is given up.
    pub timeout_secs: u64,
    /// Whether a compressed reply is to be decompressed in passing.
    pub gzip: bool,
}

/// What a `Request` stands for.
pub struct RequestModel {
    pub url: Seq<char>,
    pub headers: HeaderSet,
    pub timeout_secs: u64,
    pub gzip: bool,
}

impl View for Request {
    type V = RequestModel;

    open spec fn view(&self) -> RequestModel {
        RequestModel {
            url: self.url@,
            headers: header_entries(self.headers),
            timeout_secs: self.timeout_secs,
            gzip: self.gzip,
        }
    }
}

/// The address of the page of the video `bvid`, sent as referer.
pub open spec fn page_url(bvid: Seq<char>) -> Seq<char> {
    "https://www.bilibili.com/video/"@ + bvid
}

/// The address of the metadata endpoint for the video `bvid`.
pub open spec fn metadata_url(bvid: Seq<char>) -> Seq<char> {
    "https://api.bilibili.com/x/web-interface/view?bvid="@ + bvid
}

/// The end of the playback query: the quality tier and what tells the
/// endpoint which representations are wanted.
pub open spec fn playback_flags(mode: PlaybackMode) -> Seq<char> {
    match mode {
        PlaybackMode::MultiFormat => "&qn=80&fnval=16&fourk=1"@,
        PlaybackMode::SingleFormat => "&qn=80&fnval=1&platform=html5&high_quality=1"@,
    }
}

/// The address of the playback endpoint for the part `cid` of the video
/// `bvid`.
pub open spec fn playback_url(mode: PlaybackMode, bvid: Seq<char>, cid: u64) -> Seq<char> {
    "https://api.bilibili.com/x/player/playurl?bvid="@ + bvid + "&cid="@ + decimal(cid as nat)
        + playback_flags(mode)
}

/// The request to `url` on behalf of `token`, coming from the page of
/// `bvid`.
pub open spec fn request_to(url: Seq<char>, bvid: Seq<char>, token: Seq<char>) -> RequestModel {
    RequestModel {
        url,
        headers: browser_headers(token, page_url(bvid)),
        timeout_secs: REQUEST_TIMEOUT_SECS,
        gzip: true,
    }
}

/// The request that asks for the routing identifiers of `bvid`.
pub open spec fn metadata_request(bvid: Seq<char>, token: Seq<char>) -> RequestModel {
    request_to(metadata_url(bvid), bvid, token)
}

/// The request that asks for the media addresses of the part `cid` of
/// `bvid`.
pub open spec fn playback_request(
    mode: PlaybackMode,
    bvid: Seq<char>,
    cid: u64,
    token: Seq<char>,
) -> RequestModel {
    request_to(playback_url(mode, bvid, cid), bvid, token)
}

/// The request to `url` with the common headers and policy.
fn build_request(url: String, bvid: &str, sessdata: &str) -> (request: Request)
    requires
        is_header_value(bvid@),
        is_header_value(sessdata@),
    ensures
        request@ == request_to(url@, bvid@, sessdata@),
{
    let mut referer = String::from_str("https://www.bilibili.com/video/");
    referer.append(bvid);
    proof {
        reveal_strlit("https://www.bilibili.com/video/");
        assert(is_header_value(referer@));
    }
    let headers = generate_headers(sessdata, referer.as_str());
    Request { url, headers, timeout_secs: REQUEST_TIMEOUT_SECS, gzip: true }
}

/// Builds the request that asks the metadata endpoint for the routing
/// identifiers of the video `bvid`, on behalf of `sessdata`.
pub fn video_info_request(bvid: &str, sessdata: &str) -> (request: Request)
    requires
        is_header_value(bvid@),
        is_header_value(sessdata@),
    ensures
        request@ == metadata_request(bvid@, sessdata@),
{
    let mut url = String::from_str("https://api.bilibili.com/x/web-interface/view?bvid=");
    url.append(bvid);
    build_request(url, bvid, sessdata)
}

/// Builds the request that asks the playback endpoint for the media
/// addresses of the part `cid` of the video `bvid`, on behalf of
/// `sessdata`.
pub fn play_url_request(mode: PlaybackMode, bvid: &str, cid: u64, sessdata: &str) -> (request:
    Request)
    requires
        is_header_value(bvid@),
        is_header_value(sessdata@),
    ensures
        request@ == playback_request(mode, bvid@, cid, sessdata@),
{
    let mut url = String::from_str("https://api.bilibili.com/x/player/playurl?bvid=");
    url.append(bvid);
    url.append("&cid=");
    push_decimal(&mut url, cid);
    match mode {
        PlaybackMode::MultiFormat => url.append("&qn=80&fnval=16&fourk=1"),
        PlaybackMode::SingleFormat => url.append("&qn=80&fnval=1&platform=html5&high_quality=1"),
    }
    build_request(url, bvid, sessdata)
}

} // verus!
