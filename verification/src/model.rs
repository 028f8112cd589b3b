//! The values that travel through a resolution: the routing identifiers,
//! the decoded replies of the two endpoints, and the playable link.

use vstd::prelude::*;
use crate::text::text_of;

verus! {

/// The routing identifiers that the metadata endpoint returns for a video.
#[derive(Debug, Clone, Copy, PartialEq, Eq, Structural)]
pub struct VideoInfo {
    pub cid: u64,
    pub aid: u64,
}

impl View for VideoInfo {
    type V = VideoInfo;

    open spec fn view(&self) -> VideoInfo {
        *self
    }
}

/// The representation in which a stream is delivered.
#[derive(Debug, Clone, Copy, PartialEq, Eq, Structural)]
pub enum StreamFormat {
    /// Adaptive, several streams that the client muxes.
    Dash,
    /// One directly playable file.
    Mp4,
}

impl StreamFormat {
    /// The name under which the format is reported.
    pub open spec fn label(self) -> Seq<char> {
        match self {
            StreamFormat::Dash => "DASH"@,
            StreamFormat::Mp4 => "MP4"@,
        }
    }

    /// The name under which the format is reported: `DASH` or `MP4`.
    pub fn name(&self) -> (s: &'static str)
        ensures
            s@ == self.label(),
    {
        match self {
            StreamFormat::Dash => "DASH",
            StreamFormat::Mp4 => "MP4",
        }
    }
}

/// A playable link: the result of a resolution.
#[derive(Debug, PartialEq, Eq)]
pub struct VideoPlayUrl {
    pub url: String,
    pub format: StreamFormat,
}

/// What a `VideoPlayUrl` stands for.
pub struct PlayUrlModel {
    pub url: Seq<char>,
    pub format: StreamFormat,
}

impl View for VideoPlayUrl {
    type V = PlayUrlModel;

    open spec fn view(&self) -> PlayUrlModel {
        PlayUrlModel { url: self.url@, format: self.format }
    }
}

/// The envelope in which both endpoints answer.
#[derive(Debug, PartialEq, Eq)]
pub struct ApiResponse<T> {
    /// The status: zero for a success.
    pub code: i32,
    pub message: Option<String>,
    pub data: Option<T>,
}

/// What an `ApiResponse` stands for, over what its payload stands for.
pub struct ResponseModel<D> {
    pub code: i32,
    pub message: Option<Seq<char>>,
    pub data: Option<D>,
}

impl<T: View> View for ApiResponse<T> {
    type V = ResponseModel<T::V>;

    open spec fn view(&self) -> ResponseModel<T::V> {
        ResponseModel {
            code: self.code,
            message: text_of(self.message),
            data: match self.data {
                Some(data) => Some(data@),
                None => None,
            },
        }
    }
}

/// The payload of the metadata endpoint.
#[derive(Debug, Clone, Copy, PartialEq, Eq, Structural)]
pub struct ViewData {
    pub cid: u64,
    pub aid: u64,
}

impl View for ViewData {
    type V = ViewData;

    open spec fn view(&self) -> ViewData {
        *self
    }
}

/// One adaptive stream. The endpoint spells the field of its address in
/// two ways; each spelling has a field here.
#[derive(Debug, PartialEq, Eq)]
pub struct VideoStream {
    pub base_url: Option<String>,
    pub base_url_alt: Option<String>,
}

/// What a `VideoStream` stands for.
pub struct StreamModel {
    pub base_url: Option<Seq<char>>,
    pub base_url_alt: Option<Seq<char>>,
}

impl StreamModel {
    /// The address of the stream: the first spelling where it is present,
    /// else the second.
    pub open spec fn address(self) -> Option<Seq<char>> {
        match self.base_url {
            Some(url) => Some(url),
            None => self.base_url_alt,
        }
    }
}

impl View for VideoStream {
    type V = StreamModel;

    open spec fn view(&self) -> StreamModel {
        StreamModel { base_url: text_of(self.base_url), base_url_alt: text_of(self.base_url_alt) }
    }
}

impl VideoStream {
    /// The address of the stream: the first spelling where it is present,
    /// else the second.
    pub fn get_url(&self) -> (url: Option<String>)
        ensures
            text_of(url) == self@.address(),
    {
        match &self.base_url {
            Some(url) => Some(url.clone()),
            None => match &self.base_url_alt {
                Some(url) => Some(url.clone()),
                None => None,
            },
        }
    }
}

/// The adaptive representation of a video.
#[derive(Debug, PartialEq, Eq)]
pub struct DashData {
    pub video: Option<Vec<VideoStream>>,
}

/// What a `DashData` stands for.
pub struct DashModel {
    pub video: Option<Seq<StreamModel>>,
}

impl View for DashData {
    type V = DashModel;

    open spec fn view(&self) -> DashModel {
        DashModel {
            video: match self.video {
                Some(video) => Some(Seq::new(video@.len(), |i: int| video@[i]@)),
                None => None,
            },
        }
    }
}

/// One single-file stream. It stands for its address.
#[derive(Debug, PartialEq, Eq)]
pub struct DurlData {
    pub url: String,
}

impl View for DurlData {
    type V = Seq<char>;

    open spec fn view(&self) -> Seq<char> {
        self.url@
    }
}

/// The payload of the playback endpoint.
#[derive(Debug, PartialEq, Eq)]
pub struct PlayUrlData {
    pub dash: Option<DashData>,
    pub durl: Option<Vec<DurlData>>,
}

/// What a `PlayUrlData` stands for.
pub struct PlayUrlDataModel {
    pub dash: Option<DashModel>,
    pub durl: Option<Seq<Seq<char>>>,
}

impl View for PlayUrlData {
    type V = PlayUrlDataModel;

    open spec fn view(&self) -> PlayUrlDataModel {
        PlayUrlDataModel {
            dash: match self.dash {
                Some(dash) => Some(dash@),
                None => None,
            },
            durl: match self.durl {
                Some(durl) => Some(Seq::new(durl@.len(), |i: int| durl@[i]@)),
                None => None,
            },
        }
    }
}

} // verus!
