//! The ways in which a resolution fails, and the message shown for each.

use vstd::prelude::*;
use vstd::string::StringExecFns;

verus! {

/// The endpoint that a reply came from.
#[derive(Debug, Clone, Copy, PartialEq, Eq, Structural)]
pub enum Endpoint {
    /// The view endpoint, which maps an identifier to routing identifiers.
    Metadata,
    /// The playback endpoint, which gives the media addresses.
    Playback,
}

/// Why no reply of an endpoint could be had.
#[derive(Debug, PartialEq, Eq)]
pub enum FetchError {
    /// The request failed or timed out; the cause is kept.
    Transport(String),
    /// The body was not the expected envelope; the cause is kept.
    Decode(String),
}

/// Why a resolution failed.
#[derive(Debug, PartialEq, Eq)]
pub enum ResolveError {
    /// The page address holds no video identifier.
    NotFound,
    /// The pattern of identifiers was not accepted by the pattern engine;
    /// its message is kept.
    Pattern(String),
    /// A request failed or timed out.
    Transport(String),
    /// A reply could not be decoded.
    Decode(String),
    /// An endpoint reported a status other than zero, with this message.
    ApiError { endpoint: Endpoint, message: String },
    /// An endpoint reported status zero and sent no payload.
    MissingData,
    /// The payload holds no usable stream. `adaptive_only` tells that a
    /// single file was asked for and only an adaptive stream exists.
    NoStreamFound { adaptive_only: bool },
}

/// What a `ResolveError` stands for.
pub enum ErrorModel {
    NotFound,
    Pattern(Seq<char>),
    Transport(Seq<char>),
    Decode(Seq<char>),
    ApiError { endpoint: Endpoint, message: Seq<char> },
    MissingData,
    NoStreamFound { adaptive_only: bool },
}

impl View for ResolveError {
    type V = ErrorModel;

    open spec fn view(&self) -> ErrorModel {
        match self {
            ResolveError::NotFound => ErrorModel::NotFound,
            ResolveError::Pattern(text) => ErrorModel::Pattern(text@),
            ResolveError::Transport(cause) => ErrorModel::Transport(cause@),
            ResolveError::Decode(cause) => ErrorModel::Decode(cause@),
            ResolveError::ApiError { endpoint, message } => ErrorModel::ApiError {
                endpoint: *endpoint,
                message: message@,
            },
            ResolveError::MissingData => ErrorModel::MissingData,
            ResolveError::NoStreamFound { adaptive_only } => ErrorModel::NoStreamFound {
                adaptive_only: *adaptive_only,
            },
        }
    }
}

/// A failed fetch stands for the error that it becomes.
impl View for FetchError {
    type V = ErrorModel;

    open spec fn view(&self) -> ErrorModel {
        match self {
            FetchError::Transport(cause) => ErrorModel::Transport(cause@),
            FetchError::Decode(cause) => ErrorModel::Decode(cause@),
        }
    }
}

impl ErrorModel {
    /// The message shown for the error.
    pub open spec fn text(self) -> Seq<char> {
        match self {
            ErrorModel::NotFound => "无法从URL中提取BV号"@,
            ErrorModel::Pattern(text) => text,
            ErrorModel::Transport(cause) => cause,
            ErrorModel::Decode(cause) => cause,
            ErrorModel::ApiError { endpoint: Endpoint::Metadata, message } => "获取视频信息失败: "@
                + message,
            ErrorModel::ApiError { endpoint: Endpoint::Playback, message } => "获取播放URL失败: "@
                + message,
            ErrorModel::MissingData => "响应中未找到数据"@,
            ErrorModel::NoStreamFound { adaptive_only: false } => "响应中未找到视频URL"@,
            ErrorModel::NoStreamFound { adaptive_only: true } => "该视频仅提供DASH格式，没有MP4地址"@,
        }
    }
}

/// The view of an outcome: of its value on success, of its error on
/// failure.
pub open spec fn outcome<T: View>(r: Result<T, ResolveError>) -> Result<T::V, ErrorModel> {
    match r {
        Ok(value) => Ok(value@),
        Err(e) => Err(e@),
    }
}

impl ResolveError {
    /// The error that a failed fetch becomes.
    pub fn from_fetch(e: FetchError) -> (r: ResolveError)
        ensures
            r@ == e@,
    {
        match e {
            FetchError::Transport(cause) => ResolveError::Transport(cause),
            FetchError::Decode(cause) => ResolveError::Decode(cause),
        }
    }

    /// The message shown for the error: all that crosses the boundary to
    /// the caller of a resolution.
    pub fn message(&self) -> (s: String)
        ensures
            s@ == self@.text(),
    {
        match self {
            ResolveError::NotFound => String::from_str("无法从URL中提取BV号"),
            ResolveError::Pattern(text) => text.clone(),
            ResolveError::Transport(cause) => cause.clone(),
            ResolveError::Decode(cause) => cause.clone(),
            ResolveError::ApiError { endpoint, message } => {
                let mut s = match endpoint {
                    Endpoint::Metadata => String::from_str("获取视频信息失败: "),
                    Endpoint::Playback => String::from_str("获取播放URL失败: "),
                };
                s.append(message.as_str());
                s
            },
            ResolveError::MissingData => String::from_str("响应中未找到数据"),
            ResolveError::NoStreamFound { adaptive_only } => {
                if *adaptive_only {
                    String::from_str("该视频仅提供DASH格式，没有MP4地址")
                } else {
                    String::from_str("响应中未找到视频URL")
                }
            },
        }
    }
}

} // verus!
