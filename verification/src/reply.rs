//! Reading the replies of the two endpoints.
//!
//! Both answer in one envelope: a status, a message and a payload. Status
//! zero with a payload is a success; any other status is an error of the
//! endpoint and carries its message; status zero without payload is a
//! reply with missing data.

use vstd::prelude::*;
use vstd::string::StringExecFns;
use crate::cdn::{rewrite_cdn_host, rewritten};
use crate::error::{outcome, Endpoint, ErrorModel, FetchError, ResolveError};
use crate::model::{
    ApiResponse,
    PlayUrlData,
    PlayUrlDataModel,
    PlayUrlModel,
    ResponseModel,
    StreamFormat,
    VideoInfo,
    VideoPlayUrl,
    ViewData,
};
use crate::request::PlaybackMode;
use crate::text::text_of;

verus! {

/// What a reply stands for: what its envelope stands for, or the error
/// with which the fetch failed.
pub open spec fn reply_model<T: View>(reply: Result<ApiResponse<T>, FetchError>) -> Result<
    ResponseModel<T::V>,
    ErrorModel,
> {
    match reply {
        Ok(response) => Ok(response@),
        Err(e) => Err(e@),
    }
}

/// The message of an envelope, or the one that stands in when the
/// endpoint gave none.
pub open spec fn reported_message<D>(response: ResponseModel<D>) -> Seq<char> {
    match response.message {
        Some(message) => message,
        None => "未知错误"@,
    }
}

/// The payload of an envelope, or the error that the envelope stands for.
pub open spec fn payload<D>(endpoint: Endpoint, response: ResponseModel<D>) -> Result<
    D,
    ErrorModel,
> {
    if response.code == 0 {
        match response.data {
            Some(data) => Ok(data),
            None => Err(ErrorModel::MissingData),
        }
    } else {
        Err(ErrorModel::ApiError { endpoint, message: reported_message(response) })
    }
}

/// The payload of a reply: that of its envelope, or the error with which
/// the fetch failed.
pub open spec fn reply_payload<D>(
    endpoint: Endpoint,
    reply: Result<ResponseModel<D>, ErrorModel>,
) -> Result<D, ErrorModel> {
    match reply {
        Ok(response) => payload(endpoint, response),
        Err(e) => Err(e),
    }
}

/// Takes the payload out of a reply.
pub fn open_reply<T: View>(endpoint: Endpoint, reply: Result<ApiResponse<T>, FetchError>) -> (r:
    Result<T, ResolveError>)
    ensures
        outcome(r) == reply_payload(endpoint, reply_model(reply)),
{
    match reply {
        Err(e) => Err(ResolveError::from_fetch(e)),
        Ok(response) => {
            if response.code == 0 {
                match response.data {
                    Some(data) => Ok(data),
                    None => Err(ResolveError::MissingData),
                }
            } else {
                let message = match response.message {
                    Some(message) => message,
                    None => String::from_str("未知错误"),
                };
                Err(ResolveError::ApiError { endpoint, message })
            }
        },
    }
}

/// The routing identifiers that a reply of the metadata endpoint gives.
pub open spec fn info_outcome(reply: Result<ResponseModel<ViewData>, ErrorModel>) -> Result<
    VideoInfo,
    ErrorModel,
> {
    match reply_payload(Endpoint::Metadata, reply) {
        Ok(data) => Ok(VideoInfo { cid: data.cid, aid: data.aid }),
        Err(e) => Err(e),
    }
}

/// Reads the routing identifiers out of a reply of the metadata endpoint.
pub fn video_info_from_reply(reply: Result<ApiResponse<ViewData>, FetchError>) -> (r: Result<
    VideoInfo,
    ResolveError,
>)
    ensures
        outcome(r) == info_outcome(reply_model(reply)),
{
    match open_reply(Endpoint::Metadata, reply) {
        Ok(data) => Ok(VideoInfo { cid: data.cid, aid: data.aid }),
        Err(e) => Err(e),
    }
}

/// The address of the first adaptive stream, where the payload has one.
pub open spec fn first_adaptive(data: PlayUrlDataModel) -> Option<Seq<char>> {
    match data.dash {
        Some(dash) => match dash.video {
            Some(video) => if video.len() > 0 {
                video[0].address()
            } else {
                None
            },
            None => None,
        },
        None => None,
    }
}

/// The address of the first single-file stream, where the payload has one.
pub open spec fn first_single(data: PlayUrlDataModel) -> Option<Seq<char>> {
    match data.durl {
        Some(durl) => if durl.len() > 0 {
            Some(durl[0])
        } else {
            None
        },
        None => None,
    }
}

/// The link chosen from a payload.
///
/// With several formats asked for, the first adaptive stream is taken,
/// else the first single file. With the single file asked for, it is
/// taken and sent to a reachable mirror; where it is missing, the error
/// tells whether an adaptive stream exists.
pub open spec fn chosen(mode: PlaybackMode, data: PlayUrlDataModel) -> Result<
    PlayUrlModel,
    ErrorModel,
> {
    match mode {
        PlaybackMode::MultiFormat => match first_adaptive(data) {
            Some(url) => Ok(PlayUrlModel { url, format: StreamFormat::Dash }),
            None => match first_single(data) {
                Some(url) => Ok(PlayUrlModel { url, format: StreamFormat::Mp4 }),
                None => Err(ErrorModel::NoStreamFound { adaptive_only: false }),
            },
        },
        PlaybackMode::SingleFormat => match first_single(data) {
            Some(url) => Ok(PlayUrlModel { url: rewritten(url), format: StreamFormat::Mp4 }),
            None => Err(
                ErrorModel::NoStreamFound { adaptive_only: first_adaptive(data) is Some },
            ),
        },
    }
}

/// The link that a reply of the playback endpoint gives.
pub open spec fn play_outcome(
    mode: PlaybackMode,
    reply: Result<ResponseModel<PlayUrlDataModel>, ErrorModel>,
) -> Result<PlayUrlModel, ErrorModel> {
    match reply_payload(Endpoint::Playback, reply) {
        Ok(data) => chosen(mode, data),
        Err(e) => Err(e),
    }
}

/// The address of the first adaptive stream, where the payload has one.
fn adaptive_url(data: &PlayUrlData) -> (url: Option<String>)
    ensures
        text_of(url) == first_adaptive(data@),
{
    match &data.dash {
        Some(dash) => match &dash.video {
            Some(video) => {
                if video.len() > 0 {
                    video[0].get_url()
                } else {
                    None
                }
            },
            None => None,
        },
        None => None,
    }
}

/// The address of the first single-file stream, where the payload has one.
fn single_url(data: &PlayUrlData) -> (url: Option<String>)
    ensures
        text_of(url) == first_single(data@),
{
    match &data.durl {
        Some(durl) => {
            if durl.len() > 0 {
                Some(durl[0].url.clone())
            } else {
                None
            }
        },
        None => None,
    }
}

/// Chooses the link from a payload of the playback endpoint.
pub fn choose_stream(mode: PlaybackMode, data: &PlayUrlData) -> (r: Result<
    VideoPlayUrl,
    ResolveError,
>)
    ensures
        outcome(r) == chosen(mode, data@),
{
    match mode {
        PlaybackMode::MultiFormat => {
            match adaptive_url(data) {
                Some(url) => Ok(VideoPlayUrl { url, format: StreamFormat::Dash }),
                None => match single_url(data) {
                    Some(url) => Ok(VideoPlayUrl { url, format: StreamFormat::Mp4 }),
                    None => Err(ResolveError::NoStreamFound { adaptive_only: false }),
                },
            }
        },
        PlaybackMode::SingleFormat => {
            match single_url(data) {
                Some(url) => Ok(
                    VideoPlayUrl { url: rewrite_cdn_host(url.as_str()), format: StreamFormat::Mp4 },
                ),
                None => {
                    let adaptive_only = adaptive_url(data).is_some();
                    Err(ResolveError::NoStreamFound { adaptive_only })
                },
            }
        },
    }
}

/// Reads the playable link out of a reply of the playback endpoint.
pub fn play_url_from_reply(
    mode: PlaybackMode,
    reply: Result<ApiResponse<PlayUrlData>, FetchError>,
) -> (r: Result<VideoPlayUrl, ResolveError>)
    ensures
        outcome(r) == play_outcome(mode, reply_model(reply)),
{
    match open_reply(Endpoint::Playback, reply) {
        Ok(data) => choose_stream(mode, &data),
        Err(e) => Err(e),
    }
}

/// With several formats asked for: a payload whose first adaptive stream
/// has an address gives that address as `DASH`; one without such a stream
/// and with a single file gives the first single file as `MP4`; one with
/// neither gives `NoStreamFound`.
pub proof fn lemma_multi_format_choice(data: PlayUrlDataModel)
    ensures
        first_adaptive(data) matches Some(url) ==> chosen(PlaybackMode::MultiFormat, data) == Ok::<
            PlayUrlModel,
            ErrorModel,
        >(PlayUrlModel { url, format: StreamFormat::Dash }),
        first_adaptive(data) is None ==> (first_single(data) matches Some(url) ==> chosen(
            PlaybackMode::MultiFormat,
            data,
        ) == Ok::<PlayUrlModel, ErrorModel>(PlayUrlModel { url, format: StreamFormat::Mp4 })),
        first_adaptive(data) is None && first_single(data) is None ==> chosen(
            PlaybackMode::MultiFormat,
            data,
        ) == Err::<PlayUrlModel, ErrorModel>(ErrorModel::NoStreamFound { adaptive_only: false }),
{
}

/// A payload without adaptive part, without list of adaptive streams or
/// with an empty one has no first adaptive stream; one without list of
/// single files or with an empty one has no first single file.
pub proof fn lemma_absent_streams(data: PlayUrlDataModel)
    ensures
        data.dash is None ==> first_adaptive(data) is None,
        data.dash matches Some(dash) ==> dash.video is None ==> first_adaptive(data) is None,
        data.dash matches Some(dash) ==> (dash.video matches Some(video) ==> video.len() == 0
            ==> first_adaptive(data) is None),
        data.durl is None ==> first_single(data) is None,
        data.durl matches Some(durl) ==> durl.len() == 0 ==> first_single(data) is None,
{
}

/// With the single file asked for: the first single file is sent to a
/// reachable mirror and given as `MP4`; where there is none, the error
/// tells whether the first adaptive stream has an address.
pub proof fn lemma_single_format_choice(data: PlayUrlDataModel)
    ensures
        first_single(data) matches Some(url) ==> chosen(PlaybackMode::SingleFormat, data) == Ok::<
            PlayUrlModel,
            ErrorModel,
        >(PlayUrlModel { url: rewritten(url), format: StreamFormat::Mp4 }),
        first_single(data) is None ==> chosen(PlaybackMode::SingleFormat, data) == Err::<
            PlayUrlModel,
            ErrorModel,
        >(ErrorModel::NoStreamFound { adaptive_only: first_adaptive(data) is Some }),
{
}

} // verus!
