use bili_resolve::error::{Endpoint, FetchError, ResolveError};
use bili_resolve::model::{
    ApiResponse, DashData, DurlData, PlayUrlData, StreamFormat, VideoInfo, VideoPlayUrl,
    VideoStream, ViewData,
};
use bili_resolve::reply::{choose_stream, open_reply, play_url_from_reply, video_info_from_reply};
use bili_resolve::request::PlaybackMode;

fn stream(base_url: Option<&str>, base_url_alt: Option<&str>) -> VideoStream {
    VideoStream {
        base_url: base_url.map(|s| s.to_string()),
        base_url_alt: base_url_alt.map(|s| s.to_string()),
    }
}

fn payload(video: Option<Vec<VideoStream>>, durl: Option<Vec<&str>>) -> PlayUrlData {
    PlayUrlData {
        dash: Some(DashData { video }),
        durl: durl.map(|list| list.iter().map(|u| DurlData { url: u.to_string() }).collect()),
    }
}

fn ok<T>(data: T) -> Result<ApiResponse<T>, FetchError> {
    Ok(ApiResponse { code: 0, message: Some("0".to_string()), data: Some(data) })
}

#[test]
fn get_url_prefers_the_first_spelling() {
    assert_eq!(stream(Some("a"), Some("b")).get_url(), Some("a".to_string()));
    assert_eq!(stream(Some("a"), None).get_url(), Some("a".to_string()));
    assert_eq!(stream(None, Some("b")).get_url(), Some("b".to_string()));
    assert_eq!(stream(None, None).get_url(), None);
}

#[test]
fn metadata_envelope_with_payload_gives_the_identifiers() {
    let reply = Ok(ApiResponse {
        code: 0,
        message: None,
        data: Some(ViewData { cid: 123, aid: 456 }),
    });
    assert_eq!(video_info_from_reply(reply), Ok(VideoInfo { cid: 123, aid: 456 }));
    let largest = ok(ViewData { cid: u64::MAX, aid: 0 });
    assert_eq!(video_info_from_reply(largest), Ok(VideoInfo { cid: u64::MAX, aid: 0 }));
}

#[test]
fn metadata_envelope_without_payload_is_missing_data() {
    let reply: Result<ApiResponse<ViewData>, FetchError> =
        Ok(ApiResponse { code: 0, message: None, data: None });
    assert_eq!(video_info_from_reply(reply), Err(ResolveError::MissingData));
}

#[test]
fn metadata_envelope_with_status_is_an_api_error() {
    let reply: Result<ApiResponse<ViewData>, FetchError> =
        Ok(ApiResponse { code: -400, message: Some("bad id".to_string()), data: None });
    assert_eq!(
        video_info_from_reply(reply),
        Err(ResolveError::ApiError { endpoint: Endpoint::Metadata, message: "bad id".to_string() })
    );
}

#[test]
fn a_status_goes_before_a_payload() {
    let reply = Ok(ApiResponse {
        code: 62002,
        message: Some("稿件不可见".to_string()),
        data: Some(ViewData { cid: 1, aid: 2 }),
    });
    assert_eq!(
        video_info_from_reply(reply),
        Err(ResolveError::ApiError {
            endpoint: Endpoint::Metadata,
            message: "稿件不可见".to_string()
        })
    );
}

#[test]
fn a_status_without_message_gets_the_standing_message() {
    let reply: Result<ApiResponse<ViewData>, FetchError> =
        Ok(ApiResponse { code: 1, message: None, data: None });
    assert_eq!(
        video_info_from_reply(reply),
        Err(ResolveError::ApiError {
            endpoint: Endpoint::Metadata,
            message: "未知错误".to_string()
        })
    );
    let reply: Result<ApiResponse<PlayUrlData>, FetchError> =
        Ok(ApiResponse { code: -404, message: None, data: None });
    assert_eq!(
        play_url_from_reply(PlaybackMode::MultiFormat, reply),
        Err(ResolveError::ApiError {
            endpoint: Endpoint::Playback,
            message: "未知错误".to_string()
        })
    );
}

#[test]
fn a_failed_fetch_is_handed_on() {
    let reply: Result<ApiResponse<ViewData>, FetchError> =
        Err(FetchError::Transport("operation timed out".to_string()));
    assert_eq!(
        video_info_from_reply(reply),
        Err(ResolveError::Transport("operation timed out".to_string()))
    );
    let reply: Result<ApiResponse<PlayUrlData>, FetchError> =
        Err(FetchError::Decode("expected value at line 1 column 1".to_string()));
    assert_eq!(
        play_url_from_reply(PlaybackMode::SingleFormat, reply),
        Err(ResolveError::Decode("expected value at line 1 column 1".to_string()))
    );
}

#[test]
fn open_reply_hands_out_the_payload() {
    assert_eq!(open_reply(Endpoint::Playback, ok(7u64)), Ok(7u64));
    let none: Result<ApiResponse<u64>, FetchError> =
        Ok(ApiResponse { code: 0, message: Some("ok".to_string()), data: None });
    assert_eq!(open_reply(Endpoint::Playback, none), Err(ResolveError::MissingData));
}

#[test]
fn multi_format_prefers_the_adaptive_stream() {
    let data = payload(
        Some(vec![stream(Some("https://a/1.m4s"), None), stream(Some("https://a/2.m4s"), None)]),
        Some(vec!["https://x.akamaized.net/v.mp4"]),
    );
    assert_eq!(
        play_url_from_reply(PlaybackMode::MultiFormat, ok(data)),
        Ok(VideoPlayUrl { url: "https://a/1.m4s".to_string(), format: StreamFormat::Dash })
    );
}

#[test]
fn multi_format_reads_the_second_spelling() {
    let data = payload(Some(vec![stream(None, Some("https://a/alt.m4s"))]), None);
    assert_eq!(
        choose_stream(PlaybackMode::MultiFormat, &data),
        Ok(VideoPlayUrl { url: "https://a/alt.m4s".to_string(), format: StreamFormat::Dash })
    );
}

#[test]
fn multi_format_falls_back_to_the_single_file() {
    let empty = payload(Some(vec![]), Some(vec!["https://x.akamaized.net/v.mp4", "https://b/2.mp4"]));
    assert_eq!(
        choose_stream(PlaybackMode::MultiFormat, &empty),
        Ok(VideoPlayUrl {
            url: "https://x.akamaized.net/v.mp4".to_string(),
            format: StreamFormat::Mp4
        })
    );
    let absent = PlayUrlData {
        dash: None,
        durl: Some(vec![DurlData { url: "https://b/1.mp4".to_string() }]),
    };
    assert_eq!(
        choose_stream(PlaybackMode::MultiFormat, &absent),
        Ok(VideoPlayUrl { url: "https://b/1.mp4".to_string(), format: StreamFormat::Mp4 })
    );
    let no_list = payload(None, Some(vec!["https://b/1.mp4"]));
    assert_eq!(
        choose_stream(PlaybackMode::MultiFormat, &no_list),
        Ok(VideoPlayUrl { url: "https://b/1.mp4".to_string(), format: StreamFormat::Mp4 })
    );
}

#[test]
fn multi_format_looks_at_the_first_adaptive_stream_only() {
    let data = payload(
        Some(vec![stream(None, None), stream(Some("https://a/2.m4s"), None)]),
        Some(vec!["https://b/1.mp4"]),
    );
    assert_eq!(
        choose_stream(PlaybackMode::MultiFormat, &data),
        Ok(VideoPlayUrl { url: "https://b/1.mp4".to_string(), format: StreamFormat::Mp4 })
    );
}

#[test]
fn multi_format_without_any_stream_finds_none() {
    let nothing = PlayUrlData { dash: None, durl: None };
    assert_eq!(
        play_url_from_reply(PlaybackMode::MultiFormat, ok(nothing)),
        Err(ResolveError::NoStreamFound { adaptive_only: false })
    );
    let empty = payload(Some(vec![]), Some(vec![]));
    assert_eq!(
        choose_stream(PlaybackMode::MultiFormat, &empty),
        Err(ResolveError::NoStreamFound { adaptive_only: false })
    );
}

#[test]
fn single_format_takes_the_single_file_and_rewrites_it() {
    let data = payload(
        Some(vec![stream(Some("https://a/1.m4s"), None)]),
        Some(vec!["http://x.akamaized.net/v.mp4"]),
    );
    assert_eq!(
        play_url_from_reply(PlaybackMode::SingleFormat, ok(data)),
        Ok(VideoPlayUrl {
            url: "http://upos-sz-mirror08c.bilivideo.com/v.mp4".to_string(),
            format: StreamFormat::Mp4
        })
    );
    let plain = payload(None, Some(vec!["https://upos-sz-estgoss.bilivideo.com/v.mp4?a=1"]));
    assert_eq!(
        choose_stream(PlaybackMode::SingleFormat, &plain),
        Ok(VideoPlayUrl {
            url: "https://upos-sz-estgoss.bilivideo.com/v.mp4?a=1".to_string(),
            format: StreamFormat::Mp4
        })
    );
}

#[test]
fn multi_format_leaves_the_address_as_it_came() {
    let data = payload(None, Some(vec!["http://x.akamaized.net/v.mp4"]));
    assert_eq!(
        choose_stream(PlaybackMode::MultiFormat, &data),
        Ok(VideoPlayUrl { url: "http://x.akamaized.net/v.mp4".to_string(), format: StreamFormat::Mp4 })
    );
}

#[test]
fn single_format_tells_when_only_an_adaptive_stream_exists() {
    let adaptive = payload(Some(vec![stream(Some("https://a/1.m4s"), None)]), None);
    assert_eq!(
        choose_stream(PlaybackMode::SingleFormat, &adaptive),
        Err(ResolveError::NoStreamFound { adaptive_only: true })
    );
    let adaptive_empty_list = payload(Some(vec![stream(None, Some("https://a/1.m4s"))]), Some(vec![]));
    assert_eq!(
        choose_stream(PlaybackMode::SingleFormat, &adaptive_empty_list),
        Err(ResolveError::NoStreamFound { adaptive_only: true })
    );
    let nothing = PlayUrlData { dash: None, durl: None };
    assert_eq!(
        choose_stream(PlaybackMode::SingleFormat, &nothing),
        Err(ResolveError::NoStreamFound { adaptive_only: false })
    );
    let no_address = payload(Some(vec![stream(None, None)]), None);
    assert_eq!(
        choose_stream(PlaybackMode::SingleFormat, &no_address),
        Err(ResolveError::NoStreamFound { adaptive_only: false })
    );
}

#[test]
fn playback_envelope_without_payload_is_missing_data() {
    let reply: Result<ApiResponse<PlayUrlData>, FetchError> =
        Ok(ApiResponse { code: 0, message: None, data: None });
    assert_eq!(
        play_url_from_reply(PlaybackMode::MultiFormat, reply),
        Err(ResolveError::MissingData)
    );
}

#[test]
fn playback_envelope_with_status_is_an_api_error() {
    let reply: Result<ApiResponse<PlayUrlData>, FetchError> = Ok(ApiResponse {
        code: -10403,
        message: Some("抱歉您所在地区不可观看！".to_string()),
        data: None,
    });
    assert_eq!(
        play_url_from_reply(PlaybackMode::SingleFormat, reply),
        Err(ResolveError::ApiError {
            endpoint: Endpoint::Playback,
            message: "抱歉您所在地区不可观看！".to_string()
        })
    );
}

#[test]
fn formats_are_named_as_they_are_reported() {
    assert_eq!(StreamFormat::Dash.name(), "DASH");
    assert_eq!(StreamFormat::Mp4.name(), "MP4");
}

#[test]
fn each_error_has_its_message() {
    assert_eq!(ResolveError::NotFound.message(), "无法从URL中提取BV号");
    assert_eq!(ResolveError::Pattern("regex parse error".to_string()).message(), "regex parse error");
    assert_eq!(ResolveError::Transport("timed out".to_string()).message(), "timed out");
    assert_eq!(ResolveError::Decode("bad body".to_string()).message(), "bad body");
    assert_eq!(
        ResolveError::ApiError { endpoint: Endpoint::Metadata, message: "bad id".to_string() }
            .message(),
        "获取视频信息失败: bad id"
    );
    assert_eq!(
        ResolveError::ApiError { endpoint: Endpoint::Playback, message: "未知错误".to_string() }
            .message(),
        "获取播放URL失败: 未知错误"
    );
    assert_eq!(ResolveError::MissingData.message(), "响应中未找到数据");
    assert_eq!(
        ResolveError::NoStreamFound { adaptive_only: false }.message(),
        "响应中未找到视频URL"
    );
    assert_eq!(
        ResolveError::NoStreamFound { adaptive_only: true }.message(),
        "该视频仅提供DASH格式，没有MP4地址"
    );
}

#[test]
fn from_fetch_keeps_kind_and_cause() {
    assert_eq!(
        ResolveError::from_fetch(FetchError::Transport("a".to_string())),
        ResolveError::Transport("a".to_string())
    );
    assert_eq!(
        ResolveError::from_fetch(FetchError::Decode("b".to_string())),
        ResolveError::Decode("b".to_string())
    );
}
