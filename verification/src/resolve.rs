//! The steps of a resolution, in the order in which they are taken.
//!
//! A resolution makes two requests, the second built from the reply to the
//! first. The functions here decide; the caller sends. `begin` reads the
//! page address and the token into a `Session`. `Session::first_request`
//! gives the request to the metadata endpoint, `Session::next_request`
//! turns its reply into the request to the playback endpoint, and
//! `play_url_from_reply` turns the reply to that into the link. The first
//! failure ends the resolution: each step hands the error on.

use vstd::prelude::*;
use crate::error::{outcome, ErrorModel, FetchError, ResolveError};
use crate::headers::{is_header_value, is_valid_header_value};
use crate::ident::{extract_bvid, extraction, lies_before_query};
use crate::model::{
    ApiResponse,
    PlayUrlData,
    PlayUrlDataModel,
    PlayUrlModel,
    ResponseModel,
    ViewData,
};
use crate::reply::{info_outcome, play_outcome, reply_model, video_info_from_reply};
use crate::request::{
    metadata_request,
    play_url_request,
    playback_request,
    video_info_request,
    PlaybackMode,
    Request,
    RequestModel,
};
use crate::text::{blank, is_blank};

verus! {

/// The token that is sent for `sessdata`: none for a blank one, else
/// `sessdata` as it stands.
pub open spec fn effective_token(sessdata: Seq<char>) -> Seq<char> {
    if is_blank(sessdata) {
        Seq::empty()
    } else {
        sessdata
    }
}

/// A resolution under way: the identifier of the video and the token on
/// whose behalf the requests are made.
#[derive(Debug, PartialEq, Eq)]
pub struct Session {
    pub bvid: String,
    pub token: String,
}

/// What a `Session` stands for.
pub struct SessionModel {
    pub bvid: Seq<char>,
    pub token: Seq<char>,
}

impl View for Session {
    type V = SessionModel;

    open spec fn view(&self) -> SessionModel {
        SessionModel { bvid: self.bvid@, token: self.token@ }
    }
}

/// The session that a page address and a token start.
pub open spec fn opening(video_url: Seq<char>, sessdata: Seq<char>) -> Result<
    SessionModel,
    ErrorModel,
> {
    match extraction(video_url) {
        Ok(bvid) => Ok(SessionModel { bvid, token: effective_token(sessdata) }),
        Err(e) => Err(e),
    }
}

/// What follows the reply of the metadata endpoint: the request to the
/// playback endpoint, or the error that ends the resolution.
pub open spec fn after_info(
    mode: PlaybackMode,
    session: SessionModel,
    reply: Result<ResponseModel<ViewData>, ErrorModel>,
) -> Result<RequestModel, ErrorModel> {
    match info_outcome(reply) {
        Ok(info) => Ok(playback_request(mode, session.bvid, info.cid, session.token)),
        Err(e) => Err(e),
    }
}

/// The outcome of a whole resolution, given the replies that the two
/// endpoints make: the first failure, or the link.
pub open spec fn resolution(
    mode: PlaybackMode,
    video_url: Seq<char>,
    sessdata: Seq<char>,
    info_reply: Result<ResponseModel<ViewData>, ErrorModel>,
    play_reply: Result<ResponseModel<PlayUrlDataModel>, ErrorModel>,
) -> Result<PlayUrlModel, ErrorModel> {
    match opening(video_url, sessdata) {
        Err(e) => Err(e),
        Ok(session) => match after_info(mode, session, info_reply) {
            Err(e) => Err(e),
            Ok(_) => play_outcome(mode, play_reply),
        },
    }
}

/// Starts a resolution: finds the identifier in the page address and
/// settles the token. A blank `sessdata` counts as none.
pub fn begin(video_url: &str, sessdata: &str) -> (r: Result<Session, ResolveError>)
    ensures
        outcome(r) == opening(video_url@, sessdata@),
        r matches Ok(session) ==> lies_before_query(session.bvid@, video_url@),
{
    match extract_bvid(video_url) {
        Ok(bvid) => {
            let token = if blank(sessdata) {
                String::new()
            } else {
                sessdata.to_string()
            };
            Ok(Session { bvid, token })
        },
        Err(e) => Err(e),
    }
}

impl Session {
    /// Whether the requests of the session can be sent: the identifier and
    /// the token each make a header value.
    pub open spec fn sendable(&self) -> bool {
        is_header_value(self.bvid@) && is_header_value(self.token@)
    }

    /// Whether the requests of the session can be sent.
    pub fn is_sendable(&self) -> (b: bool)
        ensures
            b == self.sendable(),
    {
        is_valid_header_value(self.bvid.as_str()) && is_valid_header_value(self.token.as_str())
    }

    /// The first request of the resolution, to the metadata endpoint.
    pub fn first_request(&self) -> (request: Request)
        requires
            self.sendable(),
        ensures
            request@ == metadata_request(self.bvid@, self.token@),
    {
        video_info_request(self.bvid.as_str(), self.token.as_str())
    }

    /// The second request of the resolution, to the playback endpoint,
    /// built from the reply to the first; or the error that the reply
    /// stands for.
    pub fn next_request(
        &self,
        mode: PlaybackMode,
        reply: Result<ApiResponse<ViewData>, FetchError>,
    ) -> (r: Result<Request, ResolveError>)
        requires
            self.sendable(),
        ensures
            outcome(r) == after_info(mode, self@, reply_model(reply)),
    {
        match video_info_from_reply(reply) {
            Ok(info) => Ok(play_url_request(mode, self.bvid.as_str(), info.cid, self.token.as_str())),
            Err(e) => Err(e),
        }
    }
}

/// The first failure is the outcome of a resolution, and nothing that
/// would have followed it is read: a page address without identifier fails
/// whatever the replies, a failed metadata reply fails whatever the
/// playback reply, and after two successes the outcome is what the
/// playback reply gives.
pub proof fn lemma_first_failure_ends(
    mode: PlaybackMode,
    video_url: Seq<char>,
    sessdata: Seq<char>,
    info_reply: Result<ResponseModel<ViewData>, ErrorModel>,
    play_reply: Result<ResponseModel<PlayUrlDataModel>, ErrorModel>,
)
    ensures
        extraction(video_url) matches Err(e) ==> resolution(
            mode,
            video_url,
            sessdata,
            info_reply,
            play_reply,
        ) == Err::<PlayUrlModel, ErrorModel>(e),
        extraction(video_url) is Ok ==> (info_outcome(info_reply) matches Err(e) ==> resolution(
            mode,
            video_url,
            sessdata,
            info_reply,
            play_reply,
        ) == Err::<PlayUrlModel, ErrorModel>(e)),
        extraction(video_url) is Ok && info_outcome(info_reply) is Ok ==> resolution(
            mode,
            video_url,
            sessdata,
            info_reply,
            play_reply,
        ) == play_outcome(mode, play_reply),
{
}

/// Resolving again gives the same: from one mode, page address and
/// token, against replies that stand for the same, a resolution starts in
/// the same session, asks the same of the playback endpoint and ends in
/// the same link or the same error.
pub proof fn lemma_resolution_repeats(
    mode: PlaybackMode,
    video_url: Seq<char>,
    sessdata: Seq<char>,
    session: Session,
    session_again: Session,
    info_reply: Result<ApiResponse<ViewData>, FetchError>,
    info_again: Result<ApiResponse<ViewData>, FetchError>,
    play_reply: Result<ApiResponse<PlayUrlData>, FetchError>,
    play_again: Result<ApiResponse<PlayUrlData>, FetchError>,
)
    requires
        opening(video_url, sessdata) == Ok::<SessionModel, ErrorModel>(session@),
        opening(video_url, sessdata) == Ok::<SessionModel, ErrorModel>(session_again@),
        reply_model(info_reply) == reply_model(info_again),
        reply_model(play_reply) == reply_model(play_again),
    ensures
        session@ == session_again@,
        session.sendable() == session_again.sendable(),
        metadata_request(session.bvid@, session.token@) == metadata_request(
            session_again.bvid@,
            session_again.token@,
        ),
        after_info(mode, session@, reply_model(info_reply)) == after_info(
            mode,
            session_again@,
            reply_model(info_again),
        ),
        play_outcome(mode, reply_model(play_reply)) == play_outcome(mode, reply_model(play_again)),
        resolution(mode, video_url, sessdata, reply_model(info_reply), reply_model(play_reply))
            == resolution(
            mode,
            video_url,
            sessdata,
            reply_model(info_again),
            reply_model(play_again),
        ),
{
}

} // verus!
