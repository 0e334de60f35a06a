//! The playlist client: classified errors, authenticated request
//! construction, and status-driven response interpretation.
//!
//! The client does no networking itself. `build_*` functions produce an
//! [`HttpRequest`] value describing exactly one exchange; the embedding
//! application sends it and hands the raw status and body to the
//! `interpret_*` functions. Building a request performs no network call, so
//! an operation that is refused for want of a playlist id provably issues
//! none.

use vstd::prelude::*;
use vstd::string::StringExecFns;

use crate::codec::{encode_playlist_item, ser_item};
use crate::decode::{decode_playlist_item, decode_playlist_item_page, parse_item_text,
    parse_page_text};
use crate::model::{
    Id, IdView, PlaylistItem, PlaylistItemPage, PlaylistItemView, Snippet, SnippetView,
    opt_view,
};

verus! {

/// What can go wrong with an operation, one variant per cause. None of the
/// causes is retried or recovered locally: the client classifies and
/// propagates.
#[derive(Debug, Clone, PartialEq, Eq)]
pub enum ApiError {
    /// Required client state (the target playlist id) was missing before an
    /// operation that needs it.
    RequestError,
    /// The connection could not be established or was interrupted; carries
    /// the transport's own description.
    TransportError(String),
    /// The server answered with a non-success status; carries that status
    /// and the server's error payload verbatim.
    RemoteApiError { status: u16, body: String },
    /// A success response body did not conform to the expected schema.
    DecodeError,
}

/// HTTP method of a request the client builds.
#[derive(Debug, Clone, Copy, PartialEq, Eq, Structural)]
pub enum HttpMethod {
    Get,
    Post,
}

/// One request/response exchange, described as plain values: the embedding
/// application sends it with whatever transport it uses.
#[derive(Debug, Clone, PartialEq, Eq)]
pub struct HttpRequest {
    pub method: HttpMethod,
    pub url: String,
    pub query: Vec<(String, String)>,
    pub bearer_token: String,
    pub body: Option<String>,
}

pub const API_DOMAIN: &'static str = "https://www.googleapis.com/youtube/v3";

pub const PLAYLIST_ITEMS_PATH: &'static str = "/playlistItems";

/// The full playlist-items endpoint: domain and resource path concatenated.
pub open spec fn api_endpoint() -> Seq<char> {
    API_DOMAIN@ + PLAYLIST_ITEMS_PATH@
}

/// Builds the endpoint URL.
pub fn endpoint_url() -> (r: String)
    ensures
        r@ == api_endpoint(),
{
    let mut u = String::from_str(API_DOMAIN);
    u.append(PLAYLIST_ITEMS_PATH);
    u
}

/// The resource reference the client submits: a video id.
pub open spec fn add_resource_view(video_id: Seq<char>) -> IdView {
    IdView {
        kind: "youtube#video"@,
        video_id: Option::Some(video_id),
        channel_id: Option::None,
        playlist_id: Option::None,
    }
}

/// The snippet the client submits: only the target playlist and the video
/// reference, every other field absent.
pub open spec fn add_snippet_view(playlist_id: Seq<char>, video_id: Seq<char>) -> SnippetView {
    SnippetView {
        published_at: Option::None,
        channel_id: Option::None,
        title: Option::None,
        description: Option::None,
        thumbnails: Option::None,
        channel_title: Option::None,
        live_broadcast_content: Option::None,
        playlist_id: Option::Some(playlist_id),
        position: Option::None,
        resource_id: Option::Some(add_resource_view(video_id)),
    }
}

/// The item the client submits when adding a video: fixed kinds, no server
/// id, a snippet holding only the target playlist and the video reference.
pub open spec fn add_item_view(playlist_id: Seq<char>, video_id: Seq<char>) -> PlaylistItemView {
    PlaylistItemView {
        kind: "youtube#playlistItem"@,
        id: Option::None,
        snippet: Option::Some(add_snippet_view(playlist_id, video_id)),
    }
}

/// What the add request must look like: an authenticated POST to the
/// endpoint with the single query pair `part=snippet` and the canonical
/// encoding of the constructed item as its body.
pub open spec fn add_request_ok(
    req: HttpRequest,
    token: Seq<char>,
    playlist_id: Seq<char>,
    video_id: Seq<char>,
) -> bool {
    &&& req.method is Post
    &&& req.url@ == api_endpoint()
    &&& req.query@.len() == 1
    &&& req.query@[0].0@ == "part"@
    &&& req.query@[0].1@ == "snippet"@
    &&& req.bearer_token@ == token
    &&& req.body matches Some(b) && b@ == ser_item(add_item_view(playlist_id, video_id))
}

/// What the list request must look like: an authenticated GET to the
/// endpoint with exactly the query pairs `part=snippet` and
/// `playlistId=<target>`, and no body.
pub open spec fn list_request_ok(req: HttpRequest, token: Seq<char>, playlist_id: Seq<char>) -> bool {
    &&& req.method is Get
    &&& req.url@ == api_endpoint()
    &&& req.query@.len() == 2
    &&& req.query@[0].0@ == "part"@
    &&& req.query@[0].1@ == "snippet"@
    &&& req.query@[1].0@ == "playlistId"@
    &&& req.query@[1].1@ == playlist_id
    &&& req.bearer_token@ == token
    &&& req.body is None
}

/// A status in the success range.
pub open spec fn is_success_status(status: u16) -> bool {
    200 <= status && status < 300
}

/// Options of a client: the opaque bearer credential, supplied at
/// construction and never refreshed.
pub struct YMusicOptions {
    pub access_token: String,
}

/// The playlist client: a bearer token and an optional target playlist id.
/// It is scoped to one playlist at a time; to target another playlist, use
/// another instance.
pub struct YMusicController {
    pub playlist_id: Option<String>,
    pub options: YMusicOptions,
}

impl YMusicController {
    /// A client with the given bearer token and no target playlist yet.
    pub fn new(access_token: String) -> (r: YMusicController)
        ensures
            r.playlist_id is None,
            r.options.access_token@ == access_token@,
    {
        YMusicController { playlist_id: Option::None, options: YMusicOptions { access_token } }
    }

    /// Targets a playlist. Meant to be called once, before the operations
    /// that need a target.
    pub fn set_playlist_id(&mut self, playlist_id: String)
        ensures
            opt_view(final(self).playlist_id) == Option::Some(playlist_id@),
            final(self).options.access_token@ == old(self).options.access_token@,
    {
        self.playlist_id = Option::Some(playlist_id);
    }

    /// Placeholder search: echoes the keyword as the single candidate
    /// identifier. Real catalog search is intentionally not implemented;
    /// callers always get the keyword itself back.
    pub fn search(&self, keyword: String) -> (r: Vec<String>)
        ensures
            r@.len() == 1,
            r@[0]@ == keyword@,
    {
        let mut v: Vec<String> = Vec::new();
        v.push(keyword);
        v
    }

    /// The item submitted when adding `video_id` to `playlist_id`.
    pub fn new_add_item(playlist_id: &String, video_id: String) -> (r: PlaylistItem)
        ensures
            r@ == add_item_view(playlist_id@, video_id@),
    {
        PlaylistItem {
            kind: String::from_str("youtube#playlistItem"),
            id: Option::None,
            snippet: Option::Some(
                Snippet {
                    published_at: Option::None,
                    channel_id: Option::None,
                    title: Option::None,
                    description: Option::None,
                    thumbnails: Option::None,
                    channel_title: Option::None,
                    live_broadcast_content: Option::None,
                    playlist_id: Option::Some(playlist_id.clone()),
                    position: Option::None,
                    resource_id: Option::Some(
                        Id {
                            kind: String::from_str("youtube#video"),
                            video_id: Option::Some(video_id),
                            channel_id: Option::None,
                            playlist_id: Option::None,
                        },
                    ),
                },
            ),
        }
    }

    /// Builds the request that adds `video_id` to the target playlist.
    /// Fails with `RequestError`, and describes no exchange at all, when no
    /// target playlist id is configured.
    pub fn build_add_request(&self, video_id: String) -> (r: Result<HttpRequest, ApiError>)
        ensures
            self.playlist_id is None ==> r == Result::<HttpRequest, ApiError>::Err(
                ApiError::RequestError,
            ),
            (match self.playlist_id {
                Option::Some(p) => r matches Result::Ok(req) && add_request_ok(
                    req,
                    self.options.access_token@,
                    p@,
                    video_id@,
                ),
                Option::None => true,
            }),
    {
        match &self.playlist_id {
            Option::None => Result::Err(ApiError::RequestError),
            Option::Some(p) => {
                let item = Self::new_add_item(p, video_id);
                let body = encode_playlist_item(&item);
                let mut query: Vec<(String, String)> = Vec::new();
                query.push((String::from_str("part"), String::from_str("snippet")));
                Result::Ok(
                    HttpRequest {
                        method: HttpMethod::Post,
                        url: endpoint_url(),
                        query,
                        bearer_token: self.options.access_token.clone(),
                        body: Option::Some(body),
                    },
                )
            },
        }
    }

    /// Builds the request that retrieves one page of the target playlist.
    /// Fails with `RequestError`, and describes no exchange at all, when no
    /// target playlist id is configured.
    pub fn build_list_request(&self) -> (r: Result<HttpRequest, ApiError>)
        ensures
            self.playlist_id is None ==> r == Result::<HttpRequest, ApiError>::Err(
                ApiError::RequestError,
            ),
            (match self.playlist_id {
                Option::Some(p) => r matches Result::Ok(req) && list_request_ok(
                    req,
                    self.options.access_token@,
                    p@,
                ),
                Option::None => true,
            }),
    {
        match &self.playlist_id {
            Option::None => Result::Err(ApiError::RequestError),
            Option::Some(p) => {
                let mut query: Vec<(String, String)> = Vec::new();
                query.push((String::from_str("part"), String::from_str("snippet")));
                query.push((String::from_str("playlistId"), p.clone()));
                Result::Ok(
                    HttpRequest {
                        method: HttpMethod::Get,
                        url: endpoint_url(),
                        query,
                        bearer_token: self.options.access_token.clone(),
                        body: Option::None,
                    },
                )
            },
        }
    }

    /// Classifies the add response. Any non-success status is a
    /// `RemoteApiError` carrying the payload verbatim, whatever the body
    /// holds; a success body is decoded, and only a success body that does
    /// not conform is a `DecodeError` (the decoder module states exactly
    /// which JSON presentations conform). The two failure kinds are
    /// mutually exclusive and status-driven.
    pub fn interpret_add_response(status: u16, body: String) -> (r: Result<PlaylistItem, ApiError>)
        ensures
            !is_success_status(status) ==> (r matches Result::Err(
                ApiError::RemoteApiError { status: st, body: b },
            ) && st == status && b@ == body@),
            is_success_status(status) ==> (match parse_item_text(body@) {
                Option::Some(v) => r matches Result::Ok(item) && item@ == v,
                Option::None => r == Result::<PlaylistItem, ApiError>::Err(ApiError::DecodeError),
            }),
    {
        if !(200 <= status && status < 300) {
            return Result::Err(ApiError::RemoteApiError { status, body });
        }
        match decode_playlist_item(body.as_str()) {
            Option::Some(v) => Result::Ok(v),
            Option::None => Result::Err(ApiError::DecodeError),
        }
    }

    /// Classifies the list response, exactly as [`Self::interpret_add_response`]
    /// does, with a page as the expected schema.
    pub fn interpret_list_response(status: u16, body: String) -> (r: Result<
        PlaylistItemPage,
        ApiError,
    >)
        ensures
            !is_success_status(status) ==> (r matches Result::Err(
                ApiError::RemoteApiError { status: st, body: b },
            ) && st == status && b@ == body@),
            is_success_status(status) ==> (match parse_page_text(body@) {
                Option::Some(v) => r matches Result::Ok(page) && page@ == v,
                Option::None => r == Result::<PlaylistItemPage, ApiError>::Err(
                    ApiError::DecodeError,
                ),
            }),
    {
        if !(200 <= status && status < 300) {
            return Result::Err(ApiError::RemoteApiError { status, body });
        }
        match decode_playlist_item_page(body.as_str()) {
            Option::Some(v) => Result::Ok(v),
            Option::None => Result::Err(ApiError::DecodeError),
        }
    }
}

} // verus!
