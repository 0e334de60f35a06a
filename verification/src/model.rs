//! Data model mirroring the remote API's JSON schema.
//!
//! All records are immutable values: they are produced by decoding a
//! response or built by the client immediately before a request. Every
//! record also has a mathematical view (`@`), a record of character
//! sequences and plain numbers, which the codec's and client's contracts
//! speak of.
//!
//! Publish timestamps travel on the wire as text and the client never
//! computes with them, so they are carried as plain strings.

use vstd::prelude::*;

verus! {

/// Polymorphic reference to a video, channel or playlist. Which optional
/// field is populated is a contract of the remote API, not a structural
/// invariant.
#[derive(Debug, Clone, PartialEq, Eq)]
pub struct Id {
    pub kind: String,
    pub video_id: Option<String>,
    pub channel_id: Option<String>,
    pub playlist_id: Option<String>,
}

/// Mathematical view of an [`Id`].
#[verifier::ext_equal]
pub struct IdView {
    pub kind: Seq<char>,
    pub video_id: Option<Seq<char>>,
    pub channel_id: Option<Seq<char>>,
    pub playlist_id: Option<Seq<char>>,
}

/// View of an optional string: the character sequence, if present.
pub open spec fn opt_view(s: Option<String>) -> Option<Seq<char>> {
    match s {
        Option::Some(x) => Option::Some(x@),
        Option::None => Option::None,
    }
}

impl View for Id {
    type V = IdView;

    open spec fn view(&self) -> IdView {
        IdView {
            kind: self.kind@,
            video_id: opt_view(self.video_id),
            channel_id: opt_view(self.channel_id),
            playlist_id: opt_view(self.playlist_id),
        }
    }
}

/// One thumbnail rendition.
#[derive(Debug, Clone, PartialEq, Eq)]
pub struct Thumbnail {
    pub url: String,
    pub width: Option<u64>,
    pub height: Option<u64>,
}

/// Mathematical view of a [`Thumbnail`].
#[verifier::ext_equal]
pub struct ThumbnailView {
    pub url: Seq<char>,
    pub width: Option<u64>,
    pub height: Option<u64>,
}

impl View for Thumbnail {
    type V = ThumbnailView;

    open spec fn view(&self) -> ThumbnailView {
        ThumbnailView { url: self.url@, width: self.width, height: self.height }
    }
}

/// The named thumbnail slots of an item.
#[derive(Debug, Clone, PartialEq, Eq)]
pub struct Thumbnails {
    pub default: Option<Thumbnail>,
    pub medium: Option<Thumbnail>,
    pub high: Option<Thumbnail>,
    pub standard: Option<Thumbnail>,
    pub maxres: Option<Thumbnail>,
}

/// Mathematical view of a [`Thumbnails`] set.
#[verifier::ext_equal]
pub struct ThumbnailsView {
    pub default: Option<ThumbnailView>,
    pub medium: Option<ThumbnailView>,
    pub high: Option<ThumbnailView>,
    pub standard: Option<ThumbnailView>,
    pub maxres: Option<ThumbnailView>,
}

/// View of an optional thumbnail.
pub open spec fn opt_thumb_view(t: Option<Thumbnail>) -> Option<ThumbnailView> {
    match t {
        Option::Some(x) => Option::Some(x@),
        Option::None => Option::None,
    }
}

impl View for Thumbnails {
    type V = ThumbnailsView;

    open spec fn view(&self) -> ThumbnailsView {
        ThumbnailsView {
            default: opt_thumb_view(self.default),
            medium: opt_thumb_view(self.medium),
            high: opt_thumb_view(self.high),
            standard: opt_thumb_view(self.standard),
            maxres: opt_thumb_view(self.maxres),
        }
    }
}

/// Descriptive metadata of one playlist item.
#[derive(Debug, Clone, PartialEq, Eq)]
pub struct Snippet {
    pub published_at: Option<String>,
    pub channel_id: Option<String>,
    pub title: Option<String>,
    pub description: Option<String>,
    pub thumbnails: Option<Thumbnails>,
    pub channel_title: Option<String>,
    pub live_broadcast_content: Option<String>,
    pub playlist_id: Option<String>,
    pub position: Option<u32>,
    pub resource_id: Option<Id>,
}

/// Mathematical view of a [`Snippet`].
#[verifier::ext_equal]
pub struct SnippetView {
    pub published_at: Option<Seq<char>>,
    pub channel_id: Option<Seq<char>>,
    pub title: Option<Seq<char>>,
    pub description: Option<Seq<char>>,
    pub thumbnails: Option<ThumbnailsView>,
    pub channel_title: Option<Seq<char>>,
    pub live_broadcast_content: Option<Seq<char>>,
    pub playlist_id: Option<Seq<char>>,
    pub position: Option<u32>,
    pub resource_id: Option<IdView>,
}

/// View of an optional thumbnail set.
pub open spec fn opt_thumbs_view(t: Option<Thumbnails>) -> Option<ThumbnailsView> {
    match t {
        Option::Some(x) => Option::Some(x@),
        Option::None => Option::None,
    }
}

impl View for Snippet {
    type V = SnippetView;

    open spec fn view(&self) -> SnippetView {
        SnippetView {
            published_at: opt_view(self.published_at),
            channel_id: opt_view(self.channel_id),
            title: opt_view(self.title),
            description: opt_view(self.description),
            thumbnails: opt_thumbs_view(self.thumbnails),
            channel_title: opt_view(self.channel_title),
            live_broadcast_content: opt_view(self.live_broadcast_content),
            playlist_id: opt_view(self.playlist_id),
            position: self.position,
            resource_id: opt_id_view(self.resource_id),
        }
    }
}

/// View of an optional resource id.
pub open spec fn opt_id_view(r: Option<Id>) -> Option<IdView> {
    match r {
        Option::Some(x) => Option::Some(x@),
        Option::None => Option::None,
    }
}

/// View of an optional snippet.
pub open spec fn opt_snippet_view(s: Option<Snippet>) -> Option<SnippetView> {
    match s {
        Option::Some(x) => Option::Some(x@),
        Option::None => Option::None,
    }
}

/// One entry of a playlist. `id` is absent on a locally built item that is
/// about to be submitted and present on items returned by the server.
#[derive(Debug, Clone, PartialEq, Eq)]
pub struct PlaylistItem {
    pub kind: String,
    pub id: Option<String>,
    pub snippet: Option<Snippet>,
}

/// Mathematical view of a [`PlaylistItem`].
#[verifier::ext_equal]
pub struct PlaylistItemView {
    pub kind: Seq<char>,
    pub id: Option<Seq<char>>,
    pub snippet: Option<SnippetView>,
}

impl View for PlaylistItem {
    type V = PlaylistItemView;

    open spec fn view(&self) -> PlaylistItemView {
        PlaylistItemView {
            kind: self.kind@,
            id: opt_view(self.id),
            snippet: opt_snippet_view(self.snippet),
        }
    }
}

/// Pagination counters of one listing page.
#[derive(Debug, Clone, PartialEq, Eq)]
pub struct PlaylistItemPageInfo {
    pub total_results: i32,
    pub results_per_page: i32,
}

/// Mathematical view of a [`PlaylistItemPageInfo`].
#[verifier::ext_equal]
pub struct PlaylistItemPageInfoView {
    pub total_results: i32,
    pub results_per_page: i32,
}

impl View for PlaylistItemPageInfo {
    type V = PlaylistItemPageInfoView;

    open spec fn view(&self) -> PlaylistItemPageInfoView {
        PlaylistItemPageInfoView {
            total_results: self.total_results,
            results_per_page: self.results_per_page,
        }
    }
}

/// One page of a playlist listing. `items` preserves the server-returned
/// order, which is the playlist's positional order.
#[derive(Debug, Clone, PartialEq, Eq)]
pub struct PlaylistItemPage {
    pub kind: String,
    pub next_page_token: String,
    pub prev_page_token: String,
    pub page_info: PlaylistItemPageInfo,
    pub items: Vec<PlaylistItem>,
}

/// Mathematical view of a [`PlaylistItemPage`].
#[verifier::ext_equal]
pub struct PlaylistItemPageView {
    pub kind: Seq<char>,
    pub next_page_token: Seq<char>,
    pub prev_page_token: Seq<char>,
    pub page_info: PlaylistItemPageInfoView,
    pub items: Seq<PlaylistItemView>,
}

impl View for PlaylistItemPage {
    type V = PlaylistItemPageView;

    open spec fn view(&self) -> PlaylistItemPageView {
        PlaylistItemPageView {
            kind: self.kind@,
            next_page_token: self.next_page_token@,
            prev_page_token: self.prev_page_token@,
            page_info: self.page_info@,
            items: self.items@.map_values(|it: PlaylistItem| it@),
        }
    }
}

} // verus!
