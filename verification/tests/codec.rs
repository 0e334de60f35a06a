use youtube_api::codec::encode_playlist_item;
use youtube_api::decode::{decode_playlist_item, decode_playlist_item_page};
use youtube_api::model::{Id, PlaylistItem, Snippet, Thumbnail, Thumbnails};

fn full_item() -> PlaylistItem {
    PlaylistItem {
        kind: String::from("youtube#playlistItem"),
        id: Some(String::from("item-1")),
        snippet: Some(Snippet {
            published_at: Some(String::from("2020-01-02T03:04:05Z")),
            channel_id: Some(String::from("chan-9")),
            title: Some(String::from("A \"quoted\" \\ title")),
            description: Some(String::from("line one")),
            thumbnails: Some(Thumbnails {
                default: Some(Thumbnail {
                    url: String::from("https://img.example/default.jpg"),
                    width: Some(120),
                    height: Some(90),
                }),
                medium: None,
                high: Some(Thumbnail {
                    url: String::from("https://img.example/high.jpg"),
                    width: None,
                    height: None,
                }),
                standard: None,
                maxres: None,
            }),
            channel_title: Some(String::from("The Channel")),
            live_broadcast_content: Some(String::from("none")),
            playlist_id: Some(String::from("PL77")),
            position: Some(4294967295),
            resource_id: Some(Id {
                kind: String::from("youtube#video"),
                video_id: Some(String::from("vid-7")),
                channel_id: None,
                playlist_id: None,
            }),
        }),
    }
}

#[test]
fn round_trip_full_item() {
    let item = full_item();
    let text = encode_playlist_item(&item);
    let back = decode_playlist_item(&text).unwrap();
    assert_eq!(back, item);
}

#[test]
fn round_trip_minimal_item_keeps_fields_absent() {
    let item = PlaylistItem { kind: String::from("k"), id: None, snippet: None };
    let text = encode_playlist_item(&item);
    assert_eq!(text, "{\"kind\":\"k\"}");
    let back = decode_playlist_item(&text).unwrap();
    assert_eq!(back.id, None);
    assert_eq!(back.snippet, None);
    assert_eq!(back, item);
}

#[test]
fn round_trip_empty_snippet() {
    let item = PlaylistItem {
        kind: String::from("k"),
        id: None,
        snippet: Some(Snippet {
            published_at: None,
            channel_id: None,
            title: None,
            description: None,
            thumbnails: None,
            channel_title: None,
            live_broadcast_content: None,
            playlist_id: None,
            position: None,
            resource_id: None,
        }),
    };
    let text = encode_playlist_item(&item);
    assert_eq!(text, "{\"kind\":\"k\",\"snippet\":{}}");
    assert_eq!(decode_playlist_item(&text).unwrap(), item);
}

#[test]
fn round_trip_widest_number() {
    let item = PlaylistItem {
        kind: String::from("k"),
        id: None,
        snippet: Some(Snippet {
            published_at: None,
            channel_id: None,
            title: None,
            description: None,
            thumbnails: Some(Thumbnails {
                default: Some(Thumbnail {
                    url: String::from("u"),
                    width: Some(18446744073709551615),
                    height: Some(0),
                }),
                medium: None,
                high: None,
                standard: None,
                maxres: None,
            }),
            channel_title: None,
            live_broadcast_content: None,
            playlist_id: None,
            position: None,
            resource_id: None,
        }),
    };
    let text = encode_playlist_item(&item);
    assert!(text.contains("\"width\":18446744073709551615"));
    assert_eq!(decode_playlist_item(&text).unwrap(), item);
}

#[test]
fn decode_rejects_out_of_range_number() {
    // One above the widest representable width.
    let text = "{\"kind\":\"k\",\"snippet\":{\"thumbnails\":{\"default\":\
                {\"url\":\"u\",\"width\":18446744073709551616}}}}";
    assert_eq!(decode_playlist_item(text), None);
}

#[test]
fn decode_rejects_leading_zero() {
    let text = "{\"kind\":\"k\",\"snippet\":{\"position\":007}}";
    assert_eq!(decode_playlist_item(text), None);
}

#[test]
fn decode_rejects_trailing_garbage() {
    assert_eq!(decode_playlist_item("{\"kind\":\"k\"}extra"), None);
}

#[test]
fn decode_rejects_unterminated_string() {
    assert_eq!(decode_playlist_item("{\"kind\":\"k"), None);
}

#[test]
fn decode_page_with_items() {
    let text = "{\"kind\":\"youtube#playlistItemListResponse\",\
                \"nextPageToken\":\"NEXT\",\"prevPageToken\":\"\",\
                \"pageInfo\":{\"totalResults\":2,\"resultsPerPage\":50},\
                \"items\":[{\"kind\":\"youtube#playlistItem\",\"id\":\"a\"},\
                {\"kind\":\"youtube#playlistItem\",\"id\":\"b\",\"snippet\":\
                {\"position\":1}}]}";
    let page = decode_playlist_item_page(text).unwrap();
    assert_eq!(page.kind, "youtube#playlistItemListResponse");
    assert_eq!(page.next_page_token, "NEXT");
    assert_eq!(page.prev_page_token, "");
    assert_eq!(page.page_info.total_results, 2);
    assert_eq!(page.page_info.results_per_page, 50);
    assert_eq!(page.items.len(), 2);
    assert_eq!(page.items[0].id, Some(String::from("a")));
    assert_eq!(page.items[1].id, Some(String::from("b")));
    assert_eq!(page.items[1].snippet.as_ref().unwrap().position, Some(1));
}

#[test]
fn decode_page_empty_items() {
    let text = "{\"kind\":\"kl\",\"nextPageToken\":\"n\",\"prevPageToken\":\"p\",\
                \"pageInfo\":{\"totalResults\":0,\"resultsPerPage\":5},\"items\":[]}";
    let page = decode_playlist_item_page(text).unwrap();
    assert_eq!(page.items.len(), 0);
}

#[test]
fn decode_page_negative_counters() {
    let text = "{\"kind\":\"kl\",\"nextPageToken\":\"n\",\"prevPageToken\":\"p\",\
                \"pageInfo\":{\"totalResults\":-2147483648,\"resultsPerPage\":2147483647},\
                \"items\":[]}";
    let page = decode_playlist_item_page(text).unwrap();
    assert_eq!(page.page_info.total_results, -2147483648);
    assert_eq!(page.page_info.results_per_page, 2147483647);
}

#[test]
fn encoder_escapes_quotes_and_backslashes() {
    let item = PlaylistItem { kind: String::from("a\"b\\c"), id: None, snippet: None };
    let text = encode_playlist_item(&item);
    assert_eq!(text, "{\"kind\":\"a\\\"b\\\\c\"}");
    assert_eq!(decode_playlist_item(&text).unwrap(), item);
}

#[test]
fn decode_accepts_standard_escapes() {
    let item = decode_playlist_item("{\"kind\":\"a\\n\\t\\/\\b\\f\\r\\u0041b\"}").unwrap();
    assert_eq!(item.kind, "a\n\t/\u{0008}\u{000C}\rAb");
}

#[test]
fn decode_accepts_surrogate_pair_escape() {
    let item = decode_playlist_item("{\"kind\":\"\\uD83D\\uDE00\"}").unwrap();
    assert_eq!(item.kind, "\u{1F600}");
}

#[test]
fn decode_rejects_unknown_escape() {
    assert_eq!(decode_playlist_item("{\"kind\":\"a\\qb\"}"), None);
}

#[test]
fn decode_rejects_lone_surrogate_escape() {
    assert_eq!(decode_playlist_item("{\"kind\":\"\\uD83Dx\"}"), None);
}

#[test]
fn decode_accepts_whitespace() {
    let text = " {\n  \"kind\" : \"youtube#playlistItem\" ,\r\n  \"id\" : \"a1\"\n } ";
    let item = decode_playlist_item(text).unwrap();
    assert_eq!(item.kind, "youtube#playlistItem");
    assert_eq!(item.id, Some(String::from("a1")));
}

#[test]
fn decode_accepts_reordered_members() {
    let text = "{\"snippet\":{\"resourceId\":{\"videoId\":\"X\",\"kind\":\"youtube#video\"},\
                \"playlistId\":\"P\"},\"id\":\"a1\",\"kind\":\"youtube#playlistItem\"}";
    let item = decode_playlist_item(text).unwrap();
    assert_eq!(item.kind, "youtube#playlistItem");
    assert_eq!(item.id, Some(String::from("a1")));
    let sn = item.snippet.unwrap();
    assert_eq!(sn.playlist_id, Some(String::from("P")));
    let rid = sn.resource_id.unwrap();
    assert_eq!(rid.kind, "youtube#video");
    assert_eq!(rid.video_id, Some(String::from("X")));
}

#[test]
fn decode_rejects_unknown_member() {
    assert_eq!(decode_playlist_item("{\"kind\":\"k\",\"etag\":\"x\"}"), None);
}

#[test]
fn decode_rejects_duplicate_member() {
    assert_eq!(decode_playlist_item("{\"kind\":\"k\",\"kind\":\"k\"}"), None);
}

#[test]
fn encoder_escapes_control_characters() {
    let item = PlaylistItem { kind: String::from("a\u{0001}b"), id: None, snippet: None };
    let text = encode_playlist_item(&item);
    assert_eq!(text, "{\"kind\":\"a\\u0001b\"}");
    assert_eq!(decode_playlist_item(&text).unwrap(), item);
}
