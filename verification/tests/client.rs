use youtube_api::client::{ApiError, HttpMethod, YMusicController};
use youtube_api::routes::{add_music, example_function, index};

#[test]
fn example_function_test() {
    example_function();
}

#[test]
fn music_search() {
    let controller = YMusicController::new(String::from("test-token"));
    assert_eq!(vec!["1234"], controller.search(String::from("1234")));
}

#[test]
fn search_echoes_keyword() {
    let controller = YMusicController::new(String::from("tok"));
    let results = controller.search(String::from("some song"));
    assert_eq!(results, vec!["some song".to_string()]);
}

#[test]
fn add_without_playlist_id_is_request_error() {
    let controller = YMusicController::new(String::from("tok"));
    let result = controller.build_add_request(String::from("X"));
    assert_eq!(result, Err(ApiError::RequestError));
}

#[test]
fn list_without_playlist_id_is_request_error() {
    let controller = YMusicController::new(String::from("tok"));
    let result = controller.build_list_request();
    assert_eq!(result, Err(ApiError::RequestError));
}

#[test]
fn add_request_shape() {
    let mut controller = YMusicController::new(String::from("tok"));
    controller.set_playlist_id(String::from("P"));
    let req = controller.build_add_request(String::from("X")).unwrap();
    assert_eq!(req.method, HttpMethod::Post);
    assert_eq!(req.url, "https://www.googleapis.com/youtube/v3/playlistItems");
    assert_eq!(req.query, vec![(String::from("part"), String::from("snippet"))]);
    assert_eq!(req.bearer_token, "tok");
    let body = req.body.unwrap();
    assert_eq!(
        body,
        "{\"kind\":\"youtube#playlistItem\",\"snippet\":{\"playlistId\":\"P\",\
         \"resourceId\":{\"kind\":\"youtube#video\",\"videoId\":\"X\"}}}"
    );
}

#[test]
fn list_request_shape() {
    let mut controller = YMusicController::new(String::from("tok"));
    controller.set_playlist_id(String::from("P"));
    let req = controller.build_list_request().unwrap();
    assert_eq!(req.method, HttpMethod::Get);
    assert_eq!(req.url, "https://www.googleapis.com/youtube/v3/playlistItems");
    assert_eq!(
        req.query,
        vec![
            (String::from("part"), String::from("snippet")),
            (String::from("playlistId"), String::from("P")),
        ]
    );
    assert_eq!(req.bearer_token, "tok");
    assert_eq!(req.body, None);
}

#[test]
fn remote_error_is_never_decode_error() {
    let body = String::from("{\"error\":{\"code\":403,\"message\":\"quota\"}}");
    let result = YMusicController::interpret_add_response(403, body.clone());
    assert_eq!(result, Err(ApiError::RemoteApiError { status: 403, body }));
}

#[test]
fn malformed_success_is_decode_error() {
    let result =
        YMusicController::interpret_add_response(200, String::from("{\"error\":\"nope\"}"));
    assert_eq!(result, Err(ApiError::DecodeError));
}

#[test]
fn list_remote_error_keeps_payload() {
    let body = String::from("{\"error\":{\"code\":401,\"message\":\"bad token\"}}");
    let result = YMusicController::interpret_list_response(401, body.clone());
    assert_eq!(result, Err(ApiError::RemoteApiError { status: 401, body }));
}

#[test]
fn list_malformed_success_is_decode_error() {
    let result = YMusicController::interpret_list_response(204, String::from("not json"));
    assert_eq!(result, Err(ApiError::DecodeError));
}

#[test]
fn end_to_end_add_scenario() {
    let mut controller = YMusicController::new(String::from("tok"));
    controller.set_playlist_id(String::from("PL1"));
    let req = controller.build_add_request(String::from("HhWAQDZX-Vg")).unwrap();
    assert_eq!(req.method, HttpMethod::Post);
    assert_eq!(req.bearer_token, "tok");
    let server_body = String::from(
        "{\"kind\":\"youtube#playlistItem\",\"id\":\"srv123\",\"snippet\":\
         {\"playlistId\":\"PL1\",\"resourceId\":{\"kind\":\"youtube#video\",\
         \"videoId\":\"HhWAQDZX-Vg\"}}}",
    );
    let item = YMusicController::interpret_add_response(200, server_body).unwrap();
    assert_eq!(item.id, Some(String::from("srv123")));
    let snippet = item.snippet.unwrap();
    assert_eq!(snippet.playlist_id, Some(String::from("PL1")));
    let resource = snippet.resource_id.unwrap();
    assert_eq!(resource.video_id, Some(String::from("HhWAQDZX-Vg")));
}

#[test]
fn add_response_accepts_any_json_presentation() {
    let body = String::from(
        "{\n \"snippet\": {\"resourceId\": {\"kind\": \"youtube#video\", \"videoId\": \"HhWAQDZX-Vg\"},\
         \"playlistId\": \"PL1\"},\n \"id\": \"srv123\",\n \"kind\": \"youtube#playlistItem\"\n}\n",
    );
    let item = YMusicController::interpret_add_response(200, body).unwrap();
    assert_eq!(item.id, Some(String::from("srv123")));
    assert_eq!(item.snippet.unwrap().playlist_id, Some(String::from("PL1")));
}

#[test]
fn list_response_accepts_any_json_presentation() {
    let body = String::from(
        "{ \"pageInfo\": {\"resultsPerPage\": 50, \"totalResults\": 1},\
         \"items\": [ {\"id\": \"a\", \"kind\": \"youtube#playlistItem\"} ],\
         \"kind\": \"kl\", \"nextPageToken\": \"N\", \"prevPageToken\": \"\" }",
    );
    let page = YMusicController::interpret_list_response(200, body).unwrap();
    assert_eq!(page.page_info.total_results, 1);
    assert_eq!(page.items.len(), 1);
    assert_eq!(page.items[0].id, Some(String::from("a")));
}

#[test]
fn routes_bodies() {
    assert_eq!(index(), "Hello, world!");
    assert_eq!(add_music(), "ADD_MUSIC_LOGIC");
}
