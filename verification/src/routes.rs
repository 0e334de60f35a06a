//! Handlers for the demonstration front-end. They are kept free of I/O so
//! the embedding web application can mount them on whatever router it uses.

use vstd::prelude::*;
use vstd::string::StringExecFns;

use crate::client::YMusicController;

verus! {

/// Walks the client through its lifecycle on sample values: construction,
/// targeting a playlist, the placeholder search, and building an add
/// request, which is then provably granted.
pub fn example_function() {
    let mut controller = YMusicController::new(String::from_str("example-token"));
    controller.set_playlist_id(String::from_str("example-playlist"));
    let results = controller.search(String::from_str("example"));
    assert(results@.len() == 1);
    let request = controller.build_add_request(String::from_str("example-video"));
    assert(request is Ok);
}

/// Body of the landing route.
pub fn index() -> (r: &'static str)
    ensures
        r@ == "Hello, world!"@,
{
    "Hello, world!"
}

/// Body of the demonstration route that would trigger an add operation.
pub fn add_music() -> (r: &'static str)
    ensures
        r@ == "ADD_MUSIC_LOGIC"@,
{
    "ADD_MUSIC_LOGIC"
}

} // verus!
