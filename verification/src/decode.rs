//! JSON wire decoder for the data model.
//!
//! `sp_*` spec functions state the grammar as mathematical recursive-descent
//! parsers over a character sequence and a position; each executable parser
//! is proved to return exactly what its spec function says. The grammar
//! accepts every JSON presentation of the schema's values: insignificant
//! whitespace anywhere between tokens, object members in any order, and the
//! standard string escapes. Unknown members, duplicate members and numbers
//! with a leading zero or a fraction are rejected, as is a member whose
//! value has the wrong type for its key (a `null` counts as a wrong type).

use vstd::prelude::*;
use vstd::string::StrSliceExecFns;

use crate::codec::chars_to_string;
use crate::model::{
    Id, IdView, PlaylistItem, PlaylistItemPage, PlaylistItemPageInfo, PlaylistItemPageInfoView,
    PlaylistItemPageView, PlaylistItemView, Snippet, SnippetView, Thumbnail, ThumbnailView,
    Thumbnails, ThumbnailsView, opt_id_view, opt_snippet_view, opt_thumb_view, opt_thumbs_view,
    opt_view,
};

verus! {

// ---------------------------------------------------------------------------
// Primitives.
// ---------------------------------------------------------------------------

/// The characters of `p` stand in `s` at position `i`.
pub open spec fn match_at(s: Seq<char>, i: int, p: Seq<char>) -> bool {
    0 <= i && i + p.len() <= s.len() && s.subrange(i, i + p.len()) == p
}

/// The character `c` stands at position `i`.
pub open spec fn at(s: Seq<char>, i: int, c: char) -> bool {
    0 <= i && i < s.len() && s[i] == c
}

/// Whether `c` is insignificant whitespace between tokens.
pub open spec fn is_ws(c: char) -> bool {
    c == ' ' || c == '\t' || c == '\n' || c == '\r'
}

/// First position at or after `i` that does not hold whitespace.
pub open spec fn sp_ws(s: Seq<char>, i: int) -> int
    decreases s.len() - i,
{
    if 0 <= i && i < s.len() && is_ws(s[i]) {
        sp_ws(s, i + 1)
    } else {
        i
    }
}

/// Whether `c` is a decimal digit.
pub open spec fn is_digit(c: char) -> bool {
    48 <= c as u32 && c as u32 <= 57
}

/// Value of a digit character.
pub open spec fn digit_val(c: char) -> int {
    c as u32 - 48
}

/// End of the run of digits that starts at `i`.
pub open spec fn digit_run_end(s: Seq<char>, i: int) -> int
    decreases s.len() - i,
{
    if 0 <= i && i < s.len() && is_digit(s[i]) {
        digit_run_end(s, i + 1)
    } else {
        i
    }
}

/// Value of the digits of `s` between `i` and `j`, most significant first.
pub open spec fn val_of_run(s: Seq<char>, i: int, j: int) -> nat
    decreases j - i,
{
    if j <= i {
        0
    } else {
        val_of_run(s, i, j - 1) * 10 + (if is_digit(s[j - 1]) {
            digit_val(s[j - 1]) as nat
        } else {
            0
        })
    }
}

/// The value of a digit run never shrinks as the run extends.
proof fn lemma_val_run_mono(s: Seq<char>, i: int, k: int, j: int)
    requires
        i <= k <= j,
    ensures
        val_of_run(s, i, k) <= val_of_run(s, i, j),
    decreases j - k,
{
    if k < j {
        lemma_val_run_mono(s, i, k, j - 1);
    }
}

/// An unsigned decimal number at `i`: a digit run with no leading zero.
/// Range limits belong to the fields, not to the grammar.
pub open spec fn sp_num(s: Seq<char>, i: int) -> Option<(nat, int)> {
    let j = digit_run_end(s, i);
    if j == i {
        Option::None
    } else if s[i] == '0' && j > i + 1 {
        Option::None
    } else {
        Option::Some((val_of_run(s, i, j), j))
    }
}

/// A signed 32-bit decimal number at `i`.
pub open spec fn sp_i32(s: Seq<char>, i: int) -> Option<(int, int)> {
    if at(s, i, '-') {
        match sp_num(s, i + 1) {
            Option::None => Option::None,
            Option::Some((v, j)) => if 1 <= v && v <= 0x8000_0000 {
                Option::Some((-(v as int), j))
            } else {
                Option::None
            },
        }
    } else {
        match sp_num(s, i) {
            Option::None => Option::None,
            Option::Some((v, j)) => if v <= 0x7fff_ffff {
                Option::Some((v as int, j))
            } else {
                Option::None
            },
        }
    }
}

/// Value of a hexadecimal digit character, or a negative answer.
pub open spec fn hex_val(c: char) -> int {
    if is_digit(c) {
        digit_val(c)
    } else if 97 <= c as u32 && c as u32 <= 102 {
        c as u32 - 87
    } else if 65 <= c as u32 && c as u32 <= 70 {
        c as u32 - 55
    } else {
        -1
    }
}

/// Value of the four hexadecimal digits at `i`, or a negative answer.
pub open spec fn hex4(s: Seq<char>, i: int) -> int {
    if 0 <= i && i + 4 <= s.len() && hex_val(s[i]) >= 0 && hex_val(s[i + 1]) >= 0 && hex_val(
        s[i + 2],
    ) >= 0 && hex_val(s[i + 3]) >= 0 {
        hex_val(s[i]) * 4096 + hex_val(s[i + 1]) * 256 + hex_val(s[i + 2]) * 16 + hex_val(s[i + 3])
    } else {
        -1
    }
}

/// Whether `n` is a Unicode scalar value, so that a character carries it.
pub open spec fn valid_scalar(n: int) -> bool {
    (0 <= n && n < 0xD800) || (0xE000 <= n && n <= 0x10FFFF)
}

/// Prepends a character to a string parse.
pub open spec fn sp_cons(c: char, r: Option<(Seq<char>, int)>) -> Option<(Seq<char>, int)> {
    match r {
        Option::None => Option::None,
        Option::Some((t, j)) => Option::Some((seq![c] + t, j)),
    }
}

/// Body of a JSON string literal from `i` up to its closing quote: the
/// decoded characters and the position after the quote. All the standard
/// escapes are understood, surrogate pairs included.
pub open spec fn sp_str_body(s: Seq<char>, i: int) -> Option<(Seq<char>, int)>
    decreases s.len() - i,
{
    if i < 0 || i >= s.len() {
        Option::None
    } else if s[i] == '"' {
        Option::Some((Seq::empty(), i + 1))
    } else if s[i] == '\\' {
        if i + 1 >= s.len() {
            Option::None
        } else {
            let e = s[i + 1];
            if e == '"' || e == '\\' || e == '/' {
                sp_cons(e, sp_str_body(s, i + 2))
            } else if e == 'b' {
                sp_cons('\u{0008}', sp_str_body(s, i + 2))
            } else if e == 'f' {
                sp_cons('\u{000C}', sp_str_body(s, i + 2))
            } else if e == 'n' {
                sp_cons('\n', sp_str_body(s, i + 2))
            } else if e == 'r' {
                sp_cons('\r', sp_str_body(s, i + 2))
            } else if e == 't' {
                sp_cons('\t', sp_str_body(s, i + 2))
            } else if e == 'u' {
                let h = hex4(s, i + 2);
                if h < 0 {
                    Option::None
                } else if 0xD800 <= h && h < 0xDC00 {
                    if at(s, i + 6, '\\') && at(s, i + 7, 'u') {
                        let l = hex4(s, i + 8);
                        if 0xDC00 <= l && l < 0xE000 {
                            sp_cons(
                                ((0x10000 + (h - 0xD800) * 0x400 + (l - 0xDC00)) as char),
                                sp_str_body(s, i + 12),
                            )
                        } else {
                            Option::None
                        }
                    } else {
                        Option::None
                    }
                } else if 0xDC00 <= h && h < 0xE000 {
                    Option::None
                } else {
                    sp_cons((h as char), sp_str_body(s, i + 6))
                }
            } else {
                Option::None
            }
        }
    } else {
        sp_cons(s[i], sp_str_body(s, i + 1))
    }
}

/// A JSON string literal at `i`.
pub open spec fn sp_str(s: Seq<char>, i: int) -> Option<(Seq<char>, int)> {
    if at(s, i, '"') {
        sp_str_body(s, i + 1)
    } else {
        Option::None
    }
}

/// Dispatches one member of the object by its key.
pub open spec fn sp_id_member(s: Seq<char>, i: int, key: Seq<char>, acc: (Option<Seq<char>>, Option<Seq<char>>, Option<Seq<char>>, Option<Seq<char>>)) -> Option<
    ((Option<Seq<char>>, Option<Seq<char>>, Option<Seq<char>>, Option<Seq<char>>), int),
> {
    if key == "kind"@ {
        if acc.0 is Some {
            Option::None
        } else {
            match sp_str(s, i) {
            Option::None => Option::None,
            Option::Some((v, j)) => Option::Some(((Option::Some(v), acc.1, acc.2, acc.3), j)),
        }
        }
    } else if key == "videoId"@ {
        if acc.1 is Some {
            Option::None
        } else {
            match sp_str(s, i) {
            Option::None => Option::None,
            Option::Some((v, j)) => Option::Some(((acc.0, Option::Some(v), acc.2, acc.3), j)),
        }
        }
    } else if key == "channelId"@ {
        if acc.2 is Some {
            Option::None
        } else {
            match sp_str(s, i) {
            Option::None => Option::None,
            Option::Some((v, j)) => Option::Some(((acc.0, acc.1, Option::Some(v), acc.3), j)),
        }
        }
    } else if key == "playlistId"@ {
        if acc.3 is Some {
            Option::None
        } else {
            match sp_str(s, i) {
            Option::None => Option::None,
            Option::Some((v, j)) => Option::Some(((acc.0, acc.1, acc.2, Option::Some(v)), j)),
        }
        }
    } else {
        Option::None
    }
}

/// The members of the object, from the first key to the closing brace.
pub open spec fn sp_id_members(s: Seq<char>, i: int, acc: (Option<Seq<char>>, Option<Seq<char>>, Option<Seq<char>>, Option<Seq<char>>), fuel: nat) -> Option<
    ((Option<Seq<char>>, Option<Seq<char>>, Option<Seq<char>>, Option<Seq<char>>), int),
>
    decreases fuel,
{
    match sp_str(s, i) {
        Option::None => Option::None,
        Option::Some((key, j1)) => {
            let j2 = sp_ws(s, j1);
            if !at(s, j2, ':') {
                Option::None
            } else {
                let j3 = sp_ws(s, j2 + 1);
                match sp_id_member(s, j3, key, acc) {
                    Option::None => Option::None,
                    Option::Some((acc2, j4)) => {
                        let j5 = sp_ws(s, j4);
                        if at(s, j5, ',') {
                            if fuel == 0 {
                                Option::None
                            } else {
                                sp_id_members(s, sp_ws(s, j5 + 1), acc2, (fuel - 1) as nat)
                            }
                        } else if at(s, j5, '}') {
                            Option::Some((acc2, j5 + 1))
                        } else {
                            Option::None
                        }
                    },
                }
            }
        },
    }
}

/// The parsed record, if every mandatory member appeared.
pub open spec fn sp_id_fin(acc: (Option<Seq<char>>, Option<Seq<char>>, Option<Seq<char>>, Option<Seq<char>>), e: int) -> Option<(IdView, int)> {
    if acc.0 is Some {
        Option::Some((IdView { kind: acc.0->0, video_id: acc.1, channel_id: acc.2, playlist_id: acc.3 }, e))
    } else {
        Option::None
    }
}

/// The whole object.
pub open spec fn sp_id(s: Seq<char>, i: int) -> Option<(IdView, int)> {
    if !at(s, i, '{') {
        Option::None
    } else {
        let j = sp_ws(s, i + 1);
        if at(s, j, '}') {
            sp_id_fin((Option::None, Option::None, Option::None, Option::None), j + 1)
        } else {
            match sp_id_members(s, j, (Option::None, Option::None, Option::None, Option::None), s.len()) {
                Option::None => Option::None,
                Option::Some((acc, e)) => sp_id_fin(acc, e),
            }
        }
    }
}

/// Dispatches one member of the object by its key.
pub open spec fn sp_thumbnail_member(s: Seq<char>, i: int, key: Seq<char>, acc: (Option<Seq<char>>, Option<u64>, Option<u64>)) -> Option<
    ((Option<Seq<char>>, Option<u64>, Option<u64>), int),
> {
    if key == "url"@ {
        if acc.0 is Some {
            Option::None
        } else {
            match sp_str(s, i) {
            Option::None => Option::None,
            Option::Some((v, j)) => Option::Some(((Option::Some(v), acc.1, acc.2), j)),
        }
        }
    } else if key == "width"@ {
        if acc.1 is Some {
            Option::None
        } else {
            match sp_num(s, i) {
            Option::None => Option::None,
            Option::Some((v, j)) => if v <= u64::MAX {
                Option::Some(((acc.0, Option::Some(v as u64), acc.2), j))
            } else {
                Option::None
            },
        }
        }
    } else if key == "height"@ {
        if acc.2 is Some {
            Option::None
        } else {
            match sp_num(s, i) {
            Option::None => Option::None,
            Option::Some((v, j)) => if v <= u64::MAX {
                Option::Some(((acc.0, acc.1, Option::Some(v as u64)), j))
            } else {
                Option::None
            },
        }
        }
    } else {
        Option::None
    }
}

/// The members of the object, from the first key to the closing brace.
pub open spec fn sp_thumbnail_members(s: Seq<char>, i: int, acc: (Option<Seq<char>>, Option<u64>, Option<u64>), fuel: nat) -> Option<
    ((Option<Seq<char>>, Option<u64>, Option<u64>), int),
>
    decreases fuel,
{
    match sp_str(s, i) {
        Option::None => Option::None,
        Option::Some((key, j1)) => {
            let j2 = sp_ws(s, j1);
            if !at(s, j2, ':') {
                Option::None
            } else {
                let j3 = sp_ws(s, j2 + 1);
                match sp_thumbnail_member(s, j3, key, acc) {
                    Option::None => Option::None,
                    Option::Some((acc2, j4)) => {
                        let j5 = sp_ws(s, j4);
                        if at(s, j5, ',') {
                            if fuel == 0 {
                                Option::None
                            } else {
                                sp_thumbnail_members(s, sp_ws(s, j5 + 1), acc2, (fuel - 1) as nat)
                            }
                        } else if at(s, j5, '}') {
                            Option::Some((acc2, j5 + 1))
                        } else {
                            Option::None
                        }
                    },
                }
            }
        },
    }
}

/// The parsed record, if every mandatory member appeared.
pub open spec fn sp_thumbnail_fin(acc: (Option<Seq<char>>, Option<u64>, Option<u64>), e: int) -> Option<(ThumbnailView, int)> {
    if acc.0 is Some {
        Option::Some((ThumbnailView { url: acc.0->0, width: acc.1, height: acc.2 }, e))
    } else {
        Option::None
    }
}

/// The whole object.
pub open spec fn sp_thumbnail(s: Seq<char>, i: int) -> Option<(ThumbnailView, int)> {
    if !at(s, i, '{') {
        Option::None
    } else {
        let j = sp_ws(s, i + 1);
        if at(s, j, '}') {
            sp_thumbnail_fin((Option::None, Option::None, Option::None), j + 1)
        } else {
            match sp_thumbnail_members(s, j, (Option::None, Option::None, Option::None), s.len()) {
                Option::None => Option::None,
                Option::Some((acc, e)) => sp_thumbnail_fin(acc, e),
            }
        }
    }
}

/// Dispatches one member of the object by its key.
pub open spec fn sp_thumbnails_member(s: Seq<char>, i: int, key: Seq<char>, acc: (Option<ThumbnailView>, Option<ThumbnailView>, Option<ThumbnailView>, Option<ThumbnailView>, Option<ThumbnailView>)) -> Option<
    ((Option<ThumbnailView>, Option<ThumbnailView>, Option<ThumbnailView>, Option<ThumbnailView>, Option<ThumbnailView>), int),
> {
    if key == "default"@ {
        if acc.0 is Some {
            Option::None
        } else {
            match sp_thumbnail(s, i) {
            Option::None => Option::None,
            Option::Some((v, j)) => Option::Some(((Option::Some(v), acc.1, acc.2, acc.3, acc.4), j)),
        }
        }
    } else if key == "medium"@ {
        if acc.1 is Some {
            Option::None
        } else {
            match sp_thumbnail(s, i) {
            Option::None => Option::None,
            Option::Some((v, j)) => Option::Some(((acc.0, Option::Some(v), acc.2, acc.3, acc.4), j)),
        }
        }
    } else if key == "high"@ {
        if acc.2 is Some {
            Option::None
        } else {
            match sp_thumbnail(s, i) {
            Option::None => Option::None,
            Option::Some((v, j)) => Option::Some(((acc.0, acc.1, Option::Some(v), acc.3, acc.4), j)),
        }
        }
    } else if key == "standard"@ {
        if acc.3 is Some {
            Option::None
        } else {
            match sp_thumbnail(s, i) {
            Option::None => Option::None,
            Option::Some((v, j)) => Option::Some(((acc.0, acc.1, acc.2, Option::Some(v), acc.4), j)),
        }
        }
    } else if key == "maxres"@ {
        if acc.4 is Some {
            Option::None
        } else {
            match sp_thumbnail(s, i) {
            Option::None => Option::None,
            Option::Some((v, j)) => Option::Some(((acc.0, acc.1, acc.2, acc.3, Option::Some(v)), j)),
        }
        }
    } else {
        Option::None
    }
}

/// The members of the object, from the first key to the closing brace.
pub open spec fn sp_thumbnails_members(s: Seq<char>, i: int, acc: (Option<ThumbnailView>, Option<ThumbnailView>, Option<ThumbnailView>, Option<ThumbnailView>, Option<ThumbnailView>), fuel: nat) -> Option<
    ((Option<ThumbnailView>, Option<ThumbnailView>, Option<ThumbnailView>, Option<ThumbnailView>, Option<ThumbnailView>), int),
>
    decreases fuel,
{
    match sp_str(s, i) {
        Option::None => Option::None,
        Option::Some((key, j1)) => {
            let j2 = sp_ws(s, j1);
            if !at(s, j2, ':') {
                Option::None
            } else {
                let j3 = sp_ws(s, j2 + 1);
                match sp_thumbnails_member(s, j3, key, acc) {
                    Option::None => Option::None,
                    Option::Some((acc2, j4)) => {
                        let j5 = sp_ws(s, j4);
                        if at(s, j5, ',') {
                            if fuel == 0 {
                                Option::None
                            } else {
                                sp_thumbnails_members(s, sp_ws(s, j5 + 1), acc2, (fuel - 1) as nat)
                            }
                        } else if at(s, j5, '}') {
                            Option::Some((acc2, j5 + 1))
                        } else {
                            Option::None
                        }
                    },
                }
            }
        },
    }
}

/// The parsed record, if every mandatory member appeared.
pub open spec fn sp_thumbnails_fin(acc: (Option<ThumbnailView>, Option<ThumbnailView>, Option<ThumbnailView>, Option<ThumbnailView>, Option<ThumbnailView>), e: int) -> Option<(ThumbnailsView, int)> {
    if true {
        Option::Some((ThumbnailsView { default: acc.0, medium: acc.1, high: acc.2, standard: acc.3, maxres: acc.4 }, e))
    } else {
        Option::None
    }
}

/// The whole object.
pub open spec fn sp_thumbnails(s: Seq<char>, i: int) -> Option<(ThumbnailsView, int)> {
    if !at(s, i, '{') {
        Option::None
    } else {
        let j = sp_ws(s, i + 1);
        if at(s, j, '}') {
            sp_thumbnails_fin((Option::None, Option::None, Option::None, Option::None, Option::None), j + 1)
        } else {
            match sp_thumbnails_members(s, j, (Option::None, Option::None, Option::None, Option::None, Option::None), s.len()) {
                Option::None => Option::None,
                Option::Some((acc, e)) => sp_thumbnails_fin(acc, e),
            }
        }
    }
}

/// Dispatches one member of the object by its key.
pub open spec fn sp_snippet_member(s: Seq<char>, i: int, key: Seq<char>, acc: (Option<Seq<char>>, Option<Seq<char>>, Option<Seq<char>>, Option<Seq<char>>, Option<ThumbnailsView>, Option<Seq<char>>, Option<Seq<char>>, Option<Seq<char>>, Option<u32>, Option<IdView>)) -> Option<
    ((Option<Seq<char>>, Option<Seq<char>>, Option<Seq<char>>, Option<Seq<char>>, Option<ThumbnailsView>, Option<Seq<char>>, Option<Seq<char>>, Option<Seq<char>>, Option<u32>, Option<IdView>), int),
> {
    if key == "publishedAt"@ {
        if acc.0 is Some {
            Option::None
        } else {
            match sp_str(s, i) {
            Option::None => Option::None,
            Option::Some((v, j)) => Option::Some(((Option::Some(v), acc.1, acc.2, acc.3, acc.4, acc.5, acc.6, acc.7, acc.8, acc.9), j)),
        }
        }
    } else if key == "channelId"@ {
        if acc.1 is Some {
            Option::None
        } else {
            match sp_str(s, i) {
            Option::None => Option::None,
            Option::Some((v, j)) => Option::Some(((acc.0, Option::Some(v), acc.2, acc.3, acc.4, acc.5, acc.6, acc.7, acc.8, acc.9), j)),
        }
        }
    } else if key == "title"@ {
        if acc.2 is Some {
            Option::None
        } else {
            match sp_str(s, i) {
            Option::None => Option::None,
            Option::Some((v, j)) => Option::Some(((acc.0, acc.1, Option::Some(v), acc.3, acc.4, acc.5, acc.6, acc.7, acc.8, acc.9), j)),
        }
        }
    } else if key == "description"@ {
        if acc.3 is Some {
            Option::None
        } else {
            match sp_str(s, i) {
            Option::None => Option::None,
            Option::Some((v, j)) => Option::Some(((acc.0, acc.1, acc.2, Option::Some(v), acc.4, acc.5, acc.6, acc.7, acc.8, acc.9), j)),
        }
        }
    } else if key == "thumbnails"@ {
        if acc.4 is Some {
            Option::None
        } else {
            match sp_thumbnails(s, i) {
            Option::None => Option::None,
            Option::Some((v, j)) => Option::Some(((acc.0, acc.1, acc.2, acc.3, Option::Some(v), acc.5, acc.6, acc.7, acc.8, acc.9), j)),
        }
        }
    } else if key == "channelTitle"@ {
        if acc.5 is Some {
            Option::None
        } else {
            match sp_str(s, i) {
            Option::None => Option::None,
            Option::Some((v, j)) => Option::Some(((acc.0, acc.1, acc.2, acc.3, acc.4, Option::Some(v), acc.6, acc.7, acc.8, acc.9), j)),
        }
        }
    } else if key == "liveBroadcastContent"@ {
        if acc.6 is Some {
            Option::None
        } else {
            match sp_str(s, i) {
            Option::None => Option::None,
            Option::Some((v, j)) => Option::Some(((acc.0, acc.1, acc.2, acc.3, acc.4, acc.5, Option::Some(v), acc.7, acc.8, acc.9), j)),
        }
        }
    } else if key == "playlistId"@ {
        if acc.7 is Some {
            Option::None
        } else {
            match sp_str(s, i) {
            Option::None => Option::None,
            Option::Some((v, j)) => Option::Some(((acc.0, acc.1, acc.2, acc.3, acc.4, acc.5, acc.6, Option::Some(v), acc.8, acc.9), j)),
        }
        }
    } else if key == "position"@ {
        if acc.8 is Some {
            Option::None
        } else {
            match sp_num(s, i) {
            Option::None => Option::None,
            Option::Some((v, j)) => if v <= u32::MAX {
                Option::Some(((acc.0, acc.1, acc.2, acc.3, acc.4, acc.5, acc.6, acc.7, Option::Some(v as u32), acc.9), j))
            } else {
                Option::None
            },
        }
        }
    } else if key == "resourceId"@ {
        if acc.9 is Some {
            Option::None
        } else {
            match sp_id(s, i) {
            Option::None => Option::None,
            Option::Some((v, j)) => Option::Some(((acc.0, acc.1, acc.2, acc.3, acc.4, acc.5, acc.6, acc.7, acc.8, Option::Some(v)), j)),
        }
        }
    } else {
        Option::None
    }
}

/// The members of the object, from the first key to the closing brace.
pub open spec fn sp_snippet_members(s: Seq<char>, i: int, acc: (Option<Seq<char>>, Option<Seq<char>>, Option<Seq<char>>, Option<Seq<char>>, Option<ThumbnailsView>, Option<Seq<char>>, Option<Seq<char>>, Option<Seq<char>>, Option<u32>, Option<IdView>), fuel: nat) -> Option<
    ((Option<Seq<char>>, Option<Seq<char>>, Option<Seq<char>>, Option<Seq<char>>, Option<ThumbnailsView>, Option<Seq<char>>, Option<Seq<char>>, Option<Seq<char>>, Option<u32>, Option<IdView>), int),
>
    decreases fuel,
{
    match sp_str(s, i) {
        Option::None => Option::None,
        Option::Some((key, j1)) => {
            let j2 = sp_ws(s, j1);
            if !at(s, j2, ':') {
                Option::None
            } else {
                let j3 = sp_ws(s, j2 + 1);
                match sp_snippet_member(s, j3, key, acc) {
                    Option::None => Option::None,
                    Option::Some((acc2, j4)) => {
                        let j5 = sp_ws(s, j4);
                        if at(s, j5, ',') {
                            if fuel == 0 {
                                Option::None
                            } else {
                                sp_snippet_members(s, sp_ws(s, j5 + 1), acc2, (fuel - 1) as nat)
                            }
                        } else if at(s, j5, '}') {
                            Option::Some((acc2, j5 + 1))
                        } else {
                            Option::None
                        }
                    },
                }
            }
        },
    }
}

/// The parsed record, if every mandatory member appeared.
pub open spec fn sp_snippet_fin(acc: (Option<Seq<char>>, Option<Seq<char>>, Option<Seq<char>>, Option<Seq<char>>, Option<ThumbnailsView>, Option<Seq<char>>, Option<Seq<char>>, Option<Seq<char>>, Option<u32>, Option<IdView>), e: int) -> Option<(SnippetView, int)> {
    if true {
        Option::Some((SnippetView { published_at: acc.0, channel_id: acc.1, title: acc.2, description: acc.3, thumbnails: acc.4, channel_title: acc.5, live_broadcast_content: acc.6, playlist_id: acc.7, position: acc.8, resource_id: acc.9 }, e))
    } else {
        Option::None
    }
}

/// The whole object.
pub open spec fn sp_snippet(s: Seq<char>, i: int) -> Option<(SnippetView, int)> {
    if !at(s, i, '{') {
        Option::None
    } else {
        let j = sp_ws(s, i + 1);
        if at(s, j, '}') {
            sp_snippet_fin((Option::None, Option::None, Option::None, Option::None, Option::None, Option::None, Option::None, Option::None, Option::None, Option::None), j + 1)
        } else {
            match sp_snippet_members(s, j, (Option::None, Option::None, Option::None, Option::None, Option::None, Option::None, Option::None, Option::None, Option::None, Option::None), s.len()) {
                Option::None => Option::None,
                Option::Some((acc, e)) => sp_snippet_fin(acc, e),
            }
        }
    }
}

/// Dispatches one member of the object by its key.
pub open spec fn sp_item_member(s: Seq<char>, i: int, key: Seq<char>, acc: (Option<Seq<char>>, Option<Seq<char>>, Option<SnippetView>)) -> Option<
    ((Option<Seq<char>>, Option<Seq<char>>, Option<SnippetView>), int),
> {
    if key == "kind"@ {
        if acc.0 is Some {
            Option::None
        } else {
            match sp_str(s, i) {
            Option::None => Option::None,
            Option::Some((v, j)) => Option::Some(((Option::Some(v), acc.1, acc.2), j)),
        }
        }
    } else if key == "id"@ {
        if acc.1 is Some {
            Option::None
        } else {
            match sp_str(s, i) {
            Option::None => Option::None,
            Option::Some((v, j)) => Option::Some(((acc.0, Option::Some(v), acc.2), j)),
        }
        }
    } else if key == "snippet"@ {
        if acc.2 is Some {
            Option::None
        } else {
            match sp_snippet(s, i) {
            Option::None => Option::None,
            Option::Some((v, j)) => Option::Some(((acc.0, acc.1, Option::Some(v)), j)),
        }
        }
    } else {
        Option::None
    }
}

/// The members of the object, from the first key to the closing brace.
pub open spec fn sp_item_members(s: Seq<char>, i: int, acc: (Option<Seq<char>>, Option<Seq<char>>, Option<SnippetView>), fuel: nat) -> Option<
    ((Option<Seq<char>>, Option<Seq<char>>, Option<SnippetView>), int),
>
    decreases fuel,
{
    match sp_str(s, i) {
        Option::None => Option::None,
        Option::Some((key, j1)) => {
            let j2 = sp_ws(s, j1);
            if !at(s, j2, ':') {
                Option::None
            } else {
                let j3 = sp_ws(s, j2 + 1);
                match sp_item_member(s, j3, key, acc) {
                    Option::None => Option::None,
                    Option::Some((acc2, j4)) => {
                        let j5 = sp_ws(s, j4);
                        if at(s, j5, ',') {
                            if fuel == 0 {
                                Option::None
                            } else {
                                sp_item_members(s, sp_ws(s, j5 + 1), acc2, (fuel - 1) as nat)
                            }
                        } else if at(s, j5, '}') {
                            Option::Some((acc2, j5 + 1))
                        } else {
                            Option::None
                        }
                    },
                }
            }
        },
    }
}

/// The parsed record, if every mandatory member appeared.
pub open spec fn sp_item_fin(acc: (Option<Seq<char>>, Option<Seq<char>>, Option<SnippetView>), e: int) -> Option<(PlaylistItemView, int)> {
    if acc.0 is Some {
        Option::Some((PlaylistItemView { kind: acc.0->0, id: acc.1, snippet: acc.2 }, e))
    } else {
        Option::None
    }
}

/// The whole object.
pub open spec fn sp_item(s: Seq<char>, i: int) -> Option<(PlaylistItemView, int)> {
    if !at(s, i, '{') {
        Option::None
    } else {
        let j = sp_ws(s, i + 1);
        if at(s, j, '}') {
            sp_item_fin((Option::None, Option::None, Option::None), j + 1)
        } else {
            match sp_item_members(s, j, (Option::None, Option::None, Option::None), s.len()) {
                Option::None => Option::None,
                Option::Some((acc, e)) => sp_item_fin(acc, e),
            }
        }
    }
}

/// Dispatches one member of the object by its key.
pub open spec fn sp_page_info_member(s: Seq<char>, i: int, key: Seq<char>, acc: (Option<i32>, Option<i32>)) -> Option<
    ((Option<i32>, Option<i32>), int),
> {
    if key == "totalResults"@ {
        if acc.0 is Some {
            Option::None
        } else {
            match sp_i32(s, i) {
            Option::None => Option::None,
            Option::Some((v, j)) => Option::Some(((Option::Some(v as i32), acc.1), j)),
        }
        }
    } else if key == "resultsPerPage"@ {
        if acc.1 is Some {
            Option::None
        } else {
            match sp_i32(s, i) {
            Option::None => Option::None,
            Option::Some((v, j)) => Option::Some(((acc.0, Option::Some(v as i32)), j)),
        }
        }
    } else {
        Option::None
    }
}

/// The members of the object, from the first key to the closing brace.
pub open spec fn sp_page_info_members(s: Seq<char>, i: int, acc: (Option<i32>, Option<i32>), fuel: nat) -> Option<
    ((Option<i32>, Option<i32>), int),
>
    decreases fuel,
{
    match sp_str(s, i) {
        Option::None => Option::None,
        Option::Some((key, j1)) => {
            let j2 = sp_ws(s, j1);
            if !at(s, j2, ':') {
                Option::None
            } else {
                let j3 = sp_ws(s, j2 + 1);
                match sp_page_info_member(s, j3, key, acc) {
                    Option::None => Option::None,
                    Option::Some((acc2, j4)) => {
                        let j5 = sp_ws(s, j4);
                        if at(s, j5, ',') {
                            if fuel == 0 {
                                Option::None
                            } else {
                                sp_page_info_members(s, sp_ws(s, j5 + 1), acc2, (fuel - 1) as nat)
                            }
                        } else if at(s, j5, '}') {
                            Option::Some((acc2, j5 + 1))
                        } else {
                            Option::None
                        }
                    },
                }
            }
        },
    }
}

/// The parsed record, if every mandatory member appeared.
pub open spec fn sp_page_info_fin(acc: (Option<i32>, Option<i32>), e: int) -> Option<(PlaylistItemPageInfoView, int)> {
    if acc.0 is Some && acc.1 is Some {
        Option::Some((PlaylistItemPageInfoView { total_results: acc.0->0, results_per_page: acc.1->0 }, e))
    } else {
        Option::None
    }
}

/// The whole object.
pub open spec fn sp_page_info(s: Seq<char>, i: int) -> Option<(PlaylistItemPageInfoView, int)> {
    if !at(s, i, '{') {
        Option::None
    } else {
        let j = sp_ws(s, i + 1);
        if at(s, j, '}') {
            sp_page_info_fin((Option::None, Option::None), j + 1)
        } else {
            match sp_page_info_members(s, j, (Option::None, Option::None), s.len()) {
                Option::None => Option::None,
                Option::Some((acc, e)) => sp_page_info_fin(acc, e),
            }
        }
    }
}

/// The items of an array after the opening bracket, value by value.
pub open spec fn sp_items_rest(
    s: Seq<char>,
    i: int,
    acc: Seq<PlaylistItemView>,
    fuel: nat,
) -> Option<(Seq<PlaylistItemView>, int)>
    decreases fuel,
{
    match sp_item(s, i) {
        Option::None => Option::None,
        Option::Some((v, j)) => {
            let j2 = sp_ws(s, j);
            if at(s, j2, ',') {
                if fuel == 0 {
                    Option::None
                } else {
                    sp_items_rest(s, sp_ws(s, j2 + 1), acc.push(v), (fuel - 1) as nat)
                }
            } else if at(s, j2, ']') {
                Option::Some((acc.push(v), j2 + 1))
            } else {
                Option::None
            }
        },
    }
}

/// An array of playlist items.
pub open spec fn sp_items(s: Seq<char>, i: int) -> Option<(Seq<PlaylistItemView>, int)> {
    if !at(s, i, '[') {
        Option::None
    } else {
        let j = sp_ws(s, i + 1);
        if at(s, j, ']') {
            Option::Some((Seq::empty(), j + 1))
        } else {
            sp_items_rest(s, j, Seq::empty(), s.len())
        }
    }
}

/// Dispatches one member of the object by its key.
pub open spec fn sp_page_member(s: Seq<char>, i: int, key: Seq<char>, acc: (Option<Seq<char>>, Option<Seq<char>>, Option<Seq<char>>, Option<PlaylistItemPageInfoView>, Option<Seq<PlaylistItemView>>)) -> Option<
    ((Option<Seq<char>>, Option<Seq<char>>, Option<Seq<char>>, Option<PlaylistItemPageInfoView>, Option<Seq<PlaylistItemView>>), int),
> {
    if key == "kind"@ {
        if acc.0 is Some {
            Option::None
        } else {
            match sp_str(s, i) {
            Option::None => Option::None,
            Option::Some((v, j)) => Option::Some(((Option::Some(v), acc.1, acc.2, acc.3, acc.4), j)),
        }
        }
    } else if key == "nextPageToken"@ {
        if acc.1 is Some {
            Option::None
        } else {
            match sp_str(s, i) {
            Option::None => Option::None,
            Option::Some((v, j)) => Option::Some(((acc.0, Option::Some(v), acc.2, acc.3, acc.4), j)),
        }
        }
    } else if key == "prevPageToken"@ {
        if acc.2 is Some {
            Option::None
        } else {
            match sp_str(s, i) {
            Option::None => Option::None,
            Option::Some((v, j)) => Option::Some(((acc.0, acc.1, Option::Some(v), acc.3, acc.4), j)),
        }
        }
    } else if key == "pageInfo"@ {
        if acc.3 is Some {
            Option::None
        } else {
            match sp_page_info(s, i) {
            Option::None => Option::None,
            Option::Some((v, j)) => Option::Some(((acc.0, acc.1, acc.2, Option::Some(v), acc.4), j)),
        }
        }
    } else if key == "items"@ {
        if acc.4 is Some {
            Option::None
        } else {
            match sp_items(s, i) {
            Option::None => Option::None,
            Option::Some((v, j)) => Option::Some(((acc.0, acc.1, acc.2, acc.3, Option::Some(v)), j)),
        }
        }
    } else {
        Option::None
    }
}

/// The members of the object, from the first key to the closing brace.
pub open spec fn sp_page_members(s: Seq<char>, i: int, acc: (Option<Seq<char>>, Option<Seq<char>>, Option<Seq<char>>, Option<PlaylistItemPageInfoView>, Option<Seq<PlaylistItemView>>), fuel: nat) -> Option<
    ((Option<Seq<char>>, Option<Seq<char>>, Option<Seq<char>>, Option<PlaylistItemPageInfoView>, Option<Seq<PlaylistItemView>>), int),
>
    decreases fuel,
{
    match sp_str(s, i) {
        Option::None => Option::None,
        Option::Some((key, j1)) => {
            let j2 = sp_ws(s, j1);
            if !at(s, j2, ':') {
                Option::None
            } else {
                let j3 = sp_ws(s, j2 + 1);
                match sp_page_member(s, j3, key, acc) {
                    Option::None => Option::None,
                    Option::Some((acc2, j4)) => {
                        let j5 = sp_ws(s, j4);
                        if at(s, j5, ',') {
                            if fuel == 0 {
                                Option::None
                            } else {
                                sp_page_members(s, sp_ws(s, j5 + 1), acc2, (fuel - 1) as nat)
                            }
                        } else if at(s, j5, '}') {
                            Option::Some((acc2, j5 + 1))
                        } else {
                            Option::None
                        }
                    },
                }
            }
        },
    }
}

/// The parsed record, if every mandatory member appeared.
pub open spec fn sp_page_fin(acc: (Option<Seq<char>>, Option<Seq<char>>, Option<Seq<char>>, Option<PlaylistItemPageInfoView>, Option<Seq<PlaylistItemView>>), e: int) -> Option<(PlaylistItemPageView, int)> {
    if acc.0 is Some && acc.1 is Some && acc.2 is Some && acc.3 is Some && acc.4 is Some {
        Option::Some((PlaylistItemPageView { kind: acc.0->0, next_page_token: acc.1->0, prev_page_token: acc.2->0, page_info: acc.3->0, items: acc.4->0 }, e))
    } else {
        Option::None
    }
}

/// The whole object.
pub open spec fn sp_page(s: Seq<char>, i: int) -> Option<(PlaylistItemPageView, int)> {
    if !at(s, i, '{') {
        Option::None
    } else {
        let j = sp_ws(s, i + 1);
        if at(s, j, '}') {
            sp_page_fin((Option::None, Option::None, Option::None, Option::None, Option::None), j + 1)
        } else {
            match sp_page_members(s, j, (Option::None, Option::None, Option::None, Option::None, Option::None), s.len()) {
                Option::None => Option::None,
                Option::Some((acc, e)) => sp_page_fin(acc, e),
            }
        }
    }
}

/// Result of decoding a whole text as a playlist item: one item value with
/// nothing but whitespace around it.
pub open spec fn parse_item_text(t: Seq<char>) -> Option<PlaylistItemView> {
    match sp_item(t, sp_ws(t, 0)) {
        Option::Some((v, j)) => if sp_ws(t, j) == t.len() {
            Option::Some(v)
        } else {
            Option::None
        },
        Option::None => Option::None,
    }
}

/// Result of decoding a whole text as a playlist page.
pub open spec fn parse_page_text(t: Seq<char>) -> Option<PlaylistItemPageView> {
    match sp_page(t, sp_ws(t, 0)) {
        Option::Some((v, j)) => if sp_ws(t, j) == t.len() {
            Option::Some(v)
        } else {
            Option::None
        },
        Option::None => Option::None,
    }
}

/// View of optional pagination counters.
pub open spec fn opt_pinfo_view(x: Option<PlaylistItemPageInfo>) -> Option<
    PlaylistItemPageInfoView,
> {
    match x {
        Option::Some(v) => Option::Some(v@),
        Option::None => Option::None,
    }
}

/// View of an optional item list.
pub open spec fn opt_items_view(x: Option<Vec<PlaylistItem>>) -> Option<Seq<PlaylistItemView>> {
    match x {
        Option::Some(v) => Option::Some(v@.map_values(|it: PlaylistItem| it@)),
        Option::None => Option::None,
    }
}

// ---------------------------------------------------------------------------
// Executable decoder.
// ---------------------------------------------------------------------------

/// Whitespace test on one character.
fn is_ws_exec(c: char) -> (b: bool)
    ensures
        b == is_ws(c),
{
    c == ' ' || c == '\t' || c == '\n' || c == '\r'
}

/// Digit test on one character.
fn is_digit_exec(c: char) -> (b: bool)
    ensures
        b == is_digit(c),
{
    let u = c as u32;
    48 <= u && u <= 57
}

/// Skips whitespace.
fn p_ws(s: &str, i: usize) -> (j: usize)
    requires
        i <= s@.len(),
        s@.len() <= usize::MAX,
    ensures
        j as int == sp_ws(s@, i as int),
        i <= j <= s@.len(),
{
    let sl = s.unicode_len();
    let mut j: usize = i;
    while j < sl && is_ws_exec(s.get_char(j))
        invariant
            i <= j <= sl,
            sl == s@.len(),
            sp_ws(s@, i as int) == sp_ws(s@, j as int),
        decreases sl - j,
    {
        proof {
            assert(sp_ws(s@, j as int) == sp_ws(s@, j + 1));
        }
        j += 1;
    }
    proof {
        assert(sp_ws(s@, j as int) == j as int);
    }
    j
}

/// Reads an unsigned decimal number. Values beyond the widest field are
/// reported as absent, which every field's range check turns into a refusal.
fn p_num(s: &str, i: usize) -> (r: Option<(u64, usize)>)
    requires
        i <= s@.len(),
        s@.len() <= usize::MAX,
    ensures
        ({
            let m = sp_num(s@, i as int);
            match (r, m) {
                (Option::None, Option::None) => true,
                (Option::None, Option::Some((mv, mj))) => mv > u64::MAX,
                (Option::Some((v, j)), Option::Some((mv, mj))) => v as nat == mv && j as int == mj
                    && j <= s@.len(),
                _ => false,
            }
        }),
{
    let sl = s.unicode_len();
    let mut j: usize = i;
    while j < sl && is_digit_exec(s.get_char(j))
        invariant
            i <= j <= sl,
            sl == s@.len(),
            digit_run_end(s@, i as int) == digit_run_end(s@, j as int),
            forall|t: int| i <= t < j ==> is_digit(s@[t]),
        decreases sl - j,
    {
        proof {
            assert(digit_run_end(s@, j as int) == digit_run_end(s@, j + 1));
        }
        j += 1;
    }
    proof {
        assert(digit_run_end(s@, j as int) == j as int);
    }
    if j == i {
        return Option::None;
    }
    if s.get_char(i) == '0' && j > i + 1 {
        return Option::None;
    }
    let mut acc: u64 = 0;
    let mut k: usize = i;
    while k < j
        invariant
            i <= k <= j,
            j <= sl,
            sl == s@.len(),
            digit_run_end(s@, i as int) == j as int,
            forall|t: int| i <= t < j ==> is_digit(s@[t]),
            acc as nat == val_of_run(s@, i as int, k as int),
        decreases j - k,
    {
        let c = s.get_char(k);
        let u = c as u32;
        proof {
            assert(is_digit(s@[k as int]));
        }
        let d = (u - 48) as u64;
        if acc > (u64::MAX - d) / 10 {
            proof {
                assert((acc as nat) * 10 + d as nat > u64::MAX) by (nonlinear_arith)
                    requires
                        acc as nat > (u64::MAX - d as nat) / 10,
                        (d as nat) < 10,
                ;
                assert(val_of_run(s@, i as int, k + 1) == (acc as nat) * 10 + digit_val(
                    s@[k as int],
                ));
                lemma_val_run_mono(s@, i as int, k + 1, j as int);
            }
            return Option::None;
        }
        acc = acc * 10 + d;
        proof {
            assert(acc as nat == val_of_run(s@, i as int, k + 1));
        }
        k += 1;
    }
    Option::Some((acc, j))
}

/// Reads a signed 32-bit decimal number.
fn p_i32(s: &str, i: usize) -> (r: Option<(i32, usize)>)
    requires
        i <= s@.len(),
        s@.len() <= usize::MAX,
    ensures
        ({
            let m = sp_i32(s@, i as int);
            match (r, m) {
                (Option::None, Option::None) => true,
                (Option::Some((v, j)), Option::Some((mv, mj))) => v as int == mv && j as int == mj
                    && j <= s@.len(),
                _ => false,
            }
        }),
{
    let sl = s.unicode_len();
    if i < sl && s.get_char(i) == '-' {
        match p_num(s, i + 1) {
            Option::None => Option::None,
            Option::Some((n, j)) => if 1 <= n && n <= 0x8000_0000u64 {
                let v: i32 = if n == 0x8000_0000u64 {
                    i32::MIN
                } else {
                    -(n as i32)
                };
                Option::Some((v, j))
            } else {
                Option::None
            },
        }
    } else {
        match p_num(s, i) {
            Option::None => Option::None,
            Option::Some((n, j)) => if n <= 0x7fff_ffffu64 {
                Option::Some((n as i32, j))
            } else {
                Option::None
            },
        }
    }
}

/// Value of a hexadecimal digit character.
fn hex_val_exec(c: char) -> (r: Option<u32>)
    ensures
        r matches Some(d) ==> d as int == hex_val(c) && d < 16,
        r is None ==> hex_val(c) < 0,
{
    let u = c as u32;
    if 48 <= u && u <= 57 {
        Option::Some(u - 48)
    } else if 97 <= u && u <= 102 {
        Option::Some(u - 87)
    } else if 65 <= u && u <= 70 {
        Option::Some(u - 55)
    } else {
        Option::None
    }
}

/// Reads four hexadecimal digits.
fn p_hex4(s: &str, i: usize) -> (r: Option<u32>)
    requires
        i <= s@.len(),
        s@.len() <= usize::MAX,
    ensures
        (r is Some) == (hex4(s@, i as int) >= 0),
        r matches Some(h) ==> h as int == hex4(s@, i as int) && h <= 0xFFFF,
{
    let sl = s.unicode_len();
    if sl - i < 4 {
        return Option::None;
    }
    let d0 = hex_val_exec(s.get_char(i));
    let d1 = hex_val_exec(s.get_char(i + 1));
    let d2 = hex_val_exec(s.get_char(i + 2));
    let d3 = hex_val_exec(s.get_char(i + 3));
    match (d0, d1, d2, d3) {
        (Option::Some(a), Option::Some(b), Option::Some(c), Option::Some(d)) => Option::Some(
            a * 4096 + b * 256 + c * 16 + d,
        ),
        _ => Option::None,
    }
}

/// Converts a code point to its character.
///
/// Relies on char::from_u32: the conversion succeeds exactly for Unicode
/// scalar values (not a surrogate, at most 0x10FFFF) and yields the
/// character with that code.
#[verifier::external_body]
fn char_from_u32(code: u32) -> (r: Option<char>)
    ensures
        (r is Some) == valid_scalar(code as int),
        r matches Some(c) ==> c == ((code as int) as char) && c as u32 == code,
{
    char::from_u32(code)
}

/// Reads the body of a string literal up to its closing quote.
fn p_str_body(s: &str, i: usize) -> (r: Option<(Vec<char>, usize)>)
    requires
        i <= s@.len(),
        s@.len() <= usize::MAX,
    ensures
        ({
            let m = sp_str_body(s@, i as int);
            match (r, m) {
                (Option::None, Option::None) => true,
                (Option::Some((v, j)), Option::Some((mv, mj))) => v@ == mv && j as int == mj && j
                    <= s@.len(),
                _ => false,
            }
        }),
    decreases s@.len() - i,
{
    let sl = s.unicode_len();
    if i >= sl {
        return Option::None;
    }
    let c = s.get_char(i);
    if c == '"' {
        let v: Vec<char> = Vec::new();
        proof {
            assert(v@ =~= Seq::<char>::empty());
        }
        return Option::Some((v, i + 1));
    }
    if c != '\\' {
        return match p_str_body(s, i + 1) {
            Option::None => Option::None,
            Option::Some((mut t, j)) => {
                let ghost t0 = t@;
                t.insert(0, c);
                proof {
                    assert(t@ =~= seq![s@[i as int]] + t0);
                }
                Option::Some((t, j))
            },
        };
    }
    if i + 1 >= sl {
        return Option::None;
    }
    let e = s.get_char(i + 1);
    if e == '"' || e == '\\' || e == '/' || e == 'b' || e == 'f' || e == 'n' || e == 'r' || e == 't'
    {
        let d: char = if e == 'b' {
            '\u{0008}'
        } else if e == 'f' {
            '\u{000C}'
        } else if e == 'n' {
            '\n'
        } else if e == 'r' {
            '\r'
        } else if e == 't' {
            '\t'
        } else {
            e
        };
        return match p_str_body(s, i + 2) {
            Option::None => Option::None,
            Option::Some((mut t, j)) => {
                let ghost t0 = t@;
                t.insert(0, d);
                proof {
                    assert(t@ =~= seq![d] + t0);
                }
                Option::Some((t, j))
            },
        };
    }
    if e != 'u' {
        return Option::None;
    }
    match p_hex4(s, i + 2) {
        Option::None => Option::None,
        Option::Some(h) => {
            if 0xD800 <= h && h < 0xDC00 {
                let j6 = i + 6;
                if j6 < sl && s.get_char(j6) == '\\' && j6 + 1 < sl && s.get_char(j6 + 1)
                    == 'u' {
                    match p_hex4(s, i + 8) {
                        Option::None => Option::None,
                        Option::Some(l) => {
                            if 0xDC00 <= l && l < 0xE000 {
                                let code: u32 = 0x10000 + (h - 0xD800) * 0x400 + (l - 0xDC00);
                                match char_from_u32(code) {
                                    Option::None => Option::None,
                                    Option::Some(d) => match p_str_body(s, i + 12) {
                                        Option::None => Option::None,
                                        Option::Some((mut t, j)) => {
                                            let ghost t0 = t@;
                                            t.insert(0, d);
                                            proof {
                                                assert(t@ =~= seq![d] + t0);
                                            }
                                            Option::Some((t, j))
                                        },
                                    },
                                }
                            } else {
                                Option::None
                            }
                        },
                    }
                } else {
                    Option::None
                }
            } else if 0xDC00 <= h && h < 0xE000 {
                Option::None
            } else {
                match char_from_u32(h) {
                    Option::None => Option::None,
                    Option::Some(d) => match p_str_body(s, i + 6) {
                        Option::None => Option::None,
                        Option::Some((mut t, j)) => {
                            let ghost t0 = t@;
                            t.insert(0, d);
                            proof {
                                assert(t@ =~= seq![d] + t0);
                            }
                            Option::Some((t, j))
                        },
                    },
                }
            }
        },
    }
}

/// Reads a string literal.
fn p_str(s: &str, i: usize) -> (r: Option<(Vec<char>, usize)>)
    requires
        i <= s@.len(),
        s@.len() <= usize::MAX,
    ensures
        ({
            let m = sp_str(s@, i as int);
            match (r, m) {
                (Option::None, Option::None) => true,
                (Option::Some((v, j)), Option::Some((mv, mj))) => v@ == mv && j as int == mj && j
                    <= s@.len(),
                _ => false,
            }
        }),
{
    let sl = s.unicode_len();
    if i < sl && s.get_char(i) == '"' {
        p_str_body(s, i + 1)
    } else {
        Option::None
    }
}

/// Compares collected characters with a key name.
fn chars_eq(v: &Vec<char>, lit: &str) -> (b: bool)
    ensures
        b == (v@ == lit@),
{
    let n = lit.unicode_len();
    if v.len() != n {
        proof {
            assert(v@ != lit@);
        }
        return false;
    }
    let mut k: usize = 0;
    while k < n
        invariant
            k <= n,
            n == lit@.len(),
            v@.len() == n,
            forall|t: int| 0 <= t < k ==> v@[t] == lit@[t],
        decreases n - k,
    {
        if v[k] != lit.get_char(k) {
            return false;
        }
        k += 1;
    }
    proof {
        assert(v@ =~= lit@);
    }
    true
}

/// Mathematical view of the partial record.
pub open spec fn id_acc_view(a: (Option<String>, Option<String>, Option<String>, Option<String>)) -> (Option<Seq<char>>, Option<Seq<char>>, Option<Seq<char>>, Option<Seq<char>>) {
    (opt_view(a.0), opt_view(a.1), opt_view(a.2), opt_view(a.3))
}

/// Dispatches one member of the object by its key.
fn p_id_member(s: &str, i: usize, key: &Vec<char>, acc: (Option<String>, Option<String>, Option<String>, Option<String>)) -> (r: Option<
    ((Option<String>, Option<String>, Option<String>, Option<String>), usize),
>)
    requires
        i <= s@.len(),
        s@.len() <= usize::MAX,
    ensures
        ({
            let m = sp_id_member(s@, i as int, key@, id_acc_view(acc));
            match (r, m) {
                (Option::None, Option::None) => true,
                (Option::Some((a, j)), Option::Some((ma, mj))) => id_acc_view(a) == ma && j
                    as int == mj && j <= s@.len(),
                _ => false,
            }
        }),
{
    if chars_eq(key, "kind") {
        if acc.0.is_some() {
            Option::None
        } else {
            match p_str(s, i) {
                Option::None => Option::None,
                Option::Some((cs, j)) => Option::Some(
                    ((Option::Some(chars_to_string(&cs)), acc.1, acc.2, acc.3), j),
                ),
            }
        }
    } else if chars_eq(key, "videoId") {
        if acc.1.is_some() {
            Option::None
        } else {
            match p_str(s, i) {
                Option::None => Option::None,
                Option::Some((cs, j)) => Option::Some(
                    ((acc.0, Option::Some(chars_to_string(&cs)), acc.2, acc.3), j),
                ),
            }
        }
    } else if chars_eq(key, "channelId") {
        if acc.2.is_some() {
            Option::None
        } else {
            match p_str(s, i) {
                Option::None => Option::None,
                Option::Some((cs, j)) => Option::Some(
                    ((acc.0, acc.1, Option::Some(chars_to_string(&cs)), acc.3), j),
                ),
            }
        }
    } else if chars_eq(key, "playlistId") {
        if acc.3.is_some() {
            Option::None
        } else {
            match p_str(s, i) {
                Option::None => Option::None,
                Option::Some((cs, j)) => Option::Some(
                    ((acc.0, acc.1, acc.2, Option::Some(chars_to_string(&cs))), j),
                ),
            }
        }
    } else {
        Option::None
    }
}

/// Reads the members of the object, from the first key to the closing brace.
fn p_id_members(s: &str, i: usize, acc: (Option<String>, Option<String>, Option<String>, Option<String>), fuel: usize) -> (r: Option<
    ((Option<String>, Option<String>, Option<String>, Option<String>), usize),
>)
    requires
        i <= s@.len(),
        s@.len() <= usize::MAX,
    ensures
        ({
            let m = sp_id_members(s@, i as int, id_acc_view(acc), fuel as nat);
            match (r, m) {
                (Option::None, Option::None) => true,
                (Option::Some((a, j)), Option::Some((ma, mj))) => id_acc_view(a) == ma && j
                    as int == mj && j <= s@.len(),
                _ => false,
            }
        }),
    decreases fuel,
{
    let sl = s.unicode_len();
    match p_str(s, i) {
        Option::None => Option::None,
        Option::Some((key, j1)) => {
            let j2 = p_ws(s, j1);
            if !(j2 < sl && s.get_char(j2) == ':') {
                return Option::None;
            }
            let j3 = p_ws(s, j2 + 1);
            match p_id_member(s, j3, &key, acc) {
                Option::None => Option::None,
                Option::Some((acc2, j4)) => {
                    let j5 = p_ws(s, j4);
                    if j5 < sl && s.get_char(j5) == ',' {
                        if fuel == 0 {
                            Option::None
                        } else {
                            let j6 = p_ws(s, j5 + 1);
                            p_id_members(s, j6, acc2, fuel - 1)
                        }
                    } else if j5 < sl && s.get_char(j5) == '}' {
                        Option::Some((acc2, j5 + 1))
                    } else {
                        Option::None
                    }
                },
            }
        },
    }
}

/// Builds the record once every mandatory member appeared.
fn p_id_fin(a: (Option<String>, Option<String>, Option<String>, Option<String>), e: usize) -> (r: Option<(Id, usize)>)
    ensures
        ({
            let m = sp_id_fin(id_acc_view(a), e as int);
            match (r, m) {
                (Option::None, Option::None) => true,
                (Option::Some((v, j)), Option::Some((mv, mj))) => v@ == mv && j as int == mj,
                _ => false,
            }
        }),
{
    match a.0 {
            Option::None => Option::None,
            Option::Some(x0) => {
                let v = Id { kind: x0, video_id: a.1, channel_id: a.2, playlist_id: a.3 };
            Option::Some((v, e))
            },
        }
}

/// Reads the whole object.
fn p_id(s: &str, i: usize) -> (r: Option<(Id, usize)>)
    requires
        i <= s@.len(),
        s@.len() <= usize::MAX,
    ensures
        ({
            let m = sp_id(s@, i as int);
            match (r, m) {
                (Option::None, Option::None) => true,
                (Option::Some((v, j)), Option::Some((mv, mj))) => v@ == mv && j as int == mj && j
                    <= s@.len(),
                _ => false,
            }
        }),
{
    let sl = s.unicode_len();
    if !(i < sl) {
        return Option::None;
    }
    if s.get_char(i) != '{' {
        return Option::None;
    }
    let j = p_ws(s, i + 1);
    if j < sl && s.get_char(j) == '}' {
        return p_id_fin((Option::None, Option::None, Option::None, Option::None), j + 1);
    }
    match p_id_members(s, j, (Option::None, Option::None, Option::None, Option::None), sl) {
        Option::None => Option::None,
        Option::Some((a, e)) => p_id_fin(a, e),
    }
}

/// Mathematical view of the partial record.
pub open spec fn thumbnail_acc_view(a: (Option<String>, Option<u64>, Option<u64>)) -> (Option<Seq<char>>, Option<u64>, Option<u64>) {
    (opt_view(a.0), a.1, a.2)
}

/// Dispatches one member of the object by its key.
fn p_thumbnail_member(s: &str, i: usize, key: &Vec<char>, acc: (Option<String>, Option<u64>, Option<u64>)) -> (r: Option<
    ((Option<String>, Option<u64>, Option<u64>), usize),
>)
    requires
        i <= s@.len(),
        s@.len() <= usize::MAX,
    ensures
        ({
            let m = sp_thumbnail_member(s@, i as int, key@, thumbnail_acc_view(acc));
            match (r, m) {
                (Option::None, Option::None) => true,
                (Option::Some((a, j)), Option::Some((ma, mj))) => thumbnail_acc_view(a) == ma && j
                    as int == mj && j <= s@.len(),
                _ => false,
            }
        }),
{
    if chars_eq(key, "url") {
        if acc.0.is_some() {
            Option::None
        } else {
            match p_str(s, i) {
                Option::None => Option::None,
                Option::Some((cs, j)) => Option::Some(
                    ((Option::Some(chars_to_string(&cs)), acc.1, acc.2), j),
                ),
            }
        }
    } else if chars_eq(key, "width") {
        if acc.1.is_some() {
            Option::None
        } else {
            match p_num(s, i) {
                Option::None => Option::None,
                Option::Some((nv, j)) => Option::Some(((acc.0, Option::Some(nv), acc.2), j)),
            }
        }
    } else if chars_eq(key, "height") {
        if acc.2.is_some() {
            Option::None
        } else {
            match p_num(s, i) {
                Option::None => Option::None,
                Option::Some((nv, j)) => Option::Some(((acc.0, acc.1, Option::Some(nv)), j)),
            }
        }
    } else {
        Option::None
    }
}

/// Reads the members of the object, from the first key to the closing brace.
fn p_thumbnail_members(s: &str, i: usize, acc: (Option<String>, Option<u64>, Option<u64>), fuel: usize) -> (r: Option<
    ((Option<String>, Option<u64>, Option<u64>), usize),
>)
    requires
        i <= s@.len(),
        s@.len() <= usize::MAX,
    ensures
        ({
            let m = sp_thumbnail_members(s@, i as int, thumbnail_acc_view(acc), fuel as nat);
            match (r, m) {
                (Option::None, Option::None) => true,
                (Option::Some((a, j)), Option::Some((ma, mj))) => thumbnail_acc_view(a) == ma && j
                    as int == mj && j <= s@.len(),
                _ => false,
            }
        }),
    decreases fuel,
{
    let sl = s.unicode_len();
    match p_str(s, i) {
        Option::None => Option::None,
        Option::Some((key, j1)) => {
            let j2 = p_ws(s, j1);
            if !(j2 < sl && s.get_char(j2) == ':') {
                return Option::None;
            }
            let j3 = p_ws(s, j2 + 1);
            match p_thumbnail_member(s, j3, &key, acc) {
                Option::None => Option::None,
                Option::Some((acc2, j4)) => {
                    let j5 = p_ws(s, j4);
                    if j5 < sl && s.get_char(j5) == ',' {
                        if fuel == 0 {
                            Option::None
                        } else {
                            let j6 = p_ws(s, j5 + 1);
                            p_thumbnail_members(s, j6, acc2, fuel - 1)
                        }
                    } else if j5 < sl && s.get_char(j5) == '}' {
                        Option::Some((acc2, j5 + 1))
                    } else {
                        Option::None
                    }
                },
            }
        },
    }
}

/// Builds the record once every mandatory member appeared.
fn p_thumbnail_fin(a: (Option<String>, Option<u64>, Option<u64>), e: usize) -> (r: Option<(Thumbnail, usize)>)
    ensures
        ({
            let m = sp_thumbnail_fin(thumbnail_acc_view(a), e as int);
            match (r, m) {
                (Option::None, Option::None) => true,
                (Option::Some((v, j)), Option::Some((mv, mj))) => v@ == mv && j as int == mj,
                _ => false,
            }
        }),
{
    match a.0 {
            Option::None => Option::None,
            Option::Some(x0) => {
                let v = Thumbnail { url: x0, width: a.1, height: a.2 };
            Option::Some((v, e))
            },
        }
}

/// Reads the whole object.
fn p_thumbnail(s: &str, i: usize) -> (r: Option<(Thumbnail, usize)>)
    requires
        i <= s@.len(),
        s@.len() <= usize::MAX,
    ensures
        ({
            let m = sp_thumbnail(s@, i as int);
            match (r, m) {
                (Option::None, Option::None) => true,
                (Option::Some((v, j)), Option::Some((mv, mj))) => v@ == mv && j as int == mj && j
                    <= s@.len(),
                _ => false,
            }
        }),
{
    let sl = s.unicode_len();
    if !(i < sl) {
        return Option::None;
    }
    if s.get_char(i) != '{' {
        return Option::None;
    }
    let j = p_ws(s, i + 1);
    if j < sl && s.get_char(j) == '}' {
        return p_thumbnail_fin((Option::None, Option::None, Option::None), j + 1);
    }
    match p_thumbnail_members(s, j, (Option::None, Option::None, Option::None), sl) {
        Option::None => Option::None,
        Option::Some((a, e)) => p_thumbnail_fin(a, e),
    }
}

/// Mathematical view of the partial record.
pub open spec fn thumbnails_acc_view(a: (Option<Thumbnail>, Option<Thumbnail>, Option<Thumbnail>, Option<Thumbnail>, Option<Thumbnail>)) -> (Option<ThumbnailView>, Option<ThumbnailView>, Option<ThumbnailView>, Option<ThumbnailView>, Option<ThumbnailView>) {
    (opt_thumb_view(a.0), opt_thumb_view(a.1), opt_thumb_view(a.2), opt_thumb_view(a.3), opt_thumb_view(a.4))
}

/// Dispatches one member of the object by its key.
fn p_thumbnails_member(s: &str, i: usize, key: &Vec<char>, acc: (Option<Thumbnail>, Option<Thumbnail>, Option<Thumbnail>, Option<Thumbnail>, Option<Thumbnail>)) -> (r: Option<
    ((Option<Thumbnail>, Option<Thumbnail>, Option<Thumbnail>, Option<Thumbnail>, Option<Thumbnail>), usize),
>)
    requires
        i <= s@.len(),
        s@.len() <= usize::MAX,
    ensures
        ({
            let m = sp_thumbnails_member(s@, i as int, key@, thumbnails_acc_view(acc));
            match (r, m) {
                (Option::None, Option::None) => true,
                (Option::Some((a, j)), Option::Some((ma, mj))) => thumbnails_acc_view(a) == ma && j
                    as int == mj && j <= s@.len(),
                _ => false,
            }
        }),
{
    if chars_eq(key, "default") {
        if acc.0.is_some() {
            Option::None
        } else {
            match p_thumbnail(s, i) {
                Option::None => Option::None,
                Option::Some((nv, j)) => Option::Some(((Option::Some(nv), acc.1, acc.2, acc.3, acc.4), j)),
            }
        }
    } else if chars_eq(key, "medium") {
        if acc.1.is_some() {
            Option::None
        } else {
            match p_thumbnail(s, i) {
                Option::None => Option::None,
                Option::Some((nv, j)) => Option::Some(((acc.0, Option::Some(nv), acc.2, acc.3, acc.4), j)),
            }
        }
    } else if chars_eq(key, "high") {
        if acc.2.is_some() {
            Option::None
        } else {
            match p_thumbnail(s, i) {
                Option::None => Option::None,
                Option::Some((nv, j)) => Option::Some(((acc.0, acc.1, Option::Some(nv), acc.3, acc.4), j)),
            }
        }
    } else if chars_eq(key, "standard") {
        if acc.3.is_some() {
            Option::None
        } else {
            match p_thumbnail(s, i) {
                Option::None => Option::None,
                Option::Some((nv, j)) => Option::Some(((acc.0, acc.1, acc.2, Option::Some(nv), acc.4), j)),
            }
        }
    } else if chars_eq(key, "maxres") {
        if acc.4.is_some() {
            Option::None
        } else {
            match p_thumbnail(s, i) {
                Option::None => Option::None,
                Option::Some((nv, j)) => Option::Some(((acc.0, acc.1, acc.2, acc.3, Option::Some(nv)), j)),
            }
        }
    } else {
        Option::None
    }
}

/// Reads the members of the object, from the first key to the closing brace.
fn p_thumbnails_members(s: &str, i: usize, acc: (Option<Thumbnail>, Option<Thumbnail>, Option<Thumbnail>, Option<Thumbnail>, Option<Thumbnail>), fuel: usize) -> (r: Option<
    ((Option<Thumbnail>, Option<Thumbnail>, Option<Thumbnail>, Option<Thumbnail>, Option<Thumbnail>), usize),
>)
    requires
        i <= s@.len(),
        s@.len() <= usize::MAX,
    ensures
        ({
            let m = sp_thumbnails_members(s@, i as int, thumbnails_acc_view(acc), fuel as nat);
            match (r, m) {
                (Option::None, Option::None) => true,
                (Option::Some((a, j)), Option::Some((ma, mj))) => thumbnails_acc_view(a) == ma && j
                    as int == mj && j <= s@.len(),
                _ => false,
            }
        }),
    decreases fuel,
{
    let sl = s.unicode_len();
    match p_str(s, i) {
        Option::None => Option::None,
        Option::Some((key, j1)) => {
            let j2 = p_ws(s, j1);
            if !(j2 < sl && s.get_char(j2) == ':') {
                return Option::None;
            }
            let j3 = p_ws(s, j2 + 1);
            match p_thumbnails_member(s, j3, &key, acc) {
                Option::None => Option::None,
                Option::Some((acc2, j4)) => {
                    let j5 = p_ws(s, j4);
                    if j5 < sl && s.get_char(j5) == ',' {
                        if fuel == 0 {
                            Option::None
                        } else {
                            let j6 = p_ws(s, j5 + 1);
                            p_thumbnails_members(s, j6, acc2, fuel - 1)
                        }
                    } else if j5 < sl && s.get_char(j5) == '}' {
                        Option::Some((acc2, j5 + 1))
                    } else {
                        Option::None
                    }
                },
            }
        },
    }
}

/// Builds the record once every mandatory member appeared.
fn p_thumbnails_fin(a: (Option<Thumbnail>, Option<Thumbnail>, Option<Thumbnail>, Option<Thumbnail>, Option<Thumbnail>), e: usize) -> (r: Option<(Thumbnails, usize)>)
    ensures
        ({
            let m = sp_thumbnails_fin(thumbnails_acc_view(a), e as int);
            match (r, m) {
                (Option::None, Option::None) => true,
                (Option::Some((v, j)), Option::Some((mv, mj))) => v@ == mv && j as int == mj,
                _ => false,
            }
        }),
{
    let v = Thumbnails { default: a.0, medium: a.1, high: a.2, standard: a.3, maxres: a.4 };
            Option::Some((v, e))
}

/// Reads the whole object.
fn p_thumbnails(s: &str, i: usize) -> (r: Option<(Thumbnails, usize)>)
    requires
        i <= s@.len(),
        s@.len() <= usize::MAX,
    ensures
        ({
            let m = sp_thumbnails(s@, i as int);
            match (r, m) {
                (Option::None, Option::None) => true,
                (Option::Some((v, j)), Option::Some((mv, mj))) => v@ == mv && j as int == mj && j
                    <= s@.len(),
                _ => false,
            }
        }),
{
    let sl = s.unicode_len();
    if !(i < sl) {
        return Option::None;
    }
    if s.get_char(i) != '{' {
        return Option::None;
    }
    let j = p_ws(s, i + 1);
    if j < sl && s.get_char(j) == '}' {
        return p_thumbnails_fin((Option::None, Option::None, Option::None, Option::None, Option::None), j + 1);
    }
    match p_thumbnails_members(s, j, (Option::None, Option::None, Option::None, Option::None, Option::None), sl) {
        Option::None => Option::None,
        Option::Some((a, e)) => p_thumbnails_fin(a, e),
    }
}

/// Mathematical view of the partial record.
pub open spec fn snippet_acc_view(a: (Option<String>, Option<String>, Option<String>, Option<String>, Option<Thumbnails>, Option<String>, Option<String>, Option<String>, Option<u32>, Option<Id>)) -> (Option<Seq<char>>, Option<Seq<char>>, Option<Seq<char>>, Option<Seq<char>>, Option<ThumbnailsView>, Option<Seq<char>>, Option<Seq<char>>, Option<Seq<char>>, Option<u32>, Option<IdView>) {
    (opt_view(a.0), opt_view(a.1), opt_view(a.2), opt_view(a.3), opt_thumbs_view(a.4), opt_view(a.5), opt_view(a.6), opt_view(a.7), a.8, opt_id_view(a.9))
}

/// Dispatches one member of the object by its key.
fn p_snippet_member(s: &str, i: usize, key: &Vec<char>, acc: (Option<String>, Option<String>, Option<String>, Option<String>, Option<Thumbnails>, Option<String>, Option<String>, Option<String>, Option<u32>, Option<Id>)) -> (r: Option<
    ((Option<String>, Option<String>, Option<String>, Option<String>, Option<Thumbnails>, Option<String>, Option<String>, Option<String>, Option<u32>, Option<Id>), usize),
>)
    requires
        i <= s@.len(),
        s@.len() <= usize::MAX,
    ensures
        ({
            let m = sp_snippet_member(s@, i as int, key@, snippet_acc_view(acc));
            match (r, m) {
                (Option::None, Option::None) => true,
                (Option::Some((a, j)), Option::Some((ma, mj))) => snippet_acc_view(a) == ma && j
                    as int == mj && j <= s@.len(),
                _ => false,
            }
        }),
{
    if chars_eq(key, "publishedAt") {
        if acc.0.is_some() {
            Option::None
        } else {
            match p_str(s, i) {
                Option::None => Option::None,
                Option::Some((cs, j)) => Option::Some(
                    ((Option::Some(chars_to_string(&cs)), acc.1, acc.2, acc.3, acc.4, acc.5, acc.6, acc.7, acc.8, acc.9), j),
                ),
            }
        }
    } else if chars_eq(key, "channelId") {
        if acc.1.is_some() {
            Option::None
        } else {
            match p_str(s, i) {
                Option::None => Option::None,
                Option::Some((cs, j)) => Option::Some(
                    ((acc.0, Option::Some(chars_to_string(&cs)), acc.2, acc.3, acc.4, acc.5, acc.6, acc.7, acc.8, acc.9), j),
                ),
            }
        }
    } else if chars_eq(key, "title") {
        if acc.2.is_some() {
            Option::None
        } else {
            match p_str(s, i) {
                Option::None => Option::None,
                Option::Some((cs, j)) => Option::Some(
                    ((acc.0, acc.1, Option::Some(chars_to_string(&cs)), acc.3, acc.4, acc.5, acc.6, acc.7, acc.8, acc.9), j),
                ),
            }
        }
    } else if chars_eq(key, "description") {
        if acc.3.is_some() {
            Option::None
        } else {
            match p_str(s, i) {
                Option::None => Option::None,
                Option::Some((cs, j)) => Option::Some(
                    ((acc.0, acc.1, acc.2, Option::Some(chars_to_string(&cs)), acc.4, acc.5, acc.6, acc.7, acc.8, acc.9), j),
                ),
            }
        }
    } else if chars_eq(key, "thumbnails") {
        if acc.4.is_some() {
            Option::None
        } else {
            match p_thumbnails(s, i) {
                Option::None => Option::None,
                Option::Some((nv, j)) => Option::Some(((acc.0, acc.1, acc.2, acc.3, Option::Some(nv), acc.5, acc.6, acc.7, acc.8, acc.9), j)),
            }
        }
    } else if chars_eq(key, "channelTitle") {
        if acc.5.is_some() {
            Option::None
        } else {
            match p_str(s, i) {
                Option::None => Option::None,
                Option::Some((cs, j)) => Option::Some(
                    ((acc.0, acc.1, acc.2, acc.3, acc.4, Option::Some(chars_to_string(&cs)), acc.6, acc.7, acc.8, acc.9), j),
                ),
            }
        }
    } else if chars_eq(key, "liveBroadcastContent") {
        if acc.6.is_some() {
            Option::None
        } else {
            match p_str(s, i) {
                Option::None => Option::None,
                Option::Some((cs, j)) => Option::Some(
                    ((acc.0, acc.1, acc.2, acc.3, acc.4, acc.5, Option::Some(chars_to_string(&cs)), acc.7, acc.8, acc.9), j),
                ),
            }
        }
    } else if chars_eq(key, "playlistId") {
        if acc.7.is_some() {
            Option::None
        } else {
            match p_str(s, i) {
                Option::None => Option::None,
                Option::Some((cs, j)) => Option::Some(
                    ((acc.0, acc.1, acc.2, acc.3, acc.4, acc.5, acc.6, Option::Some(chars_to_string(&cs)), acc.8, acc.9), j),
                ),
            }
        }
    } else if chars_eq(key, "position") {
        if acc.8.is_some() {
            Option::None
        } else {
            match p_num(s, i) {
                Option::None => Option::None,
                Option::Some((nv, j)) => if nv <= 0xffff_ffffu64 {
                    Option::Some(((acc.0, acc.1, acc.2, acc.3, acc.4, acc.5, acc.6, acc.7, Option::Some(nv as u32), acc.9), j))
                } else {
                    Option::None
                },
            }
        }
    } else if chars_eq(key, "resourceId") {
        if acc.9.is_some() {
            Option::None
        } else {
            match p_id(s, i) {
                Option::None => Option::None,
                Option::Some((nv, j)) => Option::Some(((acc.0, acc.1, acc.2, acc.3, acc.4, acc.5, acc.6, acc.7, acc.8, Option::Some(nv)), j)),
            }
        }
    } else {
        Option::None
    }
}

/// Reads the members of the object, from the first key to the closing brace.
fn p_snippet_members(s: &str, i: usize, acc: (Option<String>, Option<String>, Option<String>, Option<String>, Option<Thumbnails>, Option<String>, Option<String>, Option<String>, Option<u32>, Option<Id>), fuel: usize) -> (r: Option<
    ((Option<String>, Option<String>, Option<String>, Option<String>, Option<Thumbnails>, Option<String>, Option<String>, Option<String>, Option<u32>, Option<Id>), usize),
>)
    requires
        i <= s@.len(),
        s@.len() <= usize::MAX,
    ensures
        ({
            let m = sp_snippet_members(s@, i as int, snippet_acc_view(acc), fuel as nat);
            match (r, m) {
                (Option::None, Option::None) => true,
                (Option::Some((a, j)), Option::Some((ma, mj))) => snippet_acc_view(a) == ma && j
                    as int == mj && j <= s@.len(),
                _ => false,
            }
        }),
    decreases fuel,
{
    let sl = s.unicode_len();
    match p_str(s, i) {
        Option::None => Option::None,
        Option::Some((key, j1)) => {
            let j2 = p_ws(s, j1);
            if !(j2 < sl && s.get_char(j2) == ':') {
                return Option::None;
            }
            let j3 = p_ws(s, j2 + 1);
            match p_snippet_member(s, j3, &key, acc) {
                Option::None => Option::None,
                Option::Some((acc2, j4)) => {
                    let j5 = p_ws(s, j4);
                    if j5 < sl && s.get_char(j5) == ',' {
                        if fuel == 0 {
                            Option::None
                        } else {
                            let j6 = p_ws(s, j5 + 1);
                            p_snippet_members(s, j6, acc2, fuel - 1)
                        }
                    } else if j5 < sl && s.get_char(j5) == '}' {
                        Option::Some((acc2, j5 + 1))
                    } else {
                        Option::None
                    }
                },
            }
        },
    }
}

/// Builds the record once every mandatory member appeared.
fn p_snippet_fin(a: (Option<String>, Option<String>, Option<String>, Option<String>, Option<Thumbnails>, Option<String>, Option<String>, Option<String>, Option<u32>, Option<Id>), e: usize) -> (r: Option<(Snippet, usize)>)
    ensures
        ({
            let m = sp_snippet_fin(snippet_acc_view(a), e as int);
            match (r, m) {
                (Option::None, Option::None) => true,
                (Option::Some((v, j)), Option::Some((mv, mj))) => v@ == mv && j as int == mj,
                _ => false,
            }
        }),
{
    let v = Snippet { published_at: a.0, channel_id: a.1, title: a.2, description: a.3, thumbnails: a.4, channel_title: a.5, live_broadcast_content: a.6, playlist_id: a.7, position: a.8, resource_id: a.9 };
            Option::Some((v, e))
}

/// Reads the whole object.
fn p_snippet(s: &str, i: usize) -> (r: Option<(Snippet, usize)>)
    requires
        i <= s@.len(),
        s@.len() <= usize::MAX,
    ensures
        ({
            let m = sp_snippet(s@, i as int);
            match (r, m) {
                (Option::None, Option::None) => true,
                (Option::Some((v, j)), Option::Some((mv, mj))) => v@ == mv && j as int == mj && j
                    <= s@.len(),
                _ => false,
            }
        }),
{
    let sl = s.unicode_len();
    if !(i < sl) {
        return Option::None;
    }
    if s.get_char(i) != '{' {
        return Option::None;
    }
    let j = p_ws(s, i + 1);
    if j < sl && s.get_char(j) == '}' {
        return p_snippet_fin((Option::None, Option::None, Option::None, Option::None, Option::None, Option::None, Option::None, Option::None, Option::None, Option::None), j + 1);
    }
    match p_snippet_members(s, j, (Option::None, Option::None, Option::None, Option::None, Option::None, Option::None, Option::None, Option::None, Option::None, Option::None), sl) {
        Option::None => Option::None,
        Option::Some((a, e)) => p_snippet_fin(a, e),
    }
}

/// Mathematical view of the partial record.
pub open spec fn item_acc_view(a: (Option<String>, Option<String>, Option<Snippet>)) -> (Option<Seq<char>>, Option<Seq<char>>, Option<SnippetView>) {
    (opt_view(a.0), opt_view(a.1), opt_snippet_view(a.2))
}

/// Dispatches one member of the object by its key.
fn p_item_member(s: &str, i: usize, key: &Vec<char>, acc: (Option<String>, Option<String>, Option<Snippet>)) -> (r: Option<
    ((Option<String>, Option<String>, Option<Snippet>), usize),
>)
    requires
        i <= s@.len(),
        s@.len() <= usize::MAX,
    ensures
        ({
            let m = sp_item_member(s@, i as int, key@, item_acc_view(acc));
            match (r, m) {
                (Option::None, Option::None) => true,
                (Option::Some((a, j)), Option::Some((ma, mj))) => item_acc_view(a) == ma && j
                    as int == mj && j <= s@.len(),
                _ => false,
            }
        }),
{
    if chars_eq(key, "kind") {
        if acc.0.is_some() {
            Option::None
        } else {
            match p_str(s, i) {
                Option::None => Option::None,
                Option::Some((cs, j)) => Option::Some(
                    ((Option::Some(chars_to_string(&cs)), acc.1, acc.2), j),
                ),
            }
        }
    } else if chars_eq(key, "id") {
        if acc.1.is_some() {
            Option::None
        } else {
            match p_str(s, i) {
                Option::None => Option::None,
                Option::Some((cs, j)) => Option::Some(
                    ((acc.0, Option::Some(chars_to_string(&cs)), acc.2), j),
                ),
            }
        }
    } else if chars_eq(key, "snippet") {
        if acc.2.is_some() {
            Option::None
        } else {
            match p_snippet(s, i) {
                Option::None => Option::None,
                Option::Some((nv, j)) => Option::Some(((acc.0, acc.1, Option::Some(nv)), j)),
            }
        }
    } else {
        Option::None
    }
}

/// Reads the members of the object, from the first key to the closing brace.
fn p_item_members(s: &str, i: usize, acc: (Option<String>, Option<String>, Option<Snippet>), fuel: usize) -> (r: Option<
    ((Option<String>, Option<String>, Option<Snippet>), usize),
>)
    requires
        i <= s@.len(),
        s@.len() <= usize::MAX,
    ensures
        ({
            let m = sp_item_members(s@, i as int, item_acc_view(acc), fuel as nat);
            match (r, m) {
                (Option::None, Option::None) => true,
                (Option::Some((a, j)), Option::Some((ma, mj))) => item_acc_view(a) == ma && j
                    as int == mj && j <= s@.len(),
                _ => false,
            }
        }),
    decreases fuel,
{
    let sl = s.unicode_len();
    match p_str(s, i) {
        Option::None => Option::None,
        Option::Some((key, j1)) => {
            let j2 = p_ws(s, j1);
            if !(j2 < sl && s.get_char(j2) == ':') {
                return Option::None;
            }
            let j3 = p_ws(s, j2 + 1);
            match p_item_member(s, j3, &key, acc) {
                Option::None => Option::None,
                Option::Some((acc2, j4)) => {
                    let j5 = p_ws(s, j4);
                    if j5 < sl && s.get_char(j5) == ',' {
                        if fuel == 0 {
                            Option::None
                        } else {
                            let j6 = p_ws(s, j5 + 1);
                            p_item_members(s, j6, acc2, fuel - 1)
                        }
                    } else if j5 < sl && s.get_char(j5) == '}' {
                        Option::Some((acc2, j5 + 1))
                    } else {
                        Option::None
                    }
                },
            }
        },
    }
}

/// Builds the record once every mandatory member appeared.
fn p_item_fin(a: (Option<String>, Option<String>, Option<Snippet>), e: usize) -> (r: Option<(PlaylistItem, usize)>)
    ensures
        ({
            let m = sp_item_fin(item_acc_view(a), e as int);
            match (r, m) {
                (Option::None, Option::None) => true,
                (Option::Some((v, j)), Option::Some((mv, mj))) => v@ == mv && j as int == mj,
                _ => false,
            }
        }),
{
    match a.0 {
            Option::None => Option::None,
            Option::Some(x0) => {
                let v = PlaylistItem { kind: x0, id: a.1, snippet: a.2 };
            Option::Some((v, e))
            },
        }
}

/// Reads the whole object.
fn p_item(s: &str, i: usize) -> (r: Option<(PlaylistItem, usize)>)
    requires
        i <= s@.len(),
        s@.len() <= usize::MAX,
    ensures
        ({
            let m = sp_item(s@, i as int);
            match (r, m) {
                (Option::None, Option::None) => true,
                (Option::Some((v, j)), Option::Some((mv, mj))) => v@ == mv && j as int == mj && j
                    <= s@.len(),
                _ => false,
            }
        }),
{
    let sl = s.unicode_len();
    if !(i < sl) {
        return Option::None;
    }
    if s.get_char(i) != '{' {
        return Option::None;
    }
    let j = p_ws(s, i + 1);
    if j < sl && s.get_char(j) == '}' {
        return p_item_fin((Option::None, Option::None, Option::None), j + 1);
    }
    match p_item_members(s, j, (Option::None, Option::None, Option::None), sl) {
        Option::None => Option::None,
        Option::Some((a, e)) => p_item_fin(a, e),
    }
}

/// Mathematical view of the partial record.
pub open spec fn page_info_acc_view(a: (Option<i32>, Option<i32>)) -> (Option<i32>, Option<i32>) {
    (a.0, a.1)
}

/// Dispatches one member of the object by its key.
fn p_page_info_member(s: &str, i: usize, key: &Vec<char>, acc: (Option<i32>, Option<i32>)) -> (r: Option<
    ((Option<i32>, Option<i32>), usize),
>)
    requires
        i <= s@.len(),
        s@.len() <= usize::MAX,
    ensures
        ({
            let m = sp_page_info_member(s@, i as int, key@, page_info_acc_view(acc));
            match (r, m) {
                (Option::None, Option::None) => true,
                (Option::Some((a, j)), Option::Some((ma, mj))) => page_info_acc_view(a) == ma && j
                    as int == mj && j <= s@.len(),
                _ => false,
            }
        }),
{
    if chars_eq(key, "totalResults") {
        if acc.0.is_some() {
            Option::None
        } else {
            match p_i32(s, i) {
                Option::None => Option::None,
                Option::Some((nv, j)) => Option::Some(((Option::Some(nv), acc.1), j)),
            }
        }
    } else if chars_eq(key, "resultsPerPage") {
        if acc.1.is_some() {
            Option::None
        } else {
            match p_i32(s, i) {
                Option::None => Option::None,
                Option::Some((nv, j)) => Option::Some(((acc.0, Option::Some(nv)), j)),
            }
        }
    } else {
        Option::None
    }
}

/// Reads the members of the object, from the first key to the closing brace.
fn p_page_info_members(s: &str, i: usize, acc: (Option<i32>, Option<i32>), fuel: usize) -> (r: Option<
    ((Option<i32>, Option<i32>), usize),
>)
    requires
        i <= s@.len(),
        s@.len() <= usize::MAX,
    ensures
        ({
            let m = sp_page_info_members(s@, i as int, page_info_acc_view(acc), fuel as nat);
            match (r, m) {
                (Option::None, Option::None) => true,
                (Option::Some((a, j)), Option::Some((ma, mj))) => page_info_acc_view(a) == ma && j
                    as int == mj && j <= s@.len(),
                _ => false,
            }
        }),
    decreases fuel,
{
    let sl = s.unicode_len();
    match p_str(s, i) {
        Option::None => Option::None,
        Option::Some((key, j1)) => {
            let j2 = p_ws(s, j1);
            if !(j2 < sl && s.get_char(j2) == ':') {
                return Option::None;
            }
            let j3 = p_ws(s, j2 + 1);
            match p_page_info_member(s, j3, &key, acc) {
                Option::None => Option::None,
                Option::Some((acc2, j4)) => {
                    let j5 = p_ws(s, j4);
                    if j5 < sl && s.get_char(j5) == ',' {
                        if fuel == 0 {
                            Option::None
                        } else {
                            let j6 = p_ws(s, j5 + 1);
                            p_page_info_members(s, j6, acc2, fuel - 1)
                        }
                    } else if j5 < sl && s.get_char(j5) == '}' {
                        Option::Some((acc2, j5 + 1))
                    } else {
                        Option::None
                    }
                },
            }
        },
    }
}

/// Builds the record once every mandatory member appeared.
fn p_page_info_fin(a: (Option<i32>, Option<i32>), e: usize) -> (r: Option<(PlaylistItemPageInfo, usize)>)
    ensures
        ({
            let m = sp_page_info_fin(page_info_acc_view(a), e as int);
            match (r, m) {
                (Option::None, Option::None) => true,
                (Option::Some((v, j)), Option::Some((mv, mj))) => v@ == mv && j as int == mj,
                _ => false,
            }
        }),
{
    match a.0 {
            Option::None => Option::None,
            Option::Some(x0) => {
                match a.1 {
            Option::None => Option::None,
            Option::Some(x1) => {
                let v = PlaylistItemPageInfo { total_results: x0, results_per_page: x1 };
            Option::Some((v, e))
            },
        }
            },
        }
}

/// Reads the whole object.
fn p_page_info(s: &str, i: usize) -> (r: Option<(PlaylistItemPageInfo, usize)>)
    requires
        i <= s@.len(),
        s@.len() <= usize::MAX,
    ensures
        ({
            let m = sp_page_info(s@, i as int);
            match (r, m) {
                (Option::None, Option::None) => true,
                (Option::Some((v, j)), Option::Some((mv, mj))) => v@ == mv && j as int == mj && j
                    <= s@.len(),
                _ => false,
            }
        }),
{
    let sl = s.unicode_len();
    if !(i < sl) {
        return Option::None;
    }
    if s.get_char(i) != '{' {
        return Option::None;
    }
    let j = p_ws(s, i + 1);
    if j < sl && s.get_char(j) == '}' {
        return p_page_info_fin((Option::None, Option::None), j + 1);
    }
    match p_page_info_members(s, j, (Option::None, Option::None), sl) {
        Option::None => Option::None,
        Option::Some((a, e)) => p_page_info_fin(a, e),
    }
}

/// Reads the values of an item array after the opening bracket.
fn p_items_rest(s: &str, i: usize, items: Vec<PlaylistItem>, fuel: usize) -> (r: Option<
    (Vec<PlaylistItem>, usize),
>)
    requires
        i <= s@.len(),
        s@.len() <= usize::MAX,
    ensures
        ({
            let m = sp_items_rest(
                s@,
                i as int,
                items@.map_values(|x: PlaylistItem| x@),
                fuel as nat,
            );
            match (r, m) {
                (Option::None, Option::None) => true,
                (Option::Some((v, j)), Option::Some((mv, mj))) => v@.map_values(
                    |x: PlaylistItem| x@,
                ) == mv && j as int == mj && j <= s@.len(),
                _ => false,
            }
        }),
    decreases fuel,
{
    let sl = s.unicode_len();
    match p_item(s, i) {
        Option::None => Option::None,
        Option::Some((v, j)) => {
            let j2 = p_ws(s, j);
            let ghost items0 = items@;
            let mut items2 = items;
            items2.push(v);
            proof {
                assert(items2@.map_values(|x: PlaylistItem| x@) =~= items0.map_values(
                    |x: PlaylistItem| x@,
                ).push(v@));
            }
            if j2 < sl && s.get_char(j2) == ',' {
                if fuel == 0 {
                    Option::None
                } else {
                    let j3 = p_ws(s, j2 + 1);
                    p_items_rest(s, j3, items2, fuel - 1)
                }
            } else if j2 < sl && s.get_char(j2) == ']' {
                Option::Some((items2, j2 + 1))
            } else {
                Option::None
            }
        },
    }
}

/// Reads an array of playlist items.
fn p_items(s: &str, i: usize) -> (r: Option<(Vec<PlaylistItem>, usize)>)
    requires
        i <= s@.len(),
        s@.len() <= usize::MAX,
    ensures
        ({
            let m = sp_items(s@, i as int);
            match (r, m) {
                (Option::None, Option::None) => true,
                (Option::Some((v, j)), Option::Some((mv, mj))) => v@.map_values(
                    |x: PlaylistItem| x@,
                ) == mv && j as int == mj && j <= s@.len(),
                _ => false,
            }
        }),
{
    let sl = s.unicode_len();
    if !(i < sl) {
        return Option::None;
    }
    if s.get_char(i) != '[' {
        return Option::None;
    }
    let j = p_ws(s, i + 1);
    if j < sl && s.get_char(j) == ']' {
        let v: Vec<PlaylistItem> = Vec::new();
        proof {
            assert(v@.map_values(|x: PlaylistItem| x@) =~= Seq::<PlaylistItemView>::empty());
        }
        return Option::Some((v, j + 1));
    }
    let v0: Vec<PlaylistItem> = Vec::new();
    proof {
        assert(v0@.map_values(|x: PlaylistItem| x@) =~= Seq::<PlaylistItemView>::empty());
    }
    p_items_rest(s, j, v0, sl)
}

/// Mathematical view of the partial record.
pub open spec fn page_acc_view(a: (Option<String>, Option<String>, Option<String>, Option<PlaylistItemPageInfo>, Option<Vec<PlaylistItem>>)) -> (Option<Seq<char>>, Option<Seq<char>>, Option<Seq<char>>, Option<PlaylistItemPageInfoView>, Option<Seq<PlaylistItemView>>) {
    (opt_view(a.0), opt_view(a.1), opt_view(a.2), opt_pinfo_view(a.3), opt_items_view(a.4))
}

/// Dispatches one member of the object by its key.
fn p_page_member(s: &str, i: usize, key: &Vec<char>, acc: (Option<String>, Option<String>, Option<String>, Option<PlaylistItemPageInfo>, Option<Vec<PlaylistItem>>)) -> (r: Option<
    ((Option<String>, Option<String>, Option<String>, Option<PlaylistItemPageInfo>, Option<Vec<PlaylistItem>>), usize),
>)
    requires
        i <= s@.len(),
        s@.len() <= usize::MAX,
    ensures
        ({
            let m = sp_page_member(s@, i as int, key@, page_acc_view(acc));
            match (r, m) {
                (Option::None, Option::None) => true,
                (Option::Some((a, j)), Option::Some((ma, mj))) => page_acc_view(a) == ma && j
                    as int == mj && j <= s@.len(),
                _ => false,
            }
        }),
{
    if chars_eq(key, "kind") {
        if acc.0.is_some() {
            Option::None
        } else {
            match p_str(s, i) {
                Option::None => Option::None,
                Option::Some((cs, j)) => Option::Some(
                    ((Option::Some(chars_to_string(&cs)), acc.1, acc.2, acc.3, acc.4), j),
                ),
            }
        }
    } else if chars_eq(key, "nextPageToken") {
        if acc.1.is_some() {
            Option::None
        } else {
            match p_str(s, i) {
                Option::None => Option::None,
                Option::Some((cs, j)) => Option::Some(
                    ((acc.0, Option::Some(chars_to_string(&cs)), acc.2, acc.3, acc.4), j),
                ),
            }
        }
    } else if chars_eq(key, "prevPageToken") {
        if acc.2.is_some() {
            Option::None
        } else {
            match p_str(s, i) {
                Option::None => Option::None,
                Option::Some((cs, j)) => Option::Some(
                    ((acc.0, acc.1, Option::Some(chars_to_string(&cs)), acc.3, acc.4), j),
                ),
            }
        }
    } else if chars_eq(key, "pageInfo") {
        if acc.3.is_some() {
            Option::None
        } else {
            match p_page_info(s, i) {
                Option::None => Option::None,
                Option::Some((nv, j)) => Option::Some(((acc.0, acc.1, acc.2, Option::Some(nv), acc.4), j)),
            }
        }
    } else if chars_eq(key, "items") {
        if acc.4.is_some() {
            Option::None
        } else {
            match p_items(s, i) {
                Option::None => Option::None,
                Option::Some((nv, j)) => Option::Some(((acc.0, acc.1, acc.2, acc.3, Option::Some(nv)), j)),
            }
        }
    } else {
        Option::None
    }
}

/// Reads the members of the object, from the first key to the closing brace.
fn p_page_members(s: &str, i: usize, acc: (Option<String>, Option<String>, Option<String>, Option<PlaylistItemPageInfo>, Option<Vec<PlaylistItem>>), fuel: usize) -> (r: Option<
    ((Option<String>, Option<String>, Option<String>, Option<PlaylistItemPageInfo>, Option<Vec<PlaylistItem>>), usize),
>)
    requires
        i <= s@.len(),
        s@.len() <= usize::MAX,
    ensures
        ({
            let m = sp_page_members(s@, i as int, page_acc_view(acc), fuel as nat);
            match (r, m) {
                (Option::None, Option::None) => true,
                (Option::Some((a, j)), Option::Some((ma, mj))) => page_acc_view(a) == ma && j
                    as int == mj && j <= s@.len(),
                _ => false,
            }
        }),
    decreases fuel,
{
    let sl = s.unicode_len();
    match p_str(s, i) {
        Option::None => Option::None,
        Option::Some((key, j1)) => {
            let j2 = p_ws(s, j1);
            if !(j2 < sl && s.get_char(j2) == ':') {
                return Option::None;
            }
            let j3 = p_ws(s, j2 + 1);
            match p_page_member(s, j3, &key, acc) {
                Option::None => Option::None,
                Option::Some((acc2, j4)) => {
                    let j5 = p_ws(s, j4);
                    if j5 < sl && s.get_char(j5) == ',' {
                        if fuel == 0 {
                            Option::None
                        } else {
                            let j6 = p_ws(s, j5 + 1);
                            p_page_members(s, j6, acc2, fuel - 1)
                        }
                    } else if j5 < sl && s.get_char(j5) == '}' {
                        Option::Some((acc2, j5 + 1))
                    } else {
                        Option::None
                    }
                },
            }
        },
    }
}

/// Builds the record once every mandatory member appeared.
fn p_page_fin(a: (Option<String>, Option<String>, Option<String>, Option<PlaylistItemPageInfo>, Option<Vec<PlaylistItem>>), e: usize) -> (r: Option<(PlaylistItemPage, usize)>)
    ensures
        ({
            let m = sp_page_fin(page_acc_view(a), e as int);
            match (r, m) {
                (Option::None, Option::None) => true,
                (Option::Some((v, j)), Option::Some((mv, mj))) => v@ == mv && j as int == mj,
                _ => false,
            }
        }),
{
    match a.0 {
            Option::None => Option::None,
            Option::Some(x0) => {
                match a.1 {
            Option::None => Option::None,
            Option::Some(x1) => {
                match a.2 {
            Option::None => Option::None,
            Option::Some(x2) => {
                match a.3 {
            Option::None => Option::None,
            Option::Some(x3) => {
                match a.4 {
            Option::None => Option::None,
            Option::Some(x4) => {
                let v = PlaylistItemPage { kind: x0, next_page_token: x1, prev_page_token: x2, page_info: x3, items: x4 };
            Option::Some((v, e))
            },
        }
            },
        }
            },
        }
            },
        }
            },
        }
}

/// Reads the whole object.
fn p_page(s: &str, i: usize) -> (r: Option<(PlaylistItemPage, usize)>)
    requires
        i <= s@.len(),
        s@.len() <= usize::MAX,
    ensures
        ({
            let m = sp_page(s@, i as int);
            match (r, m) {
                (Option::None, Option::None) => true,
                (Option::Some((v, j)), Option::Some((mv, mj))) => v@ == mv && j as int == mj && j
                    <= s@.len(),
                _ => false,
            }
        }),
{
    let sl = s.unicode_len();
    if !(i < sl) {
        return Option::None;
    }
    if s.get_char(i) != '{' {
        return Option::None;
    }
    let j = p_ws(s, i + 1);
    if j < sl && s.get_char(j) == '}' {
        return p_page_fin((Option::None, Option::None, Option::None, Option::None, Option::None), j + 1);
    }
    match p_page_members(s, j, (Option::None, Option::None, Option::None, Option::None, Option::None), sl) {
        Option::None => Option::None,
        Option::Some((a, e)) => p_page_fin(a, e),
    }
}

/// Decodes a whole text as a playlist item.
pub fn decode_playlist_item(s: &str) -> (r: Option<PlaylistItem>)
    ensures
        ({
            let m = parse_item_text(s@);
            match r {
                Option::Some(v) => m == Option::Some(v@),
                Option::None => m is None,
            }
        }),
{
    let sl = s.unicode_len();
    let i0 = p_ws(s, 0);
    match p_item(s, i0) {
        Option::None => Option::None,
        Option::Some((v, j)) => {
            let j2 = p_ws(s, j);
            if j2 == sl {
                Option::Some(v)
            } else {
                Option::None
            }
        },
    }
}

/// Decodes a whole text as a playlist page.
pub fn decode_playlist_item_page(s: &str) -> (r: Option<PlaylistItemPage>)
    ensures
        ({
            let m = parse_page_text(s@);
            match r {
                Option::Some(v) => m == Option::Some(v@),
                Option::None => m is None,
            }
        }),
{
    let sl = s.unicode_len();
    let i0 = p_ws(s, 0);
    match p_page(s, i0) {
        Option::None => Option::None,
        Option::Some((v, j)) => {
            let j2 = p_ws(s, j);
            if j2 == sl {
                Option::Some(v)
            } else {
                Option::None
            }
        },
    }
}

} // verus!
