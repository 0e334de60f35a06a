//! The codec's round-trip law: decoding the canonical encoding of the item
//! the client submits yields the item back, every populated field intact
//! and every absent field still absent.

use vstd::prelude::*;
use vstd::utf8::char_u32_cast;

use crate::client::{add_item_view, add_resource_view, add_snippet_view};
use crate::codec::{esc, esc_char, hex_char, jstr, ser_id, ser_item, ser_key, ser_snippet,
    ser_snippet_back, ser_snippet_front, ser_snippet_head, ser_snippet_mid, ser_snippet_tail};
use crate::decode::{at, hex4, hex_val, is_ws, match_at, parse_item_text, sp_id, sp_id_fin,
    sp_id_member, sp_id_members, sp_item, sp_item_fin, sp_item_member, sp_item_members,
    sp_snippet, sp_snippet_fin, sp_snippet_member, sp_snippet_members, sp_str, sp_str_body,
    sp_ws};

verus! {

/// A match of a concatenation splits into matches of its parts.
proof fn lemma_match_split(s: Seq<char>, i: int, a: Seq<char>, b: Seq<char>)
    requires
        match_at(s, i, a + b),
    ensures
        match_at(s, i, a),
        match_at(s, i + a.len(), b),
{
    assert forall|t: int| 0 <= t < a.len() implies s[i + t] == a[t] by {
        assert(s.subrange(i, i + (a + b).len())[t] == (a + b)[t]);
    }
    assert(s.subrange(i, i + a.len()) =~= a);
    assert forall|t: int| 0 <= t < b.len() implies s[i + a.len() + t] == b[t] by {
        assert(s.subrange(i, i + (a + b).len())[a.len() + t] == (a + b)[a.len() + t]);
    }
    assert(s.subrange(i + a.len(), i + a.len() + b.len()) =~= b);
}

/// The character standing at the position of a one-character match.
proof fn lemma_match_one(s: Seq<char>, i: int, c: char)
    requires
        match_at(s, i, seq![c]),
    ensures
        at(s, i, c),
{
    assert(s.subrange(i, i + 1)[0] == c);
}

/// Whitespace skipping stands still where no whitespace stands.
proof fn lemma_ws_none(s: Seq<char>, i: int)
    requires
        0 <= i,
        i == s.len() || (i < s.len() && !is_ws(s[i])),
    ensures
        sp_ws(s, i) == i,
{
}

/// The hexadecimal digit characters carry their values.
proof fn lemma_hex_char_val(d: int)
    requires
        0 <= d < 16,
    ensures
        hex_val(hex_char(d)) == d,
{
    if d == 0 { assert(hex_val('0') == 0); }
    else if d == 1 { assert(hex_val('1') == 1); }
    else if d == 2 { assert(hex_val('2') == 2); }
    else if d == 3 { assert(hex_val('3') == 3); }
    else if d == 4 { assert(hex_val('4') == 4); }
    else if d == 5 { assert(hex_val('5') == 5); }
    else if d == 6 { assert(hex_val('6') == 6); }
    else if d == 7 { assert(hex_val('7') == 7); }
    else if d == 8 { assert(hex_val('8') == 8); }
    else if d == 9 { assert(hex_val('9') == 9); }
    else if d == 10 { assert(hex_val('a') == 10); }
    else if d == 11 { assert(hex_val('b') == 11); }
    else if d == 12 { assert(hex_val('c') == 12); }
    else if d == 13 { assert(hex_val('d') == 13); }
    else if d == 14 { assert(hex_val('e') == 14); }
    else { assert(hex_val('f') == 15); }
}

/// Parsing a string body from its escaped text recovers the original
/// characters and stops right after the closing quote.
proof fn lemma_str_body_parse(s: Seq<char>, i: int, x: Seq<char>)
    requires
        match_at(s, i, esc(x) + seq!['"']),
    ensures
        sp_str_body(s, i) == Option::Some((x, i + esc(x).len() + 1)),
    decreases x.len(),
{
    if x.len() == 0 {
        assert(esc(x) + seq!['"'] =~= seq!['"']);
        lemma_match_one(s, i, '"');
    } else {
        let c = x[0];
        let xs = x.skip(1);
        assert(esc(x) == esc_char(c) + esc(xs));
        assert((esc_char(c) + esc(xs)) + seq!['"'] =~= esc_char(c) + (esc(xs) + seq!['"']));
        lemma_match_split(s, i, esc_char(c), esc(xs) + seq!['"']);
        lemma_str_body_parse(s, i + esc_char(c).len(), xs);
        assert(seq![c] + xs =~= x);
        if c == '"' || c == '\\' {
            assert(esc_char(c) =~= seq!['\\', c]);
            assert(s.subrange(i, i + 2)[0] == '\\');
            assert(s.subrange(i, i + 2)[1] == c);
            assert(s[i] == '\\' && s[i + 1] == c);
            assert(sp_str_body(s, i) == Option::Some((x, i + esc(x).len() + 1)));
        } else if (c as u32) < 32 {
            let hi = (c as u32 / 16) as int;
            let lo = (c as u32 % 16) as int;
            assert(esc_char(c) =~= seq!['\\', 'u', '0', '0', hex_char(hi), hex_char(lo)]);
            assert(s.subrange(i, i + 6)[0] == '\\');
            assert(s.subrange(i, i + 6)[1] == 'u');
            assert(s.subrange(i, i + 6)[2] == '0');
            assert(s.subrange(i, i + 6)[3] == '0');
            assert(s.subrange(i, i + 6)[4] == hex_char(hi));
            assert(s.subrange(i, i + 6)[5] == hex_char(lo));
            lemma_hex_char_val(hi);
            lemma_hex_char_val(lo);
            assert(hex_val(s[i + 2]) == 0 && hex_val(s[i + 3]) == 0);
            assert(hex4(s, i + 2) == hi * 16 + lo);
            assert(hi * 16 + lo == c as u32) by (nonlinear_arith)
                requires
                    hi == (c as u32) / 16 && lo == (c as u32) % 16 && (c as u32) < 32,
            ;
            assert(hex4(s, i + 2) == c as u32);
            char_u32_cast(c, c as u32);
            assert((hex4(s, i + 2)) as char == c);
            assert(sp_str_body(s, i) == Option::Some((x, i + esc(x).len() + 1)));
        } else {
            lemma_match_one(s, i, c);
            assert(sp_str_body(s, i) == Option::Some((x, i + esc(x).len() + 1)));
        }
    }
}

/// Parsing a string literal from its quoted escaped text recovers the
/// original characters.
proof fn lemma_jstr_parse(s: Seq<char>, i: int, x: Seq<char>)
    requires
        match_at(s, i, jstr(x)),
    ensures
        sp_str(s, i) == Option::Some((x, i + jstr(x).len())),
{
    assert(jstr(x) =~= seq!['"'] + (esc(x) + seq!['"']));
    lemma_match_split(s, i, seq!['"'], esc(x) + seq!['"']);
    lemma_match_one(s, i, '"');
    lemma_str_body_parse(s, i + 1, x);
}

/// A quoted text starts with a quote, whatever stands behind it.
proof fn lemma_jstr_head(s: Seq<char>, i: int, x: Seq<char>)
    requires
        match_at(s, i, jstr(x)),
    ensures
        at(s, i, '"'),
        sp_ws(s, i) == i,
{
    assert(jstr(x) =~= seq!['"'] + (esc(x) + seq!['"']));
    lemma_match_split(s, i, seq!['"'], esc(x) + seq!['"']);
    lemma_match_one(s, i, '"');
    lemma_ws_none(s, i);
}


/// Parsing the resource id the client submits from its canonical encoding
/// recovers it exactly.
#[verifier::rlimit(100)]
proof fn lemma_add_id_parse(s: Seq<char>, i: int, vid: Seq<char>)
    requires
        match_at(s, i, ser_id(add_resource_view(vid))),
    ensures
        sp_id(s, i) == Option::Some(
            (add_resource_view(vid), i + ser_id(add_resource_view(vid)).len()),
        ),
{
    let v = add_resource_view(vid);
    reveal_strlit("kind");
    reveal_strlit("videoId");
    let rest1 = jstr("kind"@) + (seq![':'] + (jstr(v.kind) + (seq![','] + (jstr("videoId"@) + (
    seq![':'] + (jstr(vid) + seq!['}']))))));
    assert(ser_id(v) =~= seq!['{'] + rest1);
    lemma_match_split(s, i, seq!['{'], rest1);
    lemma_match_one(s, i, '{');
    let q0 = i + 1;
    lemma_match_split(s, q0, jstr("kind"@), seq![':'] + (jstr(v.kind) + (seq![','] + (jstr(
        "videoId"@,
    ) + (seq![':'] + (jstr(vid) + seq!['}']))))));
    lemma_jstr_parse(s, q0, "kind"@);
    lemma_jstr_head(s, q0, "kind"@);
    let p1 = q0 + jstr("kind"@).len();
    lemma_match_split(s, p1, seq![':'], jstr(v.kind) + (seq![','] + (jstr("videoId"@) + (seq![
        ':',
    ] + (jstr(vid) + seq!['}'])))));
    lemma_match_one(s, p1, ':');
    lemma_ws_none(s, p1);
    let p2 = p1 + 1;
    lemma_match_split(s, p2, jstr(v.kind), seq![','] + (jstr("videoId"@) + (seq![':'] + (jstr(
        vid,
    ) + seq!['}']))));
    lemma_jstr_parse(s, p2, v.kind);
    lemma_jstr_head(s, p2, v.kind);
    let p3 = p2 + jstr(v.kind).len();
    lemma_match_split(s, p3, seq![','], jstr("videoId"@) + (seq![':'] + (jstr(vid) + seq!['}'])));
    lemma_match_one(s, p3, ',');
    lemma_ws_none(s, p3);
    let p4 = p3 + 1;
    lemma_match_split(s, p4, jstr("videoId"@), seq![':'] + (jstr(vid) + seq!['}']));
    lemma_jstr_parse(s, p4, "videoId"@);
    lemma_jstr_head(s, p4, "videoId"@);
    let p5 = p4 + jstr("videoId"@).len();
    lemma_match_split(s, p5, seq![':'], jstr(vid) + seq!['}']);
    lemma_match_one(s, p5, ':');
    lemma_ws_none(s, p5);
    let p6 = p5 + 1;
    lemma_match_split(s, p6, jstr(vid), seq!['}']);
    lemma_jstr_parse(s, p6, vid);
    lemma_jstr_head(s, p6, vid);
    let p7 = p6 + jstr(vid).len();
    lemma_match_one(s, p7, '}');
    lemma_ws_none(s, p7);
    // the two loop iterations, last first
    let acc0 = (Option::None::<Seq<char>>, Option::None::<Seq<char>>, Option::None::<Seq<char>>,
    Option::None::<Seq<char>>);
    let acc1 = (Option::Some(v.kind), Option::None::<Seq<char>>, Option::None::<Seq<char>>,
    Option::None::<Seq<char>>);
    let acc2 = (Option::Some(v.kind), Option::Some(vid), Option::None::<Seq<char>>,
    Option::None::<Seq<char>>);
    assert(s.len() >= 1);
    assert("videoId"@ != "kind"@);
    assert(sp_id_member(s, p6, "videoId"@, acc1) == Option::Some((acc2, p7)));
    assert(sp_id_members(s, p4, acc1, (s.len() - 1) as nat) == Option::Some((acc2, p7 + 1)));
    assert(sp_id_member(s, p2, "kind"@, acc0) == Option::Some((acc1, p3)));
    assert(sp_id_members(s, q0, acc0, s.len()) == Option::Some((acc2, p7 + 1)));
    assert(!at(s, q0, '}'));
    assert(sp_id(s, i) == sp_id_fin(acc2, p7 + 1));
    match sp_id(s, i) {
        Option::Some((w, j)) => {
            assert(w =~= v);
            assert(j == i + ser_id(v).len());
        },
        Option::None => {
            assert(false);
        },
    }
}

/// Parsing the snippet the client submits from its canonical encoding
/// recovers it exactly.
#[verifier::rlimit(100)]
proof fn lemma_add_snippet_parse(s: Seq<char>, i: int, p: Seq<char>, vid: Seq<char>)
    requires
        match_at(s, i, ser_snippet(add_snippet_view(p, vid))),
    ensures
        sp_snippet(s, i) == Option::Some(
            (add_snippet_view(p, vid), i + ser_snippet(add_snippet_view(p, vid)).len()),
        ),
{
    let sv = add_snippet_view(p, vid);
    let rv = add_resource_view(vid);
    reveal_strlit("publishedAt");
    reveal_strlit("channelId");
    reveal_strlit("title");
    reveal_strlit("description");
    reveal_strlit("thumbnails");
    reveal_strlit("channelTitle");
    reveal_strlit("liveBroadcastContent");
    reveal_strlit("playlistId");
    reveal_strlit("position");
    reveal_strlit("resourceId");
    let rest1 = jstr("playlistId"@) + (seq![':'] + (jstr(p) + (seq![','] + (jstr("resourceId"@)
    + (seq![':'] + (ser_id(rv) + seq!['}']))))));
    assert(ser_snippet(sv) =~= seq!['{'] + rest1) by {
        assert(ser_snippet_head(sv) =~= Seq::<char>::empty());
        assert(ser_snippet_front(sv) =~= Seq::<char>::empty());
        assert(ser_snippet_mid(sv, true) =~= ser_key("playlistId"@) + jstr(p));
        assert(ser_snippet_tail(sv, false) =~= seq![','] + ser_key("resourceId"@) + ser_id(rv));
        assert(ser_snippet_back(sv) =~= (ser_key("playlistId"@) + jstr(p)) + (seq![','] + ser_key(
            "resourceId"@,
        ) + ser_id(rv)));
    }
    lemma_match_split(s, i, seq!['{'], rest1);
    lemma_match_one(s, i, '{');
    let q0 = i + 1;
    lemma_match_split(s, q0, jstr("playlistId"@), seq![':'] + (jstr(p) + (seq![','] + (jstr(
        "resourceId"@,
    ) + (seq![':'] + (ser_id(rv) + seq!['}']))))));
    lemma_jstr_parse(s, q0, "playlistId"@);
    lemma_jstr_head(s, q0, "playlistId"@);
    let p1 = q0 + jstr("playlistId"@).len();
    lemma_match_split(s, p1, seq![':'], jstr(p) + (seq![','] + (jstr("resourceId"@) + (seq![':']
    + (ser_id(rv) + seq!['}'])))));
    lemma_match_one(s, p1, ':');
    lemma_ws_none(s, p1);
    let p2 = p1 + 1;
    lemma_match_split(s, p2, jstr(p), seq![','] + (jstr("resourceId"@) + (seq![':'] + (ser_id(rv)
    + seq!['}']))));
    lemma_jstr_parse(s, p2, p);
    lemma_jstr_head(s, p2, p);
    let p3 = p2 + jstr(p).len();
    lemma_match_split(s, p3, seq![','], jstr("resourceId"@) + (seq![':'] + (ser_id(rv) + seq![
        '}',
    ])));
    lemma_match_one(s, p3, ',');
    lemma_ws_none(s, p3);
    let p4 = p3 + 1;
    lemma_match_split(s, p4, jstr("resourceId"@), seq![':'] + (ser_id(rv) + seq!['}']));
    lemma_jstr_parse(s, p4, "resourceId"@);
    lemma_jstr_head(s, p4, "resourceId"@);
    let p5 = p4 + jstr("resourceId"@).len();
    lemma_match_split(s, p5, seq![':'], ser_id(rv) + seq!['}']);
    lemma_match_one(s, p5, ':');
    lemma_ws_none(s, p5);
    let p6 = p5 + 1;
    lemma_match_split(s, p6, ser_id(rv), seq!['}']);
    lemma_add_id_parse(s, p6, vid);
    assert(at(s, p6, '{'));
    lemma_ws_none(s, p6);
    let p7 = p6 + ser_id(rv).len();
    lemma_match_one(s, p7, '}');
    lemma_ws_none(s, p7);
    // dispatch disequalities that lengths alone do not settle
    assert(("playlistId"@)[0] != ("thumbnails"@)[0]);
    assert("playlistId"@ != "thumbnails"@);
    assert(("resourceId"@)[0] != ("thumbnails"@)[0]);
    assert("resourceId"@ != "thumbnails"@);
    assert(("resourceId"@)[0] != ("playlistId"@)[0]);
    assert("resourceId"@ != "playlistId"@);
    let acc0 = (Option::None::<Seq<char>>, Option::None::<Seq<char>>, Option::None::<Seq<char>>,
    Option::None::<Seq<char>>, Option::None::<crate::model::ThumbnailsView>,
    Option::None::<Seq<char>>, Option::None::<Seq<char>>, Option::None::<Seq<char>>,
    Option::None::<u32>, Option::None::<crate::model::IdView>);
    let acc1 = (acc0.0, acc0.1, acc0.2, acc0.3, acc0.4, acc0.5, acc0.6, Option::Some(p), acc0.8,
    acc0.9);
    let acc2 = (acc0.0, acc0.1, acc0.2, acc0.3, acc0.4, acc0.5, acc0.6, Option::Some(p), acc0.8,
    Option::Some(rv));
    assert(s.len() >= 1);
    assert(sp_snippet_member(s, p6, "resourceId"@, acc1) == Option::Some((acc2, p7)));
    assert(sp_snippet_members(s, p4, acc1, (s.len() - 1) as nat) == Option::Some((acc2, p7 + 1)));
    assert(sp_snippet_member(s, p2, "playlistId"@, acc0) == Option::Some((acc1, p3)));
    assert(sp_snippet_members(s, q0, acc0, s.len()) == Option::Some((acc2, p7 + 1)));
    assert(!at(s, q0, '}'));
    assert(sp_snippet(s, i) == sp_snippet_fin(acc2, p7 + 1));
    match sp_snippet(s, i) {
        Option::Some((w, j)) => {
            assert(w =~= sv);
            assert(j == i + ser_snippet(sv).len());
        },
        Option::None => {
            assert(false);
        },
    }
}

/// Parsing the item the client submits from its canonical encoding recovers
/// it exactly.
#[verifier::rlimit(100)]
proof fn lemma_add_item_parse(s: Seq<char>, i: int, p: Seq<char>, vid: Seq<char>)
    requires
        match_at(s, i, ser_item(add_item_view(p, vid))),
    ensures
        sp_item(s, i) == Option::Some(
            (add_item_view(p, vid), i + ser_item(add_item_view(p, vid)).len()),
        ),
{
    let v = add_item_view(p, vid);
    let sv = add_snippet_view(p, vid);
    reveal_strlit("kind");
    reveal_strlit("id");
    reveal_strlit("snippet");
    let rest1 = jstr("kind"@) + (seq![':'] + (jstr(v.kind) + (seq![','] + (jstr("snippet"@) + (
    seq![':'] + (ser_snippet(sv) + seq!['}']))))));
    assert(ser_item(v) =~= seq!['{'] + rest1);
    lemma_match_split(s, i, seq!['{'], rest1);
    lemma_match_one(s, i, '{');
    let q0 = i + 1;
    lemma_match_split(s, q0, jstr("kind"@), seq![':'] + (jstr(v.kind) + (seq![','] + (jstr(
        "snippet"@,
    ) + (seq![':'] + (ser_snippet(sv) + seq!['}']))))));
    lemma_jstr_parse(s, q0, "kind"@);
    lemma_jstr_head(s, q0, "kind"@);
    let p1 = q0 + jstr("kind"@).len();
    lemma_match_split(s, p1, seq![':'], jstr(v.kind) + (seq![','] + (jstr("snippet"@) + (seq![
        ':',
    ] + (ser_snippet(sv) + seq!['}'])))));
    lemma_match_one(s, p1, ':');
    lemma_ws_none(s, p1);
    let p2 = p1 + 1;
    lemma_match_split(s, p2, jstr(v.kind), seq![','] + (jstr("snippet"@) + (seq![':'] + (
    ser_snippet(sv) + seq!['}']))));
    lemma_jstr_parse(s, p2, v.kind);
    lemma_jstr_head(s, p2, v.kind);
    let p3 = p2 + jstr(v.kind).len();
    lemma_match_split(s, p3, seq![','], jstr("snippet"@) + (seq![':'] + (ser_snippet(sv) + seq![
        '}',
    ])));
    lemma_match_one(s, p3, ',');
    lemma_ws_none(s, p3);
    let p4 = p3 + 1;
    lemma_match_split(s, p4, jstr("snippet"@), seq![':'] + (ser_snippet(sv) + seq!['}']));
    lemma_jstr_parse(s, p4, "snippet"@);
    lemma_jstr_head(s, p4, "snippet"@);
    let p5 = p4 + jstr("snippet"@).len();
    lemma_match_split(s, p5, seq![':'], ser_snippet(sv) + seq!['}']);
    lemma_match_one(s, p5, ':');
    lemma_ws_none(s, p5);
    let p6 = p5 + 1;
    lemma_match_split(s, p6, ser_snippet(sv), seq!['}']);
    lemma_add_snippet_parse(s, p6, p, vid);
    assert(at(s, p6, '{'));
    lemma_ws_none(s, p6);
    let p7 = p6 + ser_snippet(sv).len();
    lemma_match_one(s, p7, '}');
    lemma_ws_none(s, p7);
    assert("snippet"@ != "kind"@);
    assert("snippet"@ != "id"@);
    let acc0 = (Option::None::<Seq<char>>, Option::None::<Seq<char>>,
    Option::None::<crate::model::SnippetView>);
    let acc1 = (Option::Some(v.kind), Option::None::<Seq<char>>,
    Option::None::<crate::model::SnippetView>);
    let acc2 = (Option::Some(v.kind), Option::None::<Seq<char>>, Option::Some(sv));
    assert(s.len() >= 1);
    assert(sp_item_member(s, p6, "snippet"@, acc1) == Option::Some((acc2, p7)));
    assert(sp_item_members(s, p4, acc1, (s.len() - 1) as nat) == Option::Some((acc2, p7 + 1)));
    assert(sp_item_member(s, p2, "kind"@, acc0) == Option::Some((acc1, p3)));
    assert(sp_item_members(s, q0, acc0, s.len()) == Option::Some((acc2, p7 + 1)));
    assert(!at(s, q0, '}'));
    assert(sp_item(s, i) == sp_item_fin(acc2, p7 + 1));
    match sp_item(s, i) {
        Option::Some((w, j)) => {
            assert(w =~= v);
            assert(j == i + ser_item(v).len());
        },
        Option::None => {
            assert(false);
        },
    }
}

/// Round trip of the item the client submits when adding a video: decoding
/// the canonical encoding of the constructed item yields it back, its
/// populated fields intact and its absent fields still absent, for every
/// playlist id and video id.
pub proof fn lemma_add_item_round_trip(playlist_id: Seq<char>, video_id: Seq<char>)
    ensures
        parse_item_text(ser_item(add_item_view(playlist_id, video_id))) == Option::Some(
            add_item_view(playlist_id, video_id),
        ),
{
    let s = ser_item(add_item_view(playlist_id, video_id));
    assert(s.subrange(0, s.len() as int) =~= s);
    assert(match_at(s, 0, s));
    lemma_add_item_parse(s, 0, playlist_id, video_id);
    assert(at(s, 0, '{'));
    lemma_ws_none(s, 0);
    lemma_ws_none(s, s.len() as int);
}

/// The body of every add request the client builds decodes back to exactly
/// the item that was constructed for the target playlist and video.
pub proof fn lemma_add_body_decodes(
    req: crate::client::HttpRequest,
    token: Seq<char>,
    playlist_id: Seq<char>,
    video_id: Seq<char>,
)
    requires
        crate::client::add_request_ok(req, token, playlist_id, video_id),
    ensures
        req.body matches Some(b) && parse_item_text(b@) == Option::Some(
            add_item_view(playlist_id, video_id),
        ),
{
    lemma_add_item_round_trip(playlist_id, video_id);
}

} // verus!
