//! JSON wire codec for the data model.
//!
//! The library frames and checks the wire text itself, so the whole codec is
//! verified: `ser_*` spec functions state the canonical encoding, `sp_*`
//! spec functions state the decoder's grammar, and the executable encoder
//! and decoder are proved to compute exactly those functions.
//!
//! The encoder emits one canonical presentation: compact JSON, camelCase
//! keys in schema order, absent optional fields omitted, quote, backslash
//! and control characters escaped. The decoder (in its own module) accepts
//! every JSON presentation of the same values.

use vstd::prelude::*;
use vstd::string::StrSliceExecFns;

use crate::model::{
    Id, IdView, PlaylistItem, PlaylistItemPage, PlaylistItemPageInfo, PlaylistItemPageInfoView,
    PlaylistItemPageView, PlaylistItemView, Snippet, SnippetView, Thumbnail, ThumbnailView,
    Thumbnails, ThumbnailsView, opt_view,
};

verus! {

// ---------------------------------------------------------------------------
// Canonical serialization, stated mathematically.
// ---------------------------------------------------------------------------

/// The lower-case hexadecimal digit character for a value below sixteen.
pub open spec fn hex_char(d: int) -> char {
    if d == 0 { '0' }
    else if d == 1 { '1' }
    else if d == 2 { '2' }
    else if d == 3 { '3' }
    else if d == 4 { '4' }
    else if d == 5 { '5' }
    else if d == 6 { '6' }
    else if d == 7 { '7' }
    else if d == 8 { '8' }
    else if d == 9 { '9' }
    else if d == 10 { 'a' }
    else if d == 11 { 'b' }
    else if d == 12 { 'c' }
    else if d == 13 { 'd' }
    else if d == 14 { 'e' }
    else { 'f' }
}

/// Escape of one character inside a JSON string literal: quote and
/// backslash get their short escapes, control characters their four-digit
/// code escape, and everything else stands as itself.
pub open spec fn esc_char(c: char) -> Seq<char> {
    if c == '"' {
        seq!['\\', '"']
    } else if c == '\\' {
        seq!['\\', '\\']
    } else if (c as u32) < 32 {
        seq!['\\', 'u', '0', '0', hex_char((c as u32 / 16) as int), hex_char(
            (c as u32 % 16) as int,
        )]
    } else {
        seq![c]
    }
}

/// Escape of a whole string body.
pub open spec fn esc(s: Seq<char>) -> Seq<char>
    decreases s.len(),
{
    if s.len() == 0 {
        Seq::empty()
    } else {
        esc_char(s[0]) + esc(s.skip(1))
    }
}

/// A JSON string literal: quoted, escaped content.
pub open spec fn jstr(s: Seq<char>) -> Seq<char> {
    seq!['"'] + esc(s) + seq!['"']
}

/// The decimal digit character for a value below ten.
pub open spec fn digit_char(d: int) -> char {
    if d == 0 { '0' }
    else if d == 1 { '1' }
    else if d == 2 { '2' }
    else if d == 3 { '3' }
    else if d == 4 { '4' }
    else if d == 5 { '5' }
    else if d == 6 { '6' }
    else if d == 7 { '7' }
    else if d == 8 { '8' }
    else { '9' }
}

/// Decimal notation of a natural number, most significant digit first.
pub open spec fn dec_nat(n: nat) -> Seq<char>
    decreases n,
{
    if n < 10 {
        seq![digit_char(n as int)]
    } else {
        dec_nat(n / 10) + seq![digit_char((n % 10) as int)]
    }
}

/// Separator before a field: nothing for the first field of an object, a
/// comma before every later one.
pub open spec fn sep(first: bool) -> Seq<char> {
    if first {
        Seq::empty()
    } else {
        seq![',']
    }
}

/// A member's key: the quoted name and its colon.
pub open spec fn ser_key(key: Seq<char>) -> Seq<char> {
    jstr(key) + seq![':']
}

/// One optional field: nothing when absent, separator, key and serialized
/// value when present.
pub open spec fn ser_opt_field(first: bool, key: Seq<char>, val: Option<Seq<char>>) -> Seq<char> {
    match val {
        Option::Some(x) => sep(first) + ser_key(key) + x,
        Option::None => Seq::empty(),
    }
}

/// Whether the object is still waiting for its first field after an
/// optional field was emitted.
pub open spec fn after_field(first: bool, val_present: bool) -> bool {
    first && !val_present
}

/// Serialized optional string value.
pub open spec fn ser_opt_str(v: Option<Seq<char>>) -> Option<Seq<char>> {
    match v {
        Option::Some(x) => Option::Some(jstr(x)),
        Option::None => Option::None,
    }
}

/// Canonical encoding of a resource id.
pub open spec fn ser_id(v: IdView) -> Seq<char> {
    seq!['{'] + ser_key("kind"@) + jstr(v.kind)
        + ser_opt_field(false, "videoId"@, ser_opt_str(v.video_id))
        + ser_opt_field(false, "channelId"@, ser_opt_str(v.channel_id))
        + ser_opt_field(false, "playlistId"@, ser_opt_str(v.playlist_id))
        + seq!['}']
}

/// Serialized optional unsigned number.
pub open spec fn ser_opt_u64(v: Option<u64>) -> Option<Seq<char>> {
    match v {
        Option::Some(n) => Option::Some(dec_nat(n as nat)),
        Option::None => Option::None,
    }
}

/// Serialized optional unsigned 32-bit number.
pub open spec fn ser_opt_u32(v: Option<u32>) -> Option<Seq<char>> {
    match v {
        Option::Some(n) => Option::Some(dec_nat(n as nat)),
        Option::None => Option::None,
    }
}

/// Canonical encoding of one thumbnail.
pub open spec fn ser_thumbnail(v: ThumbnailView) -> Seq<char> {
    seq!['{'] + ser_key("url"@) + jstr(v.url)
        + ser_opt_field(false, "width"@, ser_opt_u64(v.width))
        + ser_opt_field(false, "height"@, ser_opt_u64(v.height))
        + seq!['}']
}

/// Serialized optional thumbnail value.
pub open spec fn ser_opt_thumb(v: Option<ThumbnailView>) -> Option<Seq<char>> {
    match v {
        Option::Some(t) => Option::Some(ser_thumbnail(t)),
        Option::None => Option::None,
    }
}

/// Canonical encoding of the thumbnail slots. Every slot is optional, so
/// the first present slot decides where commas start.
pub open spec fn ser_thumbnails(v: ThumbnailsView) -> Seq<char> {
    let f0 = true;
    let t1 = ser_opt_field(f0, "default"@, ser_opt_thumb(v.default));
    let f1 = after_field(f0, v.default is Some);
    let t2 = ser_opt_field(f1, "medium"@, ser_opt_thumb(v.medium));
    let f2 = after_field(f1, v.medium is Some);
    let t3 = ser_opt_field(f2, "high"@, ser_opt_thumb(v.high));
    let f3 = after_field(f2, v.high is Some);
    let t4 = ser_opt_field(f3, "standard"@, ser_opt_thumb(v.standard));
    let f4 = after_field(f3, v.standard is Some);
    let t5 = ser_opt_field(f4, "maxres"@, ser_opt_thumb(v.maxres));
    seq!['{'] + t1 + t2 + t3 + t4 + t5 + seq!['}']
}

/// Whether the first five snippet fields are all absent, so that the back
/// half of the snippet still waits for the object's first field.
pub open spec fn snip_front_empty(v: SnippetView) -> bool {
    v.published_at is None && v.channel_id is None && v.title is None && v.description is None
        && v.thumbnails is None
}

/// Whether the first four snippet fields are all absent.
pub open spec fn snip_head_empty(v: SnippetView) -> bool {
    v.published_at is None && v.channel_id is None && v.title is None && v.description is None
}

/// Canonical encoding of the first four snippet fields.
pub open spec fn ser_snippet_head(v: SnippetView) -> Seq<char> {
    let f0 = true;
    let t1 = ser_opt_field(f0, "publishedAt"@, ser_opt_str(v.published_at));
    let f1 = after_field(f0, v.published_at is Some);
    let t2 = ser_opt_field(f1, "channelId"@, ser_opt_str(v.channel_id));
    let f2 = after_field(f1, v.channel_id is Some);
    let t3 = ser_opt_field(f2, "title"@, ser_opt_str(v.title));
    let f3 = after_field(f2, v.title is Some);
    let t4 = ser_opt_field(f3, "description"@, ser_opt_str(v.description));
    t1 + t2 + t3 + t4
}

/// Canonical encoding of the first five snippet fields.
pub open spec fn ser_snippet_front(v: SnippetView) -> Seq<char> {
    ser_snippet_head(v) + ser_opt_field(snip_head_empty(v), "thumbnails"@, match v.thumbnails {
        Option::Some(t) => Option::Some(ser_thumbnails(t)),
        Option::None => Option::None,
    })
}

/// Whether the object is still waiting for its first field after the first
/// eight snippet fields.
pub open spec fn snip_mid_empty(v: SnippetView, first: bool) -> bool {
    first && v.channel_title is None && v.live_broadcast_content is None && v.playlist_id is None
}

/// Canonical encoding of the sixth to eighth snippet fields.
pub open spec fn ser_snippet_mid(v: SnippetView, first: bool) -> Seq<char> {
    let t6 = ser_opt_field(first, "channelTitle"@, ser_opt_str(v.channel_title));
    let f6 = after_field(first, v.channel_title is Some);
    let t7 = ser_opt_field(f6, "liveBroadcastContent"@, ser_opt_str(v.live_broadcast_content));
    let f7 = after_field(f6, v.live_broadcast_content is Some);
    let t8 = ser_opt_field(f7, "playlistId"@, ser_opt_str(v.playlist_id));
    t6 + t7 + t8
}

/// Canonical encoding of the last two snippet fields.
pub open spec fn ser_snippet_tail(v: SnippetView, first: bool) -> Seq<char> {
    let t9 = ser_opt_field(first, "position"@, ser_opt_u32(v.position));
    let f9 = after_field(first, v.position is Some);
    let t10 = ser_opt_field(f9, "resourceId"@, match v.resource_id {
        Option::Some(r) => Option::Some(ser_id(r)),
        Option::None => Option::None,
    });
    t9 + t10
}

/// Canonical encoding of the last five snippet fields.
pub open spec fn ser_snippet_back(v: SnippetView) -> Seq<char> {
    let f5 = snip_front_empty(v);
    ser_snippet_mid(v, f5) + ser_snippet_tail(v, snip_mid_empty(v, f5))
}

/// Canonical encoding of a snippet. All fields are optional.
pub open spec fn ser_snippet(v: SnippetView) -> Seq<char> {
    seq!['{'] + ser_snippet_front(v) + ser_snippet_back(v) + seq!['}']
}

/// Canonical encoding of a playlist item.
pub open spec fn ser_item(v: PlaylistItemView) -> Seq<char> {
    seq!['{'] + ser_key("kind"@) + jstr(v.kind)
        + ser_opt_field(false, "id"@, ser_opt_str(v.id))
        + ser_opt_field(false, "snippet"@, match v.snippet {
            Option::Some(s) => Option::Some(ser_snippet(s)),
            Option::None => Option::None,
        })
        + seq!['}']
}

// ---------------------------------------------------------------------------
// Executable encoder.
// ---------------------------------------------------------------------------

/// Collects characters into an owned string.
///
/// Relies on `String`'s `FromIterator<char>` implementation in std: the
/// string collected from a character iterator consists of exactly those
/// characters in order.
#[verifier::external_body]
pub fn chars_to_string(v: &Vec<char>) -> (r: String)
    ensures
        r@ == v@,
{
    v.iter().collect()
}

/// `esc` distributes over appending one character.
proof fn lemma_esc_push(s: Seq<char>, c: char)
    ensures
        esc(s.push(c)) == esc(s) + esc_char(c),
    decreases s.len(),
{
    reveal_with_fuel(esc, 3);
    if s.len() == 0 {
        assert(s.push(c).skip(1) =~= Seq::empty());
        assert(s.push(c)[0] == c);
        assert(esc(s.push(c)) =~= esc_char(c));
        assert(esc(s) + esc_char(c) =~= esc_char(c));
    } else {
        assert(s.push(c).skip(1) =~= s.skip(1).push(c));
        lemma_esc_push(s.skip(1), c);
        assert(esc(s.push(c)) == esc_char(s[0]) + (esc(s.skip(1)) + esc_char(c)));
        assert(esc_char(s[0]) + (esc(s.skip(1)) + esc_char(c)) =~= (esc_char(s[0]) + esc(
            s.skip(1),
        )) + esc_char(c));
    }
}

/// Appends the JSON string literal for `s` to `out`.
fn push_jstr(out: &mut Vec<char>, s: &str)
    ensures
        final(out)@ == old(out)@ + jstr(s@),
{
    out.push('"');
    let n = s.unicode_len();
    let mut k: usize = 0;
    while k < n
        invariant
            n == s@.len(),
            k <= n,
            out@ == old(out)@ + seq!['"'] + esc(s@.take(k as int)),
        decreases n - k,
    {
        let c = s.get_char(k);
        if c == '"' || c == '\\' {
            out.push('\\');
            out.push(c);
        } else {
            let u = c as u32;
            if u < 32 {
                out.push('\\');
                out.push('u');
                out.push('0');
                out.push('0');
                let h = hex_to_char(u / 16);
                out.push(h);
                let l = hex_to_char(u % 16);
                out.push(l);
            } else {
                out.push(c);
            }
        }
        proof {
            lemma_esc_push(s@.take(k as int), s@[k as int]);
            assert(s@.take(k + 1 as int) =~= s@.take(k as int).push(s@[k as int]));
            assert(out@ =~= old(out)@ + seq!['"'] + esc(s@.take(k + 1 as int)));
        }
        k += 1;
    }
    out.push('"');
    proof {
        assert(s@.take(n as int) =~= s@);
        assert(out@ =~= old(out)@ + jstr(s@));
    }
}

/// Appends the decimal notation of `n` to `out`.
fn push_u64(out: &mut Vec<char>, n: u64)
    ensures
        final(out)@ == old(out)@ + dec_nat(n as nat),
    decreases n,
{
    if n < 10 {
        let c = digit_to_char(n);
        out.push(c);
        proof {
            assert(out@ =~= old(out)@ + dec_nat(n as nat));
        }
    } else {
        push_u64(out, n / 10);
        let c = digit_to_char(n % 10);
        out.push(c);
        proof {
            assert(out@ =~= old(out)@ + dec_nat(n as nat));
        }
    }
}

/// The digit character of a value below ten.
fn digit_to_char(d: u64) -> (c: char)
    requires
        d < 10,
    ensures
        c == digit_char(d as int),
{
    if d == 0 { '0' }
    else if d == 1 { '1' }
    else if d == 2 { '2' }
    else if d == 3 { '3' }
    else if d == 4 { '4' }
    else if d == 5 { '5' }
    else if d == 6 { '6' }
    else if d == 7 { '7' }
    else if d == 8 { '8' }
    else { '9' }
}

/// The lower-case hexadecimal digit character of a value below sixteen.
fn hex_to_char(d: u32) -> (c: char)
    requires
        d < 16,
    ensures
        c == hex_char(d as int),
{
    if d == 0 { '0' }
    else if d == 1 { '1' }
    else if d == 2 { '2' }
    else if d == 3 { '3' }
    else if d == 4 { '4' }
    else if d == 5 { '5' }
    else if d == 6 { '6' }
    else if d == 7 { '7' }
    else if d == 8 { '8' }
    else if d == 9 { '9' }
    else if d == 10 { 'a' }
    else if d == 11 { 'b' }
    else if d == 12 { 'c' }
    else if d == 13 { 'd' }
    else if d == 14 { 'e' }
    else { 'f' }
}

/// Appends one optional string field.
fn push_opt_sfield(out: &mut Vec<char>, first: bool, key: &str, v: &Option<String>) -> (nf: bool)
    ensures
        final(out)@ == old(out)@ + ser_opt_field(first, key@, ser_opt_str(opt_view(*v))),
        nf == after_field(first, v is Some),
{
    match v {
        Option::Some(x) => {
            if !first {
                out.push(',');
            }
            push_jstr(out, key);
            out.push(':');
            push_jstr(out, x.as_str());
            proof {
                assert(out@ =~= old(out)@ + ser_opt_field(
                    first,
                    key@,
                    ser_opt_str(opt_view(*v)),
                ));
            }
            false
        },
        Option::None => first,
    }
}

/// Appends one optional unsigned 64-bit field.
fn push_opt_u64_field(out: &mut Vec<char>, first: bool, key: &str, v: &Option<u64>) -> (nf: bool)
    ensures
        final(out)@ == old(out)@ + ser_opt_field(first, key@, ser_opt_u64(*v)),
        nf == after_field(first, v is Some),
{
    match v {
        Option::Some(n) => {
            if !first {
                out.push(',');
            }
            push_jstr(out, key);
            out.push(':');
            push_u64(out, *n);
            proof {
                assert(out@ =~= old(out)@ + ser_opt_field(first, key@, ser_opt_u64(*v)));
            }
            false
        },
        Option::None => first,
    }
}

/// Appends one optional unsigned 32-bit field.
fn push_opt_u32_field(out: &mut Vec<char>, first: bool, key: &str, v: &Option<u32>) -> (nf: bool)
    ensures
        final(out)@ == old(out)@ + ser_opt_field(first, key@, ser_opt_u32(*v)),
        nf == after_field(first, v is Some),
{
    match v {
        Option::Some(n) => {
            if !first {
                out.push(',');
            }
            push_jstr(out, key);
            out.push(':');
            push_u64(out, *n as u64);
            proof {
                assert(out@ =~= old(out)@ + ser_opt_field(first, key@, ser_opt_u32(*v)));
            }
            false
        },
        Option::None => first,
    }
}

/// Appends the encoding of a resource id.
#[verifier::rlimit(100)]
fn push_id(out: &mut Vec<char>, v: &Id)
    ensures
        final(out)@ == old(out)@ + ser_id(v@),
{
    out.push('{');
    push_jstr(out, "kind");
    out.push(':');
    push_jstr(out, v.kind.as_str());
    push_opt_sfield(out, false, "videoId", &v.video_id);
    push_opt_sfield(out, false, "channelId", &v.channel_id);
    push_opt_sfield(out, false, "playlistId", &v.playlist_id);
    out.push('}');
    proof {
        assert(out@ =~= old(out)@ + ser_id(v@));
    }
}

/// Appends the encoding of one thumbnail.
#[verifier::rlimit(100)]
fn push_thumbnail(out: &mut Vec<char>, v: &Thumbnail)
    ensures
        final(out)@ == old(out)@ + ser_thumbnail(v@),
{
    out.push('{');
    push_jstr(out, "url");
    out.push(':');
    push_jstr(out, v.url.as_str());
    push_opt_u64_field(out, false, "width", &v.width);
    push_opt_u64_field(out, false, "height", &v.height);
    out.push('}');
    proof {
        assert(out@ =~= old(out)@ + ser_thumbnail(v@));
    }
}

/// Appends one optional thumbnail field.
fn push_opt_tfield(out: &mut Vec<char>, first: bool, key: &str, v: &Option<Thumbnail>) -> (nf:
    bool)
    ensures
        final(out)@ == old(out)@ + ser_opt_field(
            first,
            key@,
            ser_opt_thumb(crate::model::opt_thumb_view(*v)),
        ),
        nf == after_field(first, v is Some),
{
    match v {
        Option::Some(t) => {
            if !first {
                out.push(',');
            }
            push_jstr(out, key);
            out.push(':');
            push_thumbnail(out, t);
            proof {
                assert(out@ =~= old(out)@ + ser_opt_field(
                    first,
                    key@,
                    ser_opt_thumb(crate::model::opt_thumb_view(*v)),
                ));
            }
            false
        },
        Option::None => first,
    }
}

/// Appends the encoding of the thumbnail slots.
#[verifier::rlimit(80)]
fn push_thumbnails(out: &mut Vec<char>, v: &Thumbnails)
    ensures
        final(out)@ == old(out)@ + ser_thumbnails(v@),
{
    out.push('{');
    let ghost w1 = ser_opt_field(true, "default"@, ser_opt_thumb(v@.default));
    let f1 = push_opt_tfield(out, true, "default", &v.default);
    let ghost w2 = ser_opt_field(f1, "medium"@, ser_opt_thumb(v@.medium));
    let f2 = push_opt_tfield(out, f1, "medium", &v.medium);
    proof {
        assert(out@ =~= old(out)@ + (seq!['{'] + w1 + w2));
    }
    let ghost w3 = ser_opt_field(f2, "high"@, ser_opt_thumb(v@.high));
    let f3 = push_opt_tfield(out, f2, "high", &v.high);
    let ghost w4 = ser_opt_field(f3, "standard"@, ser_opt_thumb(v@.standard));
    let f4 = push_opt_tfield(out, f3, "standard", &v.standard);
    proof {
        assert(out@ =~= old(out)@ + (seq!['{'] + w1 + w2 + w3 + w4));
    }
    let ghost w5 = ser_opt_field(f4, "maxres"@, ser_opt_thumb(v@.maxres));
    push_opt_tfield(out, f4, "maxres", &v.maxres);
    out.push('}');
    proof {
        assert(out@ =~= old(out)@ + (seq!['{'] + w1 + w2 + w3 + w4 + w5 + seq!['}']));
        assert(ser_thumbnails(v@) == seq!['{'] + w1 + w2 + w3 + w4 + w5 + seq!['}']);
    }
}

/// Appends the first four snippet fields.
#[verifier::rlimit(80)]
fn push_snippet_head(out: &mut Vec<char>, v: &Snippet) -> (nf: bool)
    ensures
        final(out)@ == old(out)@ + ser_snippet_head(v@),
        nf == snip_head_empty(v@),
{
    let ghost w1 = ser_opt_field(true, "publishedAt"@, ser_opt_str(v@.published_at));
    let f1 = push_opt_sfield(out, true, "publishedAt", &v.published_at);
    let ghost w2 = ser_opt_field(f1, "channelId"@, ser_opt_str(v@.channel_id));
    let f2 = push_opt_sfield(out, f1, "channelId", &v.channel_id);
    proof {
        assert(out@ =~= old(out)@ + (w1 + w2));
    }
    let ghost w3 = ser_opt_field(f2, "title"@, ser_opt_str(v@.title));
    let f3 = push_opt_sfield(out, f2, "title", &v.title);
    let ghost w4 = ser_opt_field(f3, "description"@, ser_opt_str(v@.description));
    let f4 = push_opt_sfield(out, f3, "description", &v.description);
    proof {
        assert(out@ =~= old(out)@ + (w1 + w2 + w3 + w4));
        assert(ser_snippet_head(v@) == w1 + w2 + w3 + w4);
    }
    f4
}

/// Appends the first five snippet fields.
#[verifier::rlimit(80)]
fn push_snippet_front(out: &mut Vec<char>, v: &Snippet) -> (nf: bool)
    ensures
        final(out)@ == old(out)@ + ser_snippet_front(v@),
        nf == snip_front_empty(v@),
{
    let f4 = push_snippet_head(out, v);
    let ghost w5 = ser_opt_field(f4, "thumbnails"@, match v@.thumbnails {
        Option::Some(t) => Option::Some(ser_thumbnails(t)),
        Option::None => Option::None,
    });
    let f5 = match &v.thumbnails {
        Option::Some(t) => {
            if !f4 {
                out.push(',');
            }
            push_jstr(out, "thumbnails");
            out.push(':');
            push_thumbnails(out, t);
            false
        },
        Option::None => f4,
    };
    proof {
        assert(out@ =~= old(out)@ + (ser_snippet_head(v@) + w5));
    }
    f5
}

/// Appends the sixth to eighth snippet fields.
#[verifier::rlimit(80)]
fn push_snippet_mid(out: &mut Vec<char>, v: &Snippet, first: bool) -> (nf: bool)
    ensures
        final(out)@ == old(out)@ + ser_snippet_mid(v@, first),
        nf == snip_mid_empty(v@, first),
{
    let ghost w6 = ser_opt_field(first, "channelTitle"@, ser_opt_str(v@.channel_title));
    let f6 = push_opt_sfield(out, first, "channelTitle", &v.channel_title);
    let ghost w7 = ser_opt_field(
        f6,
        "liveBroadcastContent"@,
        ser_opt_str(v@.live_broadcast_content),
    );
    let f7 = push_opt_sfield(out, f6, "liveBroadcastContent", &v.live_broadcast_content);
    proof {
        assert(out@ =~= old(out)@ + (w6 + w7));
    }
    let ghost w8 = ser_opt_field(f7, "playlistId"@, ser_opt_str(v@.playlist_id));
    let f8 = push_opt_sfield(out, f7, "playlistId", &v.playlist_id);
    proof {
        assert(out@ =~= old(out)@ + (w6 + w7 + w8));
        assert(ser_snippet_mid(v@, first) == w6 + w7 + w8);
    }
    f8
}

/// Appends the last two snippet fields.
#[verifier::rlimit(80)]
fn push_snippet_tail(out: &mut Vec<char>, v: &Snippet, first: bool)
    ensures
        final(out)@ == old(out)@ + ser_snippet_tail(v@, first),
{
    let ghost w9 = ser_opt_field(first, "position"@, ser_opt_u32(v@.position));
    let f9 = push_opt_u32_field(out, first, "position", &v.position);
    let ghost w10 = ser_opt_field(f9, "resourceId"@, match v@.resource_id {
        Option::Some(r) => Option::Some(ser_id(r)),
        Option::None => Option::None,
    });
    match &v.resource_id {
        Option::Some(r) => {
            if !f9 {
                out.push(',');
            }
            push_jstr(out, "resourceId");
            out.push(':');
            push_id(out, r);
        },
        Option::None => {},
    }
    proof {
        assert(out@ =~= old(out)@ + (w9 + w10));
        assert(ser_snippet_tail(v@, first) == w9 + w10);
    }
}

/// Appends the last five snippet fields. `first` says whether the object is
/// still waiting for its first field.
fn push_snippet_back(out: &mut Vec<char>, v: &Snippet, first: bool)
    requires
        first == snip_front_empty(v@),
    ensures
        final(out)@ == old(out)@ + ser_snippet_back(v@),
{
    let mid = push_snippet_mid(out, v, first);
    push_snippet_tail(out, v, mid);
    proof {
        assert(out@ =~= old(out)@ + ser_snippet_back(v@));
    }
}

/// Appends the encoding of a snippet.
fn push_snippet(out: &mut Vec<char>, v: &Snippet)
    ensures
        final(out)@ == old(out)@ + ser_snippet(v@),
{
    out.push('{');
    let first = push_snippet_front(out, v);
    push_snippet_back(out, v, first);
    out.push('}');
    proof {
        assert(out@ =~= old(out)@ + ser_snippet(v@));
    }
}

/// Appends the encoding of a playlist item.
#[verifier::rlimit(100)]
fn push_item(out: &mut Vec<char>, v: &PlaylistItem)
    ensures
        final(out)@ == old(out)@ + ser_item(v@),
{
    out.push('{');
    push_jstr(out, "kind");
    out.push(':');
    push_jstr(out, v.kind.as_str());
    push_opt_sfield(out, false, "id", &v.id);
    match &v.snippet {
        Option::Some(s) => {
            out.push(',');
            push_jstr(out, "snippet");
            out.push(':');
            push_snippet(out, s);
        },
        Option::None => {},
    }
    out.push('}');
    proof {
        assert(out@ =~= old(out)@ + ser_item(v@));
    }
}

/// Encodes a playlist item into its canonical JSON text.
pub fn encode_playlist_item(v: &PlaylistItem) -> (r: String)
    ensures
        r@ == ser_item(v@),
{
    let mut out: Vec<char> = Vec::new();
    push_item(&mut out, v);
    chars_to_string(&out)
}

} // verus!
