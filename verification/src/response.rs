//! Decoding of API response bodies.  The upstream API returns both
//! success payloads and structured errors under HTTP 200, so a body is
//! first parsed into a generic JSON object and inspected for an
//! `error` member; only then is the appropriate branch converted into
//! the typed result.  serde_json parses the text; everything after the
//! parse is verified conversion.

use vstd::prelude::*;
use vstd::string::*;

use crate::client::ClientError;
use crate::error::YoutubeError;
use crate::video::data::{
    opt_str_view, opt_strs_view, Location, LocationView, VideoSnippet, VideoSnippetView,
    YoutubeVideo, YoutubeVideoView,
};

verus! {

// ---------------------------------------------------------------------
// The trusted boundary around serde_json.
// ---------------------------------------------------------------------

#[verifier::external_type_specification]
#[verifier::external_body]
pub struct ExValue(serde_json::Value);

#[verifier::external_type_specification]
#[verifier::external_body]
#[verifier::reject_recursive_types(K)]
#[verifier::reject_recursive_types(V)]
pub struct ExMap<K, V>(serde_json::Map<K, V>);

#[verifier::external_type_specification]
#[verifier::external_body]
pub struct ExError(serde_json::Error);

/// What the decoder reads out of a JSON value: the kinds it branches
/// on, with numbers split by whether they are unsigned 64-bit
/// integers, which is all the data model carries.
pub ghost enum JsonData {
    Null,
    Bool(bool),
    UInt(u64),
    OtherNumber,
    Text(Seq<char>),
    Array(Seq<JsonData>),
    Obj(Map<Seq<char>, JsonData>),
}

/// The data of a parsed JSON value; a function of the value alone.
pub uninterp spec fn json_value_data(v: serde_json::Value) -> JsonData;

/// The members of a parsed JSON object; a function of the object
/// alone.
pub uninterp spec fn json_object_data(m: serde_json::Map<String, serde_json::Value>) -> Map<
    Seq<char>,
    JsonData,
>;

/// What parsing a text as a JSON object yields, if it is one; a
/// function of the text alone.
pub uninterp spec fn parsed_json_object(s: Seq<char>) -> Option<Map<Seq<char>, JsonData>>;

/// Relies on serde_json::from_str deserializing the text as a JSON
/// object into the map of its members; success and content are a
/// function of the text alone.
#[verifier::external_body]
fn parse_object(text: &str) -> (r: Result<
    serde_json::Map<String, serde_json::Value>,
    serde_json::Error,
>)
    ensures
        r is Ok <==> parsed_json_object(text@) is Some,
        r matches Ok(m) ==> json_object_data(m) == parsed_json_object(text@)->0,
{
    serde_json::from_str(text)
}

/// Relies on serde_json::Map::get: member lookup by key.
#[verifier::external_body]
fn object_get<'a>(m: &'a serde_json::Map<String, serde_json::Value>, key: &str) -> (r: Option<
    &'a serde_json::Value,
>)
    ensures
        r is Some <==> json_object_data(*m).dom().contains(key@),
        r matches Some(v) ==> json_value_data(*v) == json_object_data(*m)[key@],
{
    m.get(key)
}

/// Relies on serde_json::Value::is_null.
#[verifier::external_body]
fn value_is_null(v: &serde_json::Value) -> (r: bool)
    ensures
        r == (json_value_data(*v) is Null),
{
    v.is_null()
}

/// Relies on serde_json::Value::as_str: the text of a JSON string,
/// and of nothing else.
#[verifier::external_body]
fn value_as_str<'a>(v: &'a serde_json::Value) -> (r: Option<&'a str>)
    ensures
        r is Some <==> json_value_data(*v) is Text,
        r matches Some(s) ==> s@ == json_value_data(*v)->Text_0,
{
    v.as_str()
}

/// Relies on serde_json::Value::as_u64: the value of a JSON number
/// representable as an unsigned 64-bit integer, and of nothing else.
#[verifier::external_body]
fn value_as_u64(v: &serde_json::Value) -> (r: Option<u64>)
    ensures
        r is Some <==> json_value_data(*v) is UInt,
        r matches Some(n) ==> n == json_value_data(*v)->UInt_0,
{
    v.as_u64()
}

/// Relies on serde_json::Value::as_object.
#[verifier::external_body]
fn value_as_object<'a>(v: &'a serde_json::Value) -> (r: Option<
    &'a serde_json::Map<String, serde_json::Value>,
>)
    ensures
        r is Some <==> json_value_data(*v) is Obj,
        r matches Some(m) ==> json_object_data(*m) == json_value_data(*v)->Obj_0,
{
    v.as_object()
}

/// Relies on serde_json::Value::as_array.
#[verifier::external_body]
fn value_as_array<'a>(v: &'a serde_json::Value) -> (r: Option<&'a Vec<serde_json::Value>>)
    ensures
        r is Some <==> json_value_data(*v) is Array,
        r matches Some(a) ==> a@.len() == json_value_data(*v)->Array_0.len() && (forall|i: int|
            0 <= i < a@.len() ==> #[trigger] json_value_data(a@[i]) == json_value_data(
                *v,
            )->Array_0[i]),
{
    v.as_array()
}

/// Relies on the Display implementation of serde_json::Error for the
/// parser diagnostic carried into a decode failure.
#[verifier::external_body]
fn json_error_string(e: &serde_json::Error) -> String {
    e.to_string()
}

// ---------------------------------------------------------------------
// Reading typed fields out of the JSON data, specified and verified.
// ---------------------------------------------------------------------

/// A required string member: present and a JSON string.
pub open spec fn req_text(m: Map<Seq<char>, JsonData>, k: Seq<char>) -> Option<Seq<char>> {
    if m.dom().contains(k) && m[k] is Text {
        Some(m[k]->Text_0)
    } else {
        None
    }
}

/// An optional string member: absent or null stands for nothing;
/// anything but a string is a shape mismatch (the outer option).
pub open spec fn opt_text(m: Map<Seq<char>, JsonData>, k: Seq<char>) -> Option<Option<Seq<char>>> {
    if !m.dom().contains(k) {
        Some(None)
    } else if m[k] is Null {
        Some(None)
    } else if m[k] is Text {
        Some(Some(m[k]->Text_0))
    } else {
        None
    }
}

/// A string member that defaults to empty when absent.
pub open spec fn def_text(m: Map<Seq<char>, JsonData>, k: Seq<char>) -> Option<Seq<char>> {
    if !m.dom().contains(k) {
        Some(Seq::empty())
    } else if m[k] is Text {
        Some(m[k]->Text_0)
    } else {
        None
    }
}

/// A required unsigned 16-bit member.
pub open spec fn req_u16(m: Map<Seq<char>, JsonData>, k: Seq<char>) -> Option<u16> {
    if m.dom().contains(k) && m[k] is UInt && m[k]->UInt_0 <= u16::MAX as u64 {
        Some(m[k]->UInt_0 as u16)
    } else {
        None
    }
}

fn read_req_text(m: &serde_json::Map<String, serde_json::Value>, key: &str) -> (r: Option<String>)
    ensures
        match r {
            Some(s) => req_text(json_object_data(*m), key@) == Some(s@),
            None => req_text(json_object_data(*m), key@) is None,
        },
{
    match object_get(m, key) {
        None => None,
        Some(v) => match value_as_str(v) {
            Some(s) => Some(String::from_str(s)),
            None => None,
        },
    }
}

fn read_opt_text(m: &serde_json::Map<String, serde_json::Value>, key: &str) -> (r: Option<
    Option<String>,
>)
    ensures
        match r {
            Some(o) => opt_text(json_object_data(*m), key@) == Some(opt_str_view(o)),
            None => opt_text(json_object_data(*m), key@) is None,
        },
{
    match object_get(m, key) {
        None => Some(None),
        Some(v) => {
            if value_is_null(v) {
                Some(None)
            } else {
                match value_as_str(v) {
                    Some(s) => Some(Some(String::from_str(s))),
                    None => None,
                }
            }
        }
    }
}

fn read_def_text(m: &serde_json::Map<String, serde_json::Value>, key: &str) -> (r: Option<String>)
    ensures
        match r {
            Some(s) => def_text(json_object_data(*m), key@) == Some(s@),
            None => def_text(json_object_data(*m), key@) is None,
        },
{
    match object_get(m, key) {
        None => Some(String::new()),
        Some(v) => match value_as_str(v) {
            Some(s) => Some(String::from_str(s)),
            None => None,
        },
    }
}

fn read_req_u16(m: &serde_json::Map<String, serde_json::Value>, key: &str) -> (r: Option<u16>)
    ensures
        match r {
            Some(n) => req_u16(json_object_data(*m), key@) == Some(n),
            None => req_u16(json_object_data(*m), key@) is None,
        },
{
    match object_get(m, key) {
        None => None,
        Some(v) => match value_as_u64(v) {
            Some(n) => {
                if n <= u16::MAX as u64 {
                    Some(n as u16)
                } else {
                    None
                }
            }
            None => None,
        },
    }
}

// ---------------------------------------------------------------------
// The structured upstream error.
// ---------------------------------------------------------------------

/// The upstream error shape: an object whose `code` is an integer
/// status that fits 16 bits and whose `message` is a string.
pub open spec fn spec_youtube_error_of(d: JsonData) -> Option<(u16, Seq<char>)> {
    if d is Obj {
        let m = d->Obj_0;
        match (req_u16(m, "code"@), req_text(m, "message"@)) {
            (Some(c), Some(t)) => Some((c, t)),
            _ => None,
        }
    } else {
        None
    }
}

/// Read the structured upstream error out of the value found under
/// the `error` key.
fn read_youtube_error(v: &serde_json::Value) -> (r: Option<YoutubeError>)
    ensures
        match r {
            Some(e) => spec_youtube_error_of(json_value_data(*v)) == Some((e.code, e.message@)),
            None => spec_youtube_error_of(json_value_data(*v)) is None,
        },
{
    match value_as_object(v) {
        None => None,
        Some(m) => match (read_req_u16(m, "code"), read_req_text(m, "message")) {
            (Some(code), Some(message)) => Some(YoutubeError { code, message }),
            _ => None,
        },
    }
}

// ---------------------------------------------------------------------
// The video shapes.
// ---------------------------------------------------------------------

/// All elements of the array are JSON strings.
pub open spec fn all_texts(a: Seq<JsonData>) -> bool {
    forall|i: int| 0 <= i < a.len() ==> a[i] is Text
}

/// The texts of an array of JSON strings.
pub open spec fn texts_of(a: Seq<JsonData>) -> Seq<Seq<char>> {
    Seq::new(a.len(), |i: int| a[i]->Text_0)
}

/// An optional list-of-strings member: absent or null stands for
/// nothing; an array of strings is the list; anything else is a shape
/// mismatch.
pub open spec fn opt_texts(m: Map<Seq<char>, JsonData>, k: Seq<char>) -> Option<
    Option<Seq<Seq<char>>>,
> {
    if !m.dom().contains(k) {
        Some(None)
    } else if m[k] is Null {
        Some(None)
    } else if m[k] is Array && all_texts(m[k]->Array_0) {
        Some(Some(texts_of(m[k]->Array_0)))
    } else {
        None
    }
}

fn read_opt_texts(m: &serde_json::Map<String, serde_json::Value>, key: &str) -> (r: Option<
    Option<Vec<String>>,
>)
    ensures
        match r {
            Some(o) => opt_texts(json_object_data(*m), key@) == Some(opt_strs_view(o)),
            None => opt_texts(json_object_data(*m), key@) is None,
        },
{
    match object_get(m, key) {
        None => Some(None),
        Some(v) => {
            if value_is_null(v) {
                return Some(None);
            }
            match value_as_array(v) {
                None => None,
                Some(arr) => {
                    let ghost a = json_value_data(*v)->Array_0;
                    let n = arr.len();
                    let mut out: Vec<String> = Vec::new();
                    let mut i: usize = 0;
                    while i < n
                        invariant
                            n == arr@.len(),
                            n == a.len(),
                            i <= n,
                            out@.len() == i,
                            json_object_data(*m).dom().contains(key@),
                            json_object_data(*m)[key@] == json_value_data(*v),
                            json_value_data(*v) is Array,
                            a == json_value_data(*v)->Array_0,
                            forall|k: int|
                                0 <= k < n ==> #[trigger] json_value_data(arr@[k]) == a[k],
                            forall|k: int| 0 <= k < i ==> (#[trigger] a[k]) is Text,
                            forall|k: int| 0 <= k < i ==> #[trigger] out@[k]@ == a[k]->Text_0,
                        decreases n - i,
                    {
                        match value_as_str(&arr[i]) {
                            None => {
                                proof {
                                    assert(json_value_data(arr@[i as int]) == a[i as int]);
                                    assert(!(a[i as int] is Text));
                                    assert(!all_texts(a));
                                }
                                return None;
                            }
                            Some(s) => {
                                out.push(String::from_str(s));
                                proof {
                                    assert(json_value_data(arr@[i as int]) == a[i as int]);
                                }
                            }
                        }
                        i += 1;
                    }
                    proof {
                        assert forall|k: int| 0 <= k < a.len() implies (#[trigger] a[k])
                            is Text by {}
                        assert(all_texts(a));
                        assert(opt_strs_view(Some(out)) matches Some(ts) && ts =~~= texts_of(a));
                    }
                    Some(Some(out))
                }
            }
        }
    }
}

/// The localized title/description shape.
pub open spec fn spec_location_of(d: JsonData) -> Option<LocationView> {
    if d is Obj {
        let m = d->Obj_0;
        match (req_text(m, "title"@), req_text(m, "description"@)) {
            (Some(t), Some(de)) => Some(LocationView { title: t, description: de }),
            _ => None,
        }
    } else {
        None
    }
}

/// A required member holding the localized shape.
pub open spec fn req_location(m: Map<Seq<char>, JsonData>, k: Seq<char>) -> Option<LocationView> {
    if m.dom().contains(k) {
        spec_location_of(m[k])
    } else {
        None
    }
}

fn read_req_location(m: &serde_json::Map<String, serde_json::Value>, key: &str) -> (r: Option<
    Location,
>)
    ensures
        match r {
            Some(l) => req_location(json_object_data(*m), key@) == Some(l@),
            None => req_location(json_object_data(*m), key@) is None,
        },
{
    match object_get(m, key) {
        None => None,
        Some(v) => match value_as_object(v) {
            None => None,
            Some(lm) => match (read_req_text(lm, "title"), read_req_text(lm, "description")) {
                (Some(title), Some(description)) => Some(Location { title, description }),
                _ => None,
            },
        },
    }
}

/// The snippet shape, with the API's camel-case member names.
pub open spec fn spec_snippet_of(d: JsonData) -> Option<VideoSnippetView> {
    if d is Obj {
        let m = d->Obj_0;
        if req_text(m, "publishedAt"@) is Some && req_text(m, "channelId"@) is Some && req_text(
            m,
            "title"@,
        ) is Some && req_text(m, "description"@) is Some && req_text(m, "channelTitle"@) is Some
            && opt_texts(m, "tags"@) is Some && req_text(m, "categoryId"@) is Some && opt_text(
            m,
            "liveBroadcastContent"@,
        ) is Some && opt_text(m, "defaultLanguage"@) is Some && req_location(m, "localized"@)
            is Some && opt_text(m, "defaultAudioLanguage"@) is Some {
            Some(
                VideoSnippetView {
                    published_at: req_text(m, "publishedAt"@)->0,
                    channel_id: req_text(m, "channelId"@)->0,
                    title: req_text(m, "title"@)->0,
                    description: req_text(m, "description"@)->0,
                    channel_title: req_text(m, "channelTitle"@)->0,
                    tags: opt_texts(m, "tags"@)->0,
                    category_id: req_text(m, "categoryId"@)->0,
                    live_broadcast_content: opt_text(m, "liveBroadcastContent"@)->0,
                    default_language: opt_text(m, "defaultLanguage"@)->0,
                    localized: req_location(m, "localized"@)->0,
                    default_audio_language: opt_text(m, "defaultAudioLanguage"@)->0,
                },
            )
        } else {
            None
        }
    } else {
        None
    }
}

fn read_snippet(v: &serde_json::Value) -> (r: Option<VideoSnippet>)
    ensures
        match r {
            Some(s) => spec_snippet_of(json_value_data(*v)) == Some(s@),
            None => spec_snippet_of(json_value_data(*v)) is None,
        },
{
    let m = match value_as_object(v) {
        Some(m) => m,
        None => {
            return None;
        }
    };
    let published_at = match read_req_text(m, "publishedAt") {
        Some(x) => x,
        None => {
            return None;
        }
    };
    let channel_id = match read_req_text(m, "channelId") {
        Some(x) => x,
        None => {
            return None;
        }
    };
    let title = match read_req_text(m, "title") {
        Some(x) => x,
        None => {
            return None;
        }
    };
    let description = match read_req_text(m, "description") {
        Some(x) => x,
        None => {
            return None;
        }
    };
    let channel_title = match read_req_text(m, "channelTitle") {
        Some(x) => x,
        None => {
            return None;
        }
    };
    let tags = match read_opt_texts(m, "tags") {
        Some(x) => x,
        None => {
            return None;
        }
    };
    let category_id = match read_req_text(m, "categoryId") {
        Some(x) => x,
        None => {
            return None;
        }
    };
    let live_broadcast_content = match read_opt_text(m, "liveBroadcastContent") {
        Some(x) => x,
        None => {
            return None;
        }
    };
    let default_language = match read_opt_text(m, "defaultLanguage") {
        Some(x) => x,
        None => {
            return None;
        }
    };
    let localized = match read_req_location(m, "localized") {
        Some(x) => x,
        None => {
            return None;
        }
    };
    let default_audio_language = match read_opt_text(m, "defaultAudioLanguage") {
        Some(x) => x,
        None => {
            return None;
        }
    };
    Some(
        VideoSnippet {
            published_at,
            channel_id,
            title,
            description,
            channel_title,
            tags,
            category_id,
            live_broadcast_content,
            default_language,
            localized,
            default_audio_language,
        },
    )
}

/// An optional member holding the snippet shape: absent or null
/// stands for nothing.
pub open spec fn opt_snippet(m: Map<Seq<char>, JsonData>, k: Seq<char>) -> Option<
    Option<VideoSnippetView>,
> {
    if !m.dom().contains(k) {
        Some(None)
    } else if m[k] is Null {
        Some(None)
    } else {
        match spec_snippet_of(m[k]) {
            Some(s) => Some(Some(s)),
            None => None,
        }
    }
}

/// The video shape, read from the members of an object.
pub open spec fn spec_video_of_obj(m: Map<Seq<char>, JsonData>) -> Option<YoutubeVideoView> {
    if req_text(m, "kind"@) is Some && req_text(m, "etag"@) is Some && req_text(m, "id"@) is Some
        && opt_snippet(m, "snippet"@) is Some {
        Some(
            YoutubeVideoView {
                kind: req_text(m, "kind"@)->0,
                etag: req_text(m, "etag"@)->0,
                id: req_text(m, "id"@)->0,
                snippet: opt_snippet(m, "snippet"@)->0,
            },
        )
    } else {
        None
    }
}

/// The video shape of a JSON value.
pub open spec fn spec_video_of(d: JsonData) -> Option<YoutubeVideoView> {
    if d is Obj {
        spec_video_of_obj(d->Obj_0)
    } else {
        None
    }
}

fn read_video_object(m: &serde_json::Map<String, serde_json::Value>) -> (r: Option<YoutubeVideo>)
    ensures
        match r {
            Some(video) => spec_video_of_obj(json_object_data(*m)) == Some(video@),
            None => spec_video_of_obj(json_object_data(*m)) is None,
        },
{
    let kind = match read_req_text(m, "kind") {
        Some(x) => x,
        None => {
            return None;
        }
    };
    let etag = match read_req_text(m, "etag") {
        Some(x) => x,
        None => {
            return None;
        }
    };
    let id = match read_req_text(m, "id") {
        Some(x) => x,
        None => {
            return None;
        }
    };
    let snippet = match object_get(m, "snippet") {
        None => None,
        Some(sv) => {
            if value_is_null(sv) {
                None
            } else {
                match read_snippet(sv) {
                    Some(s) => Some(s),
                    None => {
                        return None;
                    }
                }
            }
        }
    };
    Some(YoutubeVideo { kind, etag, id, snippet })
}

fn read_video(v: &serde_json::Value) -> (r: Option<YoutubeVideo>)
    ensures
        match r {
            Some(video) => spec_video_of(json_value_data(*v)) == Some(video@),
            None => spec_video_of(json_value_data(*v)) is None,
        },
{
    match value_as_object(v) {
        None => None,
        Some(m) => read_video_object(m),
    }
}

// ---------------------------------------------------------------------
// The list-response shape.
// ---------------------------------------------------------------------

/// How a list response reports its extent.
#[derive(Clone, Copy, Debug, PartialEq, Eq, Structural)]
pub struct YoutubePageInfo {
    pub total_results: u16,
    pub results_per_page: u16,
}

/// Spec-level image of a list response.
pub ghost struct YoutubeListResponseView<TV> {
    pub kind: Seq<char>,
    pub etag: Seq<char>,
    pub next_page_token: Seq<char>,
    pub prev_page_token: Seq<char>,
    pub page_info: YoutubePageInfo,
    pub items: Seq<TV>,
}

/// A page of resources as the list operation returns it; the page
/// tokens default to empty when the response has none.
#[derive(Debug)]
pub struct YoutubeListResponse<T> {
    pub kind: String,
    pub etag: String,
    pub next_page_token: String,
    pub prev_page_token: String,
    pub page_info: YoutubePageInfo,
    pub items: Vec<T>,
}

impl<T: View> View for YoutubeListResponse<T> {
    type V = YoutubeListResponseView<T::V>;

    open spec fn view(&self) -> YoutubeListResponseView<T::V> {
        YoutubeListResponseView {
            kind: self.kind@,
            etag: self.etag@,
            next_page_token: self.next_page_token@,
            prev_page_token: self.prev_page_token@,
            page_info: self.page_info,
            items: Seq::new(self.items@.len(), |i: int| self.items@[i]@),
        }
    }
}

/// The page-extent shape.
pub open spec fn spec_page_info_of(d: JsonData) -> Option<YoutubePageInfo> {
    if d is Obj {
        let m = d->Obj_0;
        match (req_u16(m, "totalResults"@), req_u16(m, "resultsPerPage"@)) {
            (Some(t), Some(rp)) => Some(
                YoutubePageInfo { total_results: t, results_per_page: rp },
            ),
            _ => None,
        }
    } else {
        None
    }
}

/// A required member holding the page-extent shape.
pub open spec fn req_page_info(m: Map<Seq<char>, JsonData>, k: Seq<char>) -> Option<
    YoutubePageInfo,
> {
    if m.dom().contains(k) {
        spec_page_info_of(m[k])
    } else {
        None
    }
}

fn read_req_page_info(m: &serde_json::Map<String, serde_json::Value>, key: &str) -> (r: Option<
    YoutubePageInfo,
>)
    ensures
        match r {
            Some(p) => req_page_info(json_object_data(*m), key@) == Some(p),
            None => req_page_info(json_object_data(*m), key@) is None,
        },
{
    match object_get(m, key) {
        None => None,
        Some(v) => match value_as_object(v) {
            None => None,
            Some(pm) => match (
                read_req_u16(pm, "totalResults"),
                read_req_u16(pm, "resultsPerPage"),
            ) {
                (Some(total_results), Some(results_per_page)) => Some(
                    YoutubePageInfo { total_results, results_per_page },
                ),
                _ => None,
            },
        },
    }
}

/// All elements of the array match the video shape.
pub open spec fn all_videos(a: Seq<JsonData>) -> bool {
    forall|i: int| 0 <= i < a.len() ==> spec_video_of(a[i]) is Some
}

/// The videos of an array of video shapes.
pub open spec fn videos_of(a: Seq<JsonData>) -> Seq<YoutubeVideoView> {
    Seq::new(a.len(), |i: int| spec_video_of(a[i])->0)
}

/// A required member holding an array of video shapes.
pub open spec fn req_videos(m: Map<Seq<char>, JsonData>, k: Seq<char>) -> Option<
    Seq<YoutubeVideoView>,
> {
    if m.dom().contains(k) && m[k] is Array && all_videos(m[k]->Array_0) {
        Some(videos_of(m[k]->Array_0))
    } else {
        None
    }
}

fn read_req_videos(m: &serde_json::Map<String, serde_json::Value>, key: &str) -> (r: Option<
    Vec<YoutubeVideo>,
>)
    ensures
        match r {
            Some(vs) => req_videos(json_object_data(*m), key@) == Some(
                Seq::new(vs@.len(), |i: int| vs@[i]@),
            ),
            None => req_videos(json_object_data(*m), key@) is None,
        },
{
    match object_get(m, key) {
        None => None,
        Some(v) => match value_as_array(v) {
            None => None,
            Some(arr) => {
                let ghost a = json_value_data(*v)->Array_0;
                let n = arr.len();
                let mut out: Vec<YoutubeVideo> = Vec::new();
                let mut i: usize = 0;
                while i < n
                    invariant
                        n == arr@.len(),
                        n == a.len(),
                        i <= n,
                        out@.len() == i,
                        json_object_data(*m).dom().contains(key@),
                        json_object_data(*m)[key@] == json_value_data(*v),
                        json_value_data(*v) is Array,
                        a == json_value_data(*v)->Array_0,
                        forall|k: int| 0 <= k < n ==> #[trigger] json_value_data(arr@[k]) == a[k],
                        forall|k: int|
                            0 <= k < i ==> (#[trigger] spec_video_of(a[k])) is Some,
                        forall|k: int|
                            0 <= k < i ==> #[trigger] out@[k]@ == spec_video_of(a[k])->0,
                    decreases n - i,
                {
                    match read_video(&arr[i]) {
                        None => {
                            proof {
                                assert(json_value_data(arr@[i as int]) == a[i as int]);
                                assert(spec_video_of(a[i as int]) is None);
                                assert(!all_videos(a));
                            }
                            return None;
                        }
                        Some(video) => {
                            out.push(video);
                            proof {
                                assert(json_value_data(arr@[i as int]) == a[i as int]);
                            }
                        }
                    }
                    i += 1;
                }
                proof {
                    assert forall|k: int| 0 <= k < a.len() implies (#[trigger] spec_video_of(
                        a[k],
                    )) is Some by {}
                    assert(all_videos(a));
                    assert(Seq::new(out@.len(), |i: int| out@[i]@) =~~= videos_of(a));
                }
                Some(out)
            }
        },
    }
}

/// The list-response shape, read from the members of an object.
pub open spec fn spec_video_list_of_obj(m: Map<Seq<char>, JsonData>) -> Option<
    YoutubeListResponseView<YoutubeVideoView>,
> {
    if req_text(m, "kind"@) is Some && req_text(m, "etag"@) is Some && def_text(
        m,
        "nextPageToken"@,
    ) is Some && def_text(m, "prevPageToken"@) is Some && req_page_info(m, "pageInfo"@) is Some
        && req_videos(m, "items"@) is Some {
        Some(
            YoutubeListResponseView {
                kind: req_text(m, "kind"@)->0,
                etag: req_text(m, "etag"@)->0,
                next_page_token: def_text(m, "nextPageToken"@)->0,
                prev_page_token: def_text(m, "prevPageToken"@)->0,
                page_info: req_page_info(m, "pageInfo"@)->0,
                items: req_videos(m, "items"@)->0,
            },
        )
    } else {
        None
    }
}

fn read_video_list_object(m: &serde_json::Map<String, serde_json::Value>) -> (r: Option<
    YoutubeListResponse<YoutubeVideo>,
>)
    ensures
        match r {
            Some(list) => spec_video_list_of_obj(json_object_data(*m)) == Some(list@),
            None => spec_video_list_of_obj(json_object_data(*m)) is None,
        },
{
    let kind = match read_req_text(m, "kind") {
        Some(x) => x,
        None => {
            return None;
        }
    };
    let etag = match read_req_text(m, "etag") {
        Some(x) => x,
        None => {
            return None;
        }
    };
    let next_page_token = match read_def_text(m, "nextPageToken") {
        Some(x) => x,
        None => {
            return None;
        }
    };
    let prev_page_token = match read_def_text(m, "prevPageToken") {
        Some(x) => x,
        None => {
            return None;
        }
    };
    let page_info = match read_req_page_info(m, "pageInfo") {
        Some(x) => x,
        None => {
            return None;
        }
    };
    let items = match read_req_videos(m, "items") {
        Some(x) => x,
        None => {
            return None;
        }
    };
    Some(
        YoutubeListResponse {
            kind,
            etag,
            next_page_token,
            prev_page_token,
            page_info,
            items,
        },
    )
}

// ---------------------------------------------------------------------
// The envelope.
// ---------------------------------------------------------------------

/// What decoding a response body comes to, for a success shape whose
/// reading is given by `read`: a body that is no JSON object, or whose
/// relevant branch does not match its shape, is malformed; a body
/// with an `error` member is the upstream error it carries, whatever
/// the expected success shape; anything else is the success value.
pub open spec fn spec_decode_envelope<TV>(
    s: Seq<char>,
    read: spec_fn(Map<Seq<char>, JsonData>) -> Option<TV>,
) -> Option<Result<TV, (u16, Seq<char>)>> {
    match parsed_json_object(s) {
        None => None,
        Some(m) => {
            if m.dom().contains("error"@) {
                match spec_youtube_error_of(m["error"@]) {
                    Some(e) => Some(Err(e)),
                    None => None,
                }
            } else {
                match read(m) {
                    Some(tv) => Some(Ok(tv)),
                    None => None,
                }
            }
        }
    }
}

/// Decode a response body whose success shape is a single video.  A
/// body carrying an `error` member yields the structured upstream
/// error regardless of the success shape; a body matching neither
/// shape yields a decode error with a diagnostic.
pub fn decode_video_response(text: &str) -> (r: Result<YoutubeVideo, ClientError>)
    ensures
        match spec_decode_envelope(text@, (|m: Map<Seq<char>, JsonData>| spec_video_of_obj(m))) {
            Some(Ok(v)) => r matches Ok(video) && video@ == v,
            Some(Err((c, t))) => r matches Err(ClientError::Youtube(e)) && e.code == c
                && e.message@ == t,
            None => r matches Err(e) && e is Decode,
        },
{
    match parse_object(text) {
        Err(e) => Err(ClientError::Decode(json_error_string(&e))),
        Ok(map) => match object_get(&map, "error") {
            Some(ev) => match read_youtube_error(ev) {
                Some(e) => Err(ClientError::Youtube(e)),
                None => Err(
                    ClientError::Decode(
                        String::from_str("error object in response body has an unexpected shape"),
                    ),
                ),
            },
            None => match read_video_object(&map) {
                Some(video) => Ok(video),
                None => Err(
                    ClientError::Decode(
                        String::from_str("response body does not match the video shape"),
                    ),
                ),
            },
        },
    }
}

/// Decode a response body whose success shape is a page of videos.
/// A body carrying an `error` member yields the structured upstream
/// error regardless of the success shape; a body matching neither
/// shape yields a decode error with a diagnostic.
pub fn decode_video_list_response(text: &str) -> (r: Result<
    YoutubeListResponse<YoutubeVideo>,
    ClientError,
>)
    ensures
        match spec_decode_envelope(
            text@,
            (|m: Map<Seq<char>, JsonData>| spec_video_list_of_obj(m)),
        ) {
            Some(Ok(v)) => r matches Ok(list) && list@ == v,
            Some(Err((c, t))) => r matches Err(ClientError::Youtube(e)) && e.code == c
                && e.message@ == t,
            None => r matches Err(e) && e is Decode,
        },
{
    match parse_object(text) {
        Err(e) => Err(ClientError::Decode(json_error_string(&e))),
        Ok(map) => match object_get(&map, "error") {
            Some(ev) => match read_youtube_error(ev) {
                Some(e) => Err(ClientError::Youtube(e)),
                None => Err(
                    ClientError::Decode(
                        String::from_str("error object in response body has an unexpected shape"),
                    ),
                ),
            },
            None => match read_video_list_object(&map) {
                Some(list) => Ok(list),
                None => Err(
                    ClientError::Decode(
                        String::from_str("response body does not match the list shape"),
                    ),
                ),
            },
        },
    }
}

} // verus!
