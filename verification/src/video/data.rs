//! The video data model.

use vstd::prelude::*;

verus! {

/// Spec-level image of a localized title and description.
pub ghost struct LocationView {
    pub title: Seq<char>,
    pub description: Seq<char>,
}

/// Spec-level image of a video snippet.
pub ghost struct VideoSnippetView {
    pub published_at: Seq<char>,
    pub channel_id: Seq<char>,
    pub title: Seq<char>,
    pub description: Seq<char>,
    pub channel_title: Seq<char>,
    pub tags: Option<Seq<Seq<char>>>,
    pub category_id: Seq<char>,
    pub live_broadcast_content: Option<Seq<char>>,
    pub default_language: Option<Seq<char>>,
    pub localized: LocationView,
    pub default_audio_language: Option<Seq<char>>,
}

/// Spec-level image of a video resource.
pub ghost struct YoutubeVideoView {
    pub kind: Seq<char>,
    pub etag: Seq<char>,
    pub id: Seq<char>,
    pub snippet: Option<VideoSnippetView>,
}

/// A localized title and description.
#[derive(Debug)]
pub struct Location {
    pub title: String,
    pub description: String,
}

impl View for Location {
    type V = LocationView;

    open spec fn view(&self) -> LocationView {
        LocationView { title: self.title@, description: self.description@ }
    }
}

/// The descriptive part of a video resource.
#[derive(Debug)]
pub struct VideoSnippet {
    pub published_at: String,
    pub channel_id: String,
    pub title: String,
    pub description: String,
    pub channel_title: String,
    pub tags: Option<Vec<String>>,
    pub category_id: String,
    pub live_broadcast_content: Option<String>,
    pub default_language: Option<String>,
    pub localized: Location,
    pub default_audio_language: Option<String>,
}

/// The view of an optional string field.
pub open spec fn opt_str_view(o: Option<String>) -> Option<Seq<char>> {
    match o {
        Some(s) => Some(s@),
        None => None,
    }
}

/// The view of an optional list of strings.
pub open spec fn opt_strs_view(o: Option<Vec<String>>) -> Option<Seq<Seq<char>>> {
    match o {
        Some(v) => Some(Seq::new(v@.len(), |i: int| v@[i]@)),
        None => None,
    }
}

impl View for VideoSnippet {
    type V = VideoSnippetView;

    open spec fn view(&self) -> VideoSnippetView {
        VideoSnippetView {
            published_at: self.published_at@,
            channel_id: self.channel_id@,
            title: self.title@,
            description: self.description@,
            channel_title: self.channel_title@,
            tags: opt_strs_view(self.tags),
            category_id: self.category_id@,
            live_broadcast_content: opt_str_view(self.live_broadcast_content),
            default_language: opt_str_view(self.default_language),
            localized: self.localized@,
            default_audio_language: opt_str_view(self.default_audio_language),
        }
    }
}

/// One video resource as the API describes it.
#[derive(Debug)]
pub struct YoutubeVideo {
    pub kind: String,
    pub etag: String,
    pub id: String,
    pub snippet: Option<VideoSnippet>,
}

impl View for YoutubeVideo {
    type V = YoutubeVideoView;

    open spec fn view(&self) -> YoutubeVideoView {
        YoutubeVideoView {
            kind: self.kind@,
            etag: self.etag@,
            id: self.id@,
            snippet: match self.snippet {
                Some(s) => Some(s@),
                None => None,
            },
        }
    }
}

} // verus!
