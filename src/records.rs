//! The plain records that jobs and file commands hand to the host.
use vstd::prelude::*;

verus! {

/// Whether the main window is pinned above the others.
#[derive(Clone, Copy, PartialEq, Eq, Structural, Debug)]
pub struct AppWindowState {
    pub is_pinned: bool,
}

/// The answer of a video download job.
#[derive(Debug, PartialEq, Eq)]
pub struct DownloadResponse {
    pub success: bool,
    pub message: String,
}

/// One chunk of a download job's output, with the second it was read at.
#[derive(Debug, PartialEq, Eq)]
pub struct ProgressUpdate {
    pub output: String,
    pub timestamp: u64,
}

/// Where the thumbnails of a video went.
#[derive(Debug, PartialEq, Eq)]
pub struct VideoThumbnailResult {
    pub video_path: String,
    pub thumbnail_folder: String,
    pub vtt_file_path: String,
}

/// A file of a listed folder.
#[derive(Debug, PartialEq, Eq)]
pub struct FileMeta {
    pub filename: String,
    pub filesize: u64,
    pub birthtime: String,
    pub mtime: String,
    pub atime: String,
}

/// One renaming asked for: the current file name and the new one.
#[derive(Debug, PartialEq, Eq)]
pub struct RenameMapping {
    pub current: String,
    pub renamed: String,
}

/// One audio or subtitle track of a video.
#[derive(Debug, PartialEq, Eq)]
pub struct VideoTrackDetail {
    pub name: String,
    pub value: i32,
}

/// Whether the audio and subtitle streams chosen for a trim exist.
#[derive(Clone, Copy, PartialEq, Eq, Structural, Debug)]
pub struct StreamIndexExistence {
    pub audio_stream_index_exists: bool,
    pub subtitle_stream_index_exists: bool,
}

/// One video of a fetched playlist.
#[derive(Debug, PartialEq, Eq)]
pub struct VideoEntry {
    pub webpage_url: Option<String>,
    pub title: String,
    pub playlist_title: Option<String>,
    pub thumbnail: Option<String>,
    pub uploader: Option<String>,
    pub duration_string: Option<String>,
}

/// What a video address turned out to be.
#[derive(Debug, PartialEq, Eq)]
pub struct YTFetchResponse {
    pub url: String,
    pub content_type: String,
    pub title: String,
    pub duration: Option<String>,
    pub thumbnail: Option<String>,
    pub uploader: Option<String>,
    pub videos: Option<Vec<VideoEntry>>,
}

/// Cover and poster images of a title.
#[derive(Debug, PartialEq, Eq)]
pub struct TMDBImageData {
    pub cover: Option<String>,
    pub poster: Option<String>,
}

/// Cover, poster and trailer of a title.
#[derive(Debug, PartialEq, Eq)]
pub struct TMDBAssetData {
    pub cover: Option<String>,
    pub poster: Option<String>,
    pub trailer: Option<String>,
}

/// The poster image of a title.
#[derive(Debug, PartialEq, Eq)]
pub struct MoviePosterData {
    pub image_link: Option<String>,
}

/// The trailer of a title.
#[derive(Debug, PartialEq, Eq)]
pub struct YoutubeTrailerData {
    pub trailer_url: Option<String>,
}

/// The details of a game, as a store page gives them.
#[derive(Debug, PartialEq, Eq)]
pub struct SteamData {
    pub title: String,
    pub genre: Option<String>,
    pub description: Option<String>,
    pub about: Option<String>,
    pub release_date: Option<String>,
    pub year: Option<u16>,
    pub developers: Option<String>,
    pub publishers: Option<String>,
    pub cover: Option<String>,
    pub poster: Option<String>,
    pub trailer: Option<String>,
    pub other_images: Option<String>,
}

/// The details of a game, with the page they came from.
#[derive(Debug, PartialEq, Eq)]
pub struct GameData {
    pub scraped_url: String,
    pub title: String,
    pub genre: Option<String>,
    pub description: Option<String>,
    pub about: Option<String>,
    pub release_date: Option<String>,
    pub year: Option<u16>,
    pub developers: Option<String>,
    pub publishers: Option<String>,
    pub cover: Option<String>,
    pub poster: Option<String>,
    pub trailer: Option<String>,
    pub other_images: Option<String>,
}

/// One hit of an anime search.
#[derive(Debug, PartialEq, Eq)]
pub struct AnimeSearchResult {
    pub href: String,
    pub title: String,
    pub cover: Option<String>,
}

/// One hit of a game search.
#[derive(Debug, PartialEq, Eq)]
pub struct GameSearchResult {
    pub href: String,
    pub title: String,
    pub cover: Option<String>,
}

/// One hit of a movie search.
#[derive(Debug, PartialEq, Eq)]
pub struct MovieSearchResult {
    pub href: String,
    pub title: String,
    pub cover: Option<String>,
}

} // verus!
