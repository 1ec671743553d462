//! The Pexels page model: photos, videos, and collections.

use crate::pexels::domain::{User, VideoPicture};
use vstd::prelude::*;

verus! {

/// One photo record.
#[derive(Debug, Clone)]
pub struct Photo {
    pub id: u64,
    pub width: u32,
    pub height: u32,
    pub url: String,
    pub photographer: String,
    pub photographer_url: Option<String>,
    pub photographer_id: Option<u64>,
    pub avg_color: Option<String>,
    pub src: PhotoSources,
    pub alt: Option<String>,
}

/// The alternate renditions of a photo.
#[derive(Debug, Clone)]
pub struct PhotoSources {
    pub original: String,
    pub large2x: String,
    pub large: String,
    pub medium: String,
    pub small: String,
    pub portrait: String,
    pub landscape: String,
    pub tiny: String,
}

/// One video record.
#[derive(Debug, Clone)]
pub struct Video {
    pub id: u64,
    pub width: u32,
    pub height: u32,
    pub url: String,
    pub image: String,
    pub duration: Option<u32>,
    pub user: User,
    pub video_files: Vec<VideoFile>,
    pub video_pictures: Vec<VideoPicture>,
}

/// One file of a video.
#[derive(Debug, Clone)]
pub struct VideoFile {
    pub id: u64,
    pub quality: String,
    pub file_type: String,
    pub width: Option<u32>,
    pub height: Option<u32>,
    pub link: String,
}

/// One page of a photo search.
#[derive(Debug, Clone)]
pub struct PhotosPage {
    pub page: u32,
    pub per_page: u32,
    pub photos: Vec<Photo>,
    pub total_results: u32,
    pub prev_page: Option<String>,
    pub next_page: Option<String>,
}

/// One page of a video search.
#[derive(Debug, Clone)]
pub struct VideosPage {
    pub page: u32,
    pub per_page: u32,
    pub videos: Vec<Video>,
    pub total_results: u32,
    pub prev_page: Option<String>,
    pub next_page: Option<String>,
}

/// One collection record.
#[derive(Debug, Clone)]
pub struct Collection {
    pub id: String,
    pub title: String,
    pub description: Option<String>,
    pub private: bool,
    pub media_count: u32,
    pub photos_count: u32,
    pub videos_count: u32,
}

/// One page of a collection listing.
#[derive(Debug, Clone)]
pub struct CollectionsPage {
    pub collections: Vec<Collection>,
    pub page: u32,
    pub per_page: u32,
    pub total_results: u32,
    pub next_page: Option<String>,
    pub prev_page: Option<String>,
}

/// One item of a collection: a photo or a video.
#[derive(Debug, Clone)]
pub enum MediaItemType {
    Photo(Photo),
    Video(Video),
}

/// One page of a collection's media.
#[derive(Debug, Clone)]
pub struct MediaPage {
    pub id: String,
    pub media: Vec<MediaItemType>,
    pub page: u32,
    pub per_page: u32,
    pub total_results: u32,
    pub next_page: Option<String>,
    pub prev_page: Option<String>,
}

} // verus!
