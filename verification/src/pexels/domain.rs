//! The Pexels domain model: the records its endpoints answer with.

use vstd::prelude::*;

verus! {

/// One page of a collection listing.
#[derive(Debug, Clone)]
pub struct CollectionsResponse {
    pub collections: Vec<Collection>,
    pub page: u32,
    pub per_page: u32,
    pub total_results: u32,
    pub next_page: Option<String>,
    pub prev_page: Option<String>,
}

/// One collection record.
#[derive(Debug, Clone)]
pub struct Collection {
    pub id: String,
    pub title: String,
    pub description: Option<String>,
    pub private: bool,
    pub media_count: u32,
    pub photos_count: u32,
    pub videos_count: u32,
}

/// One page of a collection's media.
#[derive(Debug, Clone)]
pub struct MediaResponse {
    pub id: String,
    pub media: Vec<MediaType>,
    pub page: u32,
    pub per_page: u32,
    pub total_results: u32,
    pub next_page: Option<String>,
    pub prev_page: Option<String>,
}

/// One item of a collection: a photo or a video, tagged by kind.
#[derive(Debug, Clone)]
pub enum MediaType {
    Photo(MediaPhoto),
    Video(MediaVideo),
}

/// A photo as it stands inside a collection.
#[derive(Debug, Clone)]
pub struct MediaPhoto {
    pub type_: String,
    pub id: u32,
    pub width: u32,
    pub height: u32,
    pub url: Option<String>,
    pub photographer: Option<String>,
    pub photographer_url: Option<String>,
    pub photographer_id: u32,
    pub avg_color: String,
    pub src: PhotoSrc,
    pub liked: bool,
    pub alt: String,
}

impl MediaPhoto {
    /// Unwraps a collection item known to be a photo, marking its kind.
    pub fn from(media: MediaType) -> (r: MediaPhoto)
        requires
            media is Photo,
        ensures
            r == (MediaPhoto { type_: r.type_, ..media->Photo_0 }),
            r.type_@ == "Photo"@,
    {
        match media {
            MediaType::Photo(photo) => MediaPhoto { type_: "Photo".to_owned(), ..photo },
            MediaType::Video(_) => {
                proof {
                    assert(false);
                }
                unreached()
            },
        }
    }
}

/// A video as it stands inside a collection.
#[derive(Debug, Clone)]
pub struct MediaVideo {
    pub type_: String,
    pub id: u32,
    pub width: u32,
    pub height: u32,
    pub duration: u32,
    pub full_res: Option<String>,
    pub tags: Vec<String>,
    pub url: Option<String>,
    pub image: Option<String>,
    pub avg_color: Option<String>,
    pub user: User,
    pub video_files: Vec<VideoFile>,
    pub video_pictures: Vec<VideoPicture>,
}

impl MediaVideo {
    /// Unwraps a collection item known to be a video, marking its kind.
    pub fn from(media: MediaType) -> (r: MediaVideo)
        requires
            media is Video,
        ensures
            r == (MediaVideo { type_: r.type_, ..media->Video_0 }),
            r.type_@ == "Video"@,
    {
        match media {
            MediaType::Video(video) => MediaVideo { type_: "Video".to_owned(), ..video },
            MediaType::Photo(_) => {
                proof {
                    assert(false);
                }
                unreached()
            },
        }
    }
}

/// One photo record.
#[derive(Debug, Clone)]
pub struct Photo {
    pub id: u32,
    pub width: u32,
    pub height: u32,
    pub url: String,
    pub photographer: String,
    pub photographer_url: String,
    pub photographer_id: u32,
    pub avg_color: String,
    pub src: PhotoSrc,
    pub liked: bool,
    pub alt: String,
}

/// The alternate renditions of a photo.
#[derive(Debug, Clone)]
pub struct PhotoSrc {
    pub original: String,
    pub large2x: String,
    pub large: String,
    pub medium: String,
    pub small: String,
    pub portrait: String,
    pub landscape: String,
    pub tiny: String,
}

/// One page of a photo search.
#[derive(Debug, Clone)]
pub struct PhotosResponse {
    pub total_results: u32,
    pub page: u32,
    pub per_page: u32,
    pub photos: Vec<Photo>,
    pub next_page: Option<String>,
    pub prev_page: Option<String>,
}

/// One page of a video search.
#[derive(Debug, Clone)]
pub struct VideoResponse {
    pub page: u32,
    pub per_page: u32,
    pub total_results: u32,
    pub url: String,
    pub videos: Vec<Video>,
    pub prev_page: Option<String>,
    pub next_page: Option<String>,
}

/// One video record.
#[derive(Debug, Clone)]
pub struct Video {
    pub avg_color: Option<String>,
    pub duration: Option<u32>,
    pub full_res: Option<String>,
    pub height: u32,
    pub id: u32,
    pub image_url: String,
    pub tags: Vec<String>,
    pub video_url: String,
    pub user: User,
    pub video_files: Vec<VideoFile>,
    pub video_pictures: Vec<VideoPicture>,
    pub width: u32,
}

impl MediaPhoto {
    /// Re-frames a search photo as a collection item, marking its kind;
    /// the page address and author fields become present values.
    pub fn of_photo(photo: Photo) -> (r: MediaPhoto)
        ensures
            r.type_@ == "Photo"@,
            r.id == photo.id,
            r.width == photo.width,
            r.height == photo.height,
            r.url == Some(photo.url),
            r.photographer == Some(photo.photographer),
            r.photographer_url == Some(photo.photographer_url),
            r.photographer_id == photo.photographer_id,
            r.avg_color == photo.avg_color,
            r.src == photo.src,
            r.liked == photo.liked,
            r.alt == photo.alt,
    {
        MediaPhoto {
            type_: "Photo".to_owned(),
            id: photo.id,
            width: photo.width,
            height: photo.height,
            url: Some(photo.url),
            photographer: Some(photo.photographer),
            photographer_url: Some(photo.photographer_url),
            photographer_id: photo.photographer_id,
            avg_color: photo.avg_color,
            src: photo.src,
            liked: photo.liked,
            alt: photo.alt,
        }
    }
}

impl MediaVideo {
    /// Re-frames a search video as a collection item, marking its kind; an
    /// unknown duration becomes zero.
    pub fn of_video(video: Video) -> (r: MediaVideo)
        ensures
            r.type_@ == "Video"@,
            r.id == video.id,
            r.width == video.width,
            r.height == video.height,
            r.duration == (match video.duration {
                Some(d) => d,
                None => 0u32,
            }),
            r.full_res == video.full_res,
            r.tags == video.tags,
            r.url == Some(video.video_url),
            r.image == Some(video.image_url),
            r.avg_color == video.avg_color,
            r.user == video.user,
            r.video_files == video.video_files,
            r.video_pictures == video.video_pictures,
    {
        MediaVideo {
            type_: "Video".to_owned(),
            id: video.id,
            width: video.width,
            height: video.height,
            duration: match video.duration {
                Some(d) => d,
                None => 0,
            },
            full_res: video.full_res,
            tags: video.tags,
            url: Some(video.video_url),
            image: Some(video.image_url),
            avg_color: video.avg_color,
            user: video.user,
            video_files: video.video_files,
            video_pictures: video.video_pictures,
        }
    }
}

/// The author of a media item.
#[derive(Debug, Clone)]
pub struct User {
    pub id: u32,
    pub name: String,
    pub user_url: String,
}

/// One file of a video: its integer metadata and its link. The frame rate,
/// which only the wire format carries, stays outside the model.
#[derive(Debug, Clone)]
pub struct VideoFile {
    pub file_type: String,
    pub height: u32,
    pub id: u32,
    pub file_link: String,
    pub quality: Option<String>,
    pub size: u64,
    pub width: u32,
}

/// One preview picture of a video.
#[derive(Debug, Clone)]
pub struct VideoPicture {
    pub id: u32,
    pub nr: u32,
    pub picture_url: String,
}

} // verus!
