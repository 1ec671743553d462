//! The Pexels transfer manager: quality selection and deterministic file
//! naming; the byte transfers themselves are run by the embedding program
//! against the transfer-accounting model.

use crate::http::new_http_client_with;
use crate::pexels::models::{Photo, Video, VideoFile};
use crate::text::{spec_decimal, u64_to_string};
use vstd::prelude::*;

verus! {

/// The selectable renditions of a photo.
#[derive(Debug, Clone, Copy, PartialEq, Eq, Structural)]
pub enum ImageQuality {
    Original,
    Large2x,
    Large,
    Medium,
    Small,
    Portrait,
    Landscape,
    Tiny,
}

/// The selectable qualities of a video.
#[derive(Debug, Clone, Copy, PartialEq, Eq, Structural)]
pub enum VideoQuality {
    HD,
    SD,
    Tiny,
}

/// The transfer manager: an HTTP handle and the concurrency limit for
/// batches.
pub struct DownloadManager {
    pub client: reqwest::Client,
    pub max_concurrent: usize,
}

/// The photo URL of one rendition.
pub open spec fn spec_photo_url(photo: Photo, quality: ImageQuality) -> Seq<char> {
    match quality {
        ImageQuality::Original => photo.src.original@,
        ImageQuality::Large2x => photo.src.large2x@,
        ImageQuality::Large => photo.src.large@,
        ImageQuality::Medium => photo.src.medium@,
        ImageQuality::Small => photo.src.small@,
        ImageQuality::Portrait => photo.src.portrait@,
        ImageQuality::Landscape => photo.src.landscape@,
        ImageQuality::Tiny => photo.src.tiny@,
    }
}

/// Whether one file satisfies the requested quality: the HD and SD labels
/// by name, the tiny tier by type and dimensions.
pub open spec fn spec_file_matches(f: VideoFile, quality: VideoQuality) -> bool {
    match quality {
        VideoQuality::HD => f.quality@ == "hd"@ || f.quality@ == "HD"@,
        VideoQuality::SD => f.quality@ == "sd"@,
        VideoQuality::Tiny => f.file_type@ == "video/mp4"@ && ((match f.width {
            Some(w) => w,
            None => 0u32,
        }) <= 640 || (match f.height {
            Some(h) => h,
            None => 0u32,
        }) <= 360),
    }
}

/// The first file satisfying the quality, if any.
pub open spec fn spec_first_match(files: Seq<VideoFile>, quality: VideoQuality) -> Option<int>
    decreases files.len(),
{
    if files.len() == 0 {
        None
    } else {
        match spec_first_match(files.drop_last(), quality) {
            Some(i) => Some(i),
            None => if spec_file_matches(files.last(), quality) {
                Some(files.len() - 1)
            } else {
                None
            },
        }
    }
}

/// The file a video request selects: the first satisfying file, else the
/// first file of the list.
pub open spec fn spec_video_file_choice(files: Seq<VideoFile>, quality: VideoQuality) -> int {
    match spec_first_match(files, quality) {
        Some(i) => i,
        None => 0,
    }
}

impl DownloadManager {
    /// A manager with the given concurrency limit, on a client with a
    /// sixty-second timeout.
    pub fn new(max_concurrent: usize) -> (r: DownloadManager)
        ensures
            r.max_concurrent == max_concurrent,
    {
        DownloadManager { client: new_http_client_with(60, 20), max_concurrent }
    }

    /// A manager over the given client.
    pub fn with_client(client: reqwest::Client, max_concurrent: usize) -> (r: DownloadManager)
        ensures
            r.max_concurrent == max_concurrent,
    {
        DownloadManager { client, max_concurrent }
    }

    /// The URL of the requested photo rendition.
    pub fn get_photo_url(&self, photo: &Photo, quality: ImageQuality) -> (r: String)
        ensures
            r@ == spec_photo_url(*photo, quality),
    {
        match quality {
            ImageQuality::Original => photo.src.original.clone(),
            ImageQuality::Large2x => photo.src.large2x.clone(),
            ImageQuality::Large => photo.src.large.clone(),
            ImageQuality::Medium => photo.src.medium.clone(),
            ImageQuality::Small => photo.src.small.clone(),
            ImageQuality::Portrait => photo.src.portrait.clone(),
            ImageQuality::Landscape => photo.src.landscape.clone(),
            ImageQuality::Tiny => photo.src.tiny.clone(),
        }
    }

    /// The URL of the file the requested video quality selects; the video
    /// must carry at least one file.
    pub fn get_video_url(&self, video: &Video, quality: VideoQuality) -> (r: String)
        requires
            video.video_files@.len() > 0,
        ensures
            r@ == video.video_files@[spec_video_file_choice(video.video_files@, quality)].link@,
    {
        let files = &video.video_files;
        let n = files.len();
        let mut i: usize = 0;
        while i < n
            invariant
                0 <= i <= files@.len(),
                n == files@.len(),
                files@ == video.video_files@,
                files@.len() > 0,
                spec_first_match(files@.take(i as int), quality) is None,
            decreases n - i,
        {
            proof {
                assert(files@.take(i + 1 as int).drop_last() =~= files@.take(i as int));
                assert(files@.take(i + 1 as int).last() == files@[i as int]);
            }
            let f = &files[i];
            let matches_q: bool = match quality {
                VideoQuality::HD => crate::text::string_eq_str(&f.quality, "hd")
                    || crate::text::string_eq_str(&f.quality, "HD"),
                VideoQuality::SD => crate::text::string_eq_str(&f.quality, "sd"),
                VideoQuality::Tiny => {
                    let w: u32 = match f.width {
                        Some(w) => w,
                        None => 0,
                    };
                    let h: u32 = match f.height {
                        Some(h) => h,
                        None => 0,
                    };
                    crate::text::string_eq_str(&f.file_type, "video/mp4") && (w <= 640 || h <= 360)
                },
            };
            proof {
                assert(matches_q == spec_file_matches(files@[i as int], quality));
            }
            if matches_q {
                proof {
                    lemma_first_match_extends(files@, quality, i as int);
                }
                return f.link.clone();
            }
            i = i + 1;
        }
        proof {
            assert(files@.take(n as int) =~= files@);
        }
        files[0].link.clone()
    }
}

/// If the search fails on the first `i` files and file `i` matches, the
/// whole search yields `i`.
proof fn lemma_first_match_extends(files: Seq<VideoFile>, quality: VideoQuality, i: int)
    requires
        0 <= i < files.len(),
        spec_first_match(files.take(i), quality) is None,
        spec_file_matches(files[i], quality),
    ensures
        spec_first_match(files, quality) == Some(i),
    decreases files.len(),
{
    if files.len() - 1 > i {
        assert(files.drop_last().take(i) =~= files.take(i));
        lemma_first_match_extends(files.drop_last(), quality, i);
    } else {
        assert(files.take(i) =~= files.drop_last());
    }
}

/// The deterministic file name of a photo: `photo_<id>.jpg`.
pub fn photo_file_name(photo: &Photo) -> (r: String)
    ensures
        r@ == "photo_"@ + spec_decimal(photo.id as int) + ".jpg"@,
{
    let mut out: String = "photo_".to_owned();
    let digits = u64_to_string(photo.id);
    out.append(digits.as_str());
    out.append(".jpg");
    out
}

/// The deterministic file name of a video: `video_<id>.mp4`.
pub fn video_file_name(video: &Video) -> (r: String)
    ensures
        r@ == "video_"@ + spec_decimal(video.id as int) + ".mp4"@,
{
    let mut out: String = "video_".to_owned();
    let digits = u64_to_string(video.id);
    out.append(digits.as_str());
    out.append(".mp4");
    out
}

} // verus!
