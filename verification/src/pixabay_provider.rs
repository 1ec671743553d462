//! The Pixabay provider: query normalization and the mapping of Pixabay
//! records onto the provider-agnostic media model.

use crate::models::{
    files_view, items_view, MediaItem, MediaItemView, MediaMetadata, MediaType, MediaUrls,
    MediaUrlsView, SearchResult, VideoFile, VideoFileView,
};
use crate::pixabay::client::Pixabay;
use crate::pixabay::models::{Image, ImageResponse, Video, VideoFiles, VideoResponse};
use crate::text::{chars_to_string, join_chars, join_with, spec_clean_tokens, spec_decimal,
    spec_trimmed_tokens, split_by, split_chars, str_chars, trimmed_token_strings, u64_to_string};
use vstd::prelude::*;

verus! {

/// The Pixabay provider: the client it searches and fetches through.
pub struct PixabayProvider {
    pub client: Pixabay,
}

/// Whether a character separates keywords in a Pixabay query: space,
/// comma, semicolon, or vertical bar.
pub open spec fn is_pixabay_sep(c: char) -> bool {
    c == ' ' || c == ',' || c == ';' || c == '|'
}

/// The normalized Pixabay query: keywords split on the separators, trimmed,
/// emptied ones dropped, and joined with `+`.
pub open spec fn spec_pixabay_query(s: Seq<char>) -> Seq<char> {
    join_with(spec_clean_tokens(split_by(s, |c: char| is_pixabay_sep(c))), "+"@)
}

impl PixabayProvider {
    /// A provider searching Pixabay with the given API key.
    pub fn new(api_key: String) -> (r: PixabayProvider)
        ensures
            r.client.api_key == api_key,
    {
        PixabayProvider { client: Pixabay::new(api_key) }
    }

    /// Normalizes a query: keywords may come space-, comma-, semicolon- or
    /// bar-separated; they leave joined with `+`, surrounding whitespace
    /// and empty entries removed.
    pub fn process_query(query: &str) -> (r: String)
        ensures
            r@ == spec_pixabay_query(query@),
    {
        let chars = str_chars(query);
        let parts = split_chars(
            &chars,
            (|c: &char| -> (b: bool)
                ensures
                    b == is_pixabay_sep(*c),
                { *c == ' ' || *c == ',' || *c == ';' || *c == '|' }),
            Ghost(|c: char| is_pixabay_sep(c)),
        );
        let cleaned = crate::text::clean_tokens(&parts);
        let mut sep: Vec<char> = Vec::new();
        sep.push('+');
        proof {
            reveal_strlit("+");
            assert(sep@ =~= "+"@);
        }
        let joined = join_chars(&cleaned, &sep);
        chars_to_string(&joined)
    }
}

/// The tag list of a record: the tag string split on commas, each tag
/// trimmed, empty entries kept.
pub open spec fn spec_tag_list(s: Seq<char>) -> Seq<Seq<char>> {
    spec_trimmed_tokens(split_by(s, |c: char| c == ','))
}

/// Splits a comma-separated tag string into trimmed tags.
pub fn split_tags(s: &str) -> (r: Vec<String>)
    ensures
        r@.map_values(|t: String| t@) == spec_tag_list(s@),
{
    let chars = str_chars(s);
    let parts = split_chars(
        &chars,
        (|c: &char| -> (b: bool)
            ensures
                b == (*c == ','),
            { *c == ',' }),
        Ghost(|c: char| c == ','),
    );
    trimmed_token_strings(&parts)
}

/// The page URL of a Pixabay user.
pub open spec fn spec_user_url(user: Seq<char>, user_id: int) -> Seq<char> {
    "https://pixabay.com/users/"@ + user + "-"@ + spec_decimal(user_id) + "/"@
}

/// Builds the page URL of a Pixabay user.
pub fn user_url(user: &str, user_id: u64) -> (r: String)
    ensures
        r@ == spec_user_url(user@, user_id as int),
{
    let mut out: String = "https://pixabay.com/users/".to_owned();
    out.append(user);
    out.append("-");
    let digits = u64_to_string(user_id);
    out.append(digits.as_str());
    out.append("/");
    out
}

/// The media item a Pixabay image record maps to.
pub open spec fn spec_item_of_image(img: Image) -> MediaItemView {
    MediaItemView {
        id: spec_decimal(img.id as int),
        media_type: MediaType::Image,
        title: img.tags@,
        description: img.tags@,
        tags: spec_tag_list(img.tags@),
        author: img.user@,
        author_url: spec_user_url(img.user@, img.user_id as int),
        source_url: img.page_url@,
        provider: "Pixabay"@,
        urls: MediaUrlsView {
            thumbnail: img.preview_url@,
            medium: Some(img.webformat_url@),
            large: Some(img.large_image_url@),
            original: match img.image_url {
                Some(u) => Some(u@),
                None => None,
            },
            video_files: None,
        },
        metadata: MediaMetadata {
            width: img.image_width,
            height: img.image_height,
            size: Some(img.image_size),
            duration: None,
            views: img.views,
            downloads: img.downloads,
            likes: img.likes,
        },
    }
}

/// Maps one Pixabay image record onto the provider-agnostic model.
pub fn media_item_from_image(img: Image) -> (r: MediaItem)
    ensures
        r@ == spec_item_of_image(img),
{
    let tags = split_tags(img.tags.as_str());
    let author_url = user_url(img.user.as_str(), img.user_id);
    MediaItem {
        id: u64_to_string(img.id),
        media_type: MediaType::Image,
        title: img.tags.clone(),
        description: img.tags,
        tags,
        author: img.user,
        author_url,
        source_url: img.page_url,
        provider: "Pixabay".to_owned(),
        urls: MediaUrls {
            thumbnail: img.preview_url,
            medium: Some(img.webformat_url),
            large: Some(img.large_image_url),
            original: img.image_url,
            video_files: None,
        },
        metadata: MediaMetadata {
            width: img.image_width,
            height: img.image_height,
            size: Some(img.image_size),
            duration: None,
            views: img.views,
            downloads: img.downloads,
            likes: img.likes,
        },
    }
}

/// The labelled file list of a Pixabay video: large, medium, small and
/// tiny, in that order, absent resolutions skipped.
pub open spec fn spec_video_files(v: VideoFiles) -> Seq<VideoFileView> {
    let s0 = Seq::<VideoFileView>::empty();
    let s1 = match v.large {
        Some(f) => s0.push(spec_labelled_file("large"@, f)),
        None => s0,
    };
    let s2 = match v.medium {
        Some(f) => s1.push(spec_labelled_file("medium"@, f)),
        None => s1,
    };
    let s3 = match v.small {
        Some(f) => s2.push(spec_labelled_file("small"@, f)),
        None => s2,
    };
    match v.tiny {
        Some(f) => s3.push(spec_labelled_file("tiny"@, f)),
        None => s3,
    }
}

/// One Pixabay file under its quality label.
pub open spec fn spec_labelled_file(
    label: Seq<char>,
    f: crate::pixabay::models::VideoFile,
) -> VideoFileView {
    VideoFileView {
        quality: label,
        url: f.url@,
        width: f.width,
        height: f.height,
        size: f.size,
        thumbnail: Some(f.thumbnail@),
    }
}

fn labelled_file(label: &str, f: &crate::pixabay::models::VideoFile) -> (r: VideoFile)
    ensures
        r@ == spec_labelled_file(label@, *f),
{
    VideoFile {
        quality: label.to_owned(),
        url: f.url.clone(),
        width: f.width,
        height: f.height,
        size: f.size,
        thumbnail: Some(f.thumbnail.clone()),
    }
}

/// Collects the present files of a Pixabay video under their labels.
pub fn video_files_of(v: &VideoFiles) -> (r: Vec<VideoFile>)
    ensures
        files_view(r@) == spec_video_files(*v),
{
    let mut out: Vec<VideoFile> = Vec::new();
    proof {
        assert(files_view(out@) =~= Seq::<VideoFileView>::empty());
    }
    if let Some(f) = &v.large {
        out.push(labelled_file("large", f));
    }
    proof {
        assert(files_view(out@) =~= match v.large {
            Some(f) => Seq::<VideoFileView>::empty().push(spec_labelled_file("large"@, f)),
            None => Seq::<VideoFileView>::empty(),
        });
    }
    let ghost s1 = files_view(out@);
    if let Some(f) = &v.medium {
        out.push(labelled_file("medium", f));
    }
    proof {
        assert(files_view(out@) =~= match v.medium {
            Some(f) => s1.push(spec_labelled_file("medium"@, f)),
            None => s1,
        });
    }
    let ghost s2 = files_view(out@);
    if let Some(f) = &v.small {
        out.push(labelled_file("small", f));
    }
    proof {
        assert(files_view(out@) =~= match v.small {
            Some(f) => s2.push(spec_labelled_file("small"@, f)),
            None => s2,
        });
    }
    let ghost s3 = files_view(out@);
    if let Some(f) = &v.tiny {
        out.push(labelled_file("tiny", f));
    }
    proof {
        assert(files_view(out@) =~= match v.tiny {
            Some(f) => s3.push(spec_labelled_file("tiny"@, f)),
            None => s3,
        });
        assert(files_view(out@) == spec_video_files(*v));
    }
    out
}

/// The thumbnail of a video item: the first file's, or empty when there is
/// no file at all.
pub open spec fn spec_video_thumbnail(files: Seq<VideoFileView>) -> Seq<char> {
    if files.len() > 0 {
        match files[0].thumbnail {
            Some(t) => t,
            None => Seq::<char>::empty(),
        }
    } else {
        Seq::<char>::empty()
    }
}

/// The media item a Pixabay video record maps to.
pub open spec fn spec_item_of_video(vid: Video) -> MediaItemView {
    let files = spec_video_files(vid.videos);
    MediaItemView {
        id: spec_decimal(vid.id as int),
        media_type: MediaType::Video,
        title: vid.tags@,
        description: vid.tags@,
        tags: spec_tag_list(vid.tags@),
        author: vid.user@,
        author_url: spec_user_url(vid.user@, vid.user_id as int),
        source_url: vid.page_url@,
        provider: "Pixabay"@,
        urls: MediaUrlsView {
            thumbnail: spec_video_thumbnail(files),
            medium: match vid.videos.medium {
                Some(f) => Some(f.url@),
                None => None,
            },
            large: match vid.videos.large {
                Some(f) => Some(f.url@),
                None => None,
            },
            original: None,
            video_files: Some(files),
        },
        metadata: MediaMetadata {
            width: match vid.videos.large {
                Some(f) => f.width,
                None => 0,
            },
            height: match vid.videos.large {
                Some(f) => f.height,
                None => 0,
            },
            size: match vid.videos.large {
                Some(f) => Some(f.size),
                None => None,
            },
            duration: Some(vid.duration),
            views: vid.views,
            downloads: vid.downloads,
            likes: vid.likes,
        },
    }
}

/// Maps one Pixabay video record onto the provider-agnostic model. The
/// medium and large image tiers are taken from the files that carry those
/// labels, as the file list was built.
pub fn media_item_from_video(vid: Video) -> (r: MediaItem)
    ensures
        r@ == spec_item_of_video(vid),
{
    let files = video_files_of(&vid.videos);
    let thumbnail: String = if files.len() > 0 {
        match &files[0].thumbnail {
            Some(t) => t.clone(),
            None => String::new(),
        }
    } else {
        String::new()
    };
    let medium: Option<String> = match &vid.videos.medium {
        Some(f) => Some(f.url.clone()),
        None => None,
    };
    let large: Option<String> = match &vid.videos.large {
        Some(f) => Some(f.url.clone()),
        None => None,
    };
    let metadata = MediaMetadata {
        width: match &vid.videos.large {
            Some(f) => f.width,
            None => 0,
        },
        height: match &vid.videos.large {
            Some(f) => f.height,
            None => 0,
        },
        size: match &vid.videos.large {
            Some(f) => Some(f.size),
            None => None,
        },
        duration: Some(vid.duration),
        views: vid.views,
        downloads: vid.downloads,
        likes: vid.likes,
    };
    let tags = split_tags(vid.tags.as_str());
    let author_url = user_url(vid.user.as_str(), vid.user_id);
    MediaItem {
        id: u64_to_string(vid.id),
        media_type: MediaType::Video,
        title: vid.tags.clone(),
        description: vid.tags,
        tags,
        author: vid.user,
        author_url,
        source_url: vid.page_url,
        provider: "Pixabay".to_owned(),
        urls: MediaUrls {
            thumbnail,
            medium,
            large,
            original: None,
            video_files: Some(files),
        },
        metadata,
    }
}

/// The items of an image page, in the page's order.
pub open spec fn spec_items_of_images(hits: Seq<Image>) -> Seq<MediaItemView> {
    hits.map_values(|img: Image| spec_item_of_image(img))
}

/// The items of a video page, in the page's order.
pub open spec fn spec_items_of_videos(hits: Seq<Video>) -> Seq<MediaItemView> {
    hits.map_values(|vid: Video| spec_item_of_video(vid))
}

/// Maps an image page onto a provider page: every hit becomes an item, the
/// totals carry over, and the page count is derived from the total and the
/// page size.
pub fn search_result_from_images(response: ImageResponse, limit: u32, page: u32) -> (r:
    SearchResult)
    requires
        limit == 0 || response.total + limit <= u32::MAX,
    ensures
        r.total == response.total,
        r.total_hits == response.total_hits,
        r.page == page,
        r.per_page == limit,
        r.total_pages == crate::models::spec_total_pages(response.total as int, limit as int),
        items_view(r.items@) == spec_items_of_images(response.hits@),
        r.provider@ == "Pixabay"@,
{
    let ghost hv = response.hits@;
    let mut items: Vec<MediaItem> = Vec::new();
    let mut hits = response.hits;
    let mut i: usize = 0;
    let ghost n = hv.len();
    let hits_len = hits.len();
    proof {
        assert(n == hits_len);
    }
    while hits.len() > 0
        invariant
            i + hits@.len() == n,
            n <= usize::MAX,
            n == hv.len(),
            hits@ =~= hv.skip(i as int),
            items@.len() == i,
            forall|j: int| 0 <= j < i ==> #[trigger] items@[j]@ == spec_item_of_image(hv[j]),
        decreases hits@.len(),
    {
        let img = hits.remove(0);
        proof {
            assert(img == hv[i as int]);
            assert(hits@ =~= hv.skip(i + 1 as int));
        }
        items.push(media_item_from_image(img));
        i = i + 1;
    }
    proof {
        assert(items_view(items@) =~= spec_items_of_images(hv));
    }
    let total_pages = SearchResult::calculate_total_pages(response.total, limit);
    SearchResult {
        total: response.total,
        total_hits: response.total_hits,
        page,
        per_page: limit,
        total_pages,
        items,
        provider: "Pixabay".to_owned(),
    }
}

/// Maps a video page onto a provider page, like the image one.
pub fn search_result_from_videos(response: VideoResponse, limit: u32, page: u32) -> (r:
    SearchResult)
    requires
        limit == 0 || response.total + limit <= u32::MAX,
    ensures
        r.total == response.total,
        r.total_hits == response.total_hits,
        r.page == page,
        r.per_page == limit,
        r.total_pages == crate::models::spec_total_pages(response.total as int, limit as int),
        items_view(r.items@) == spec_items_of_videos(response.hits@),
        r.provider@ == "Pixabay"@,
{
    let ghost hv = response.hits@;
    let mut items: Vec<MediaItem> = Vec::new();
    let mut hits = response.hits;
    let mut i: usize = 0;
    let ghost n = hv.len();
    let hits_len = hits.len();
    proof {
        assert(n == hits_len);
    }
    while hits.len() > 0
        invariant
            i + hits@.len() == n,
            n <= usize::MAX,
            n == hv.len(),
            hits@ =~= hv.skip(i as int),
            items@.len() == i,
            forall|j: int| 0 <= j < i ==> #[trigger] items@[j]@ == spec_item_of_video(hv[j]),
        decreases hits@.len(),
    {
        let vid = hits.remove(0);
        proof {
            assert(vid == hv[i as int]);
            assert(hits@ =~= hv.skip(i + 1 as int));
        }
        items.push(media_item_from_video(vid));
        i = i + 1;
    }
    proof {
        assert(items_view(items@) =~= spec_items_of_videos(hv));
    }
    let total_pages = SearchResult::calculate_total_pages(response.total, limit);
    SearchResult {
        total: response.total,
        total_hits: response.total_hits,
        page,
        per_page: limit,
        total_pages,
        items,
        provider: "Pixabay".to_owned(),
    }
}

} // verus!
