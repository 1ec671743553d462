//! The Pexels provider: query normalization and the mapping of Pexels
//! records onto the provider-agnostic media model.

use crate::models::{
    files_view, items_view, MediaItem, MediaItemView, MediaMetadata, MediaType, MediaUrls,
    MediaUrlsView, SearchResult, VideoFile, VideoFileView,
};
use crate::pexels::client::Pexels;
use crate::pexels::domain::{Photo, PhotosResponse, Video, VideoResponse};
use crate::text::{chars_to_string, join_chars, join_with, lower_of, lowercase, spec_clean_tokens,
    spec_decimal, split_by, split_chars, str_chars, u64_to_string};
use vstd::prelude::*;

verus! {

/// The Pexels provider: the client it searches and fetches through.
pub struct PexelsProvider {
    pub client: Pexels,
}

/// Whether a character separates keywords in a Pexels query: comma,
/// semicolon, or vertical bar; spaces stay, since the API takes natural
/// language.
pub open spec fn is_pexels_sep(c: char) -> bool {
    c == ',' || c == ';' || c == '|'
}

/// The normalized Pexels query: keywords split on the separators, trimmed,
/// emptied ones dropped, and joined with a space.
pub open spec fn spec_pexels_query(s: Seq<char>) -> Seq<char> {
    join_with(spec_clean_tokens(split_by(s, |c: char| is_pexels_sep(c))), " "@)
}

impl PexelsProvider {
    /// A provider searching Pexels with the given API key.
    pub fn new(api_key: String) -> (r: PexelsProvider)
        ensures
            r.client.api_key == api_key,
    {
        PexelsProvider { client: Pexels::new(api_key) }
    }

    /// Normalizes a query: comma-, semicolon- or bar-separated keywords
    /// leave joined with spaces, surrounding whitespace and empty entries
    /// removed.
    pub fn process_query(query: &str) -> (r: String)
        ensures
            r@ == spec_pexels_query(query@),
    {
        let chars = str_chars(query);
        let parts = split_chars(
            &chars,
            (|c: &char| -> (b: bool)
                ensures
                    b == is_pexels_sep(*c),
                { *c == ',' || *c == ';' || *c == '|' }),
            Ghost(|c: char| is_pexels_sep(c)),
        );
        let cleaned = crate::text::clean_tokens(&parts);
        let mut sep: Vec<char> = Vec::new();
        sep.push(' ');
        proof {
            reveal_strlit(" ");
            assert(sep@ =~= " "@);
        }
        let joined = join_chars(&cleaned, &sep);
        chars_to_string(&joined)
    }
}

/// The media item a Pexels photo record maps to.
pub open spec fn spec_item_of_photo(photo: Photo) -> MediaItemView {
    MediaItemView {
        id: spec_decimal(photo.id as int),
        media_type: MediaType::Image,
        title: photo.alt@,
        description: photo.alt@,
        tags: Seq::<Seq<char>>::empty(),
        author: photo.photographer@,
        author_url: photo.photographer_url@,
        source_url: photo.url@,
        provider: "Pexels"@,
        urls: MediaUrlsView {
            thumbnail: photo.src.tiny@,
            medium: Some(photo.src.medium@),
            large: Some(photo.src.large@),
            original: Some(photo.src.original@),
            video_files: None,
        },
        metadata: MediaMetadata {
            width: photo.width,
            height: photo.height,
            size: None,
            duration: None,
            views: 0,
            downloads: 0,
            likes: 0,
        },
    }
}

/// Maps one Pexels photo record onto the provider-agnostic model.
pub fn media_item_from_photo(photo: Photo) -> (r: MediaItem)
    ensures
        r@ == spec_item_of_photo(photo),
{
    proof {
        assert(crate::models::strings_view(Seq::<String>::empty()) =~= Seq::<Seq<char>>::empty());
    }
    MediaItem {
        id: u64_to_string(photo.id as u64),
        media_type: MediaType::Image,
        title: photo.alt.clone(),
        description: photo.alt,
        tags: Vec::new(),
        author: photo.photographer,
        author_url: photo.photographer_url,
        source_url: photo.url,
        provider: "Pexels".to_owned(),
        urls: MediaUrls {
            thumbnail: photo.src.tiny,
            medium: Some(photo.src.medium),
            large: Some(photo.src.large),
            original: Some(photo.src.original),
            video_files: None,
        },
        metadata: MediaMetadata {
            width: photo.width,
            height: photo.height,
            size: None,
            duration: None,
            views: 0,
            downloads: 0,
            likes: 0,
        },
    }
}

/// The fusion file one Pexels video file maps to: its quality label or
/// empty, its link, its dimensions or zero; the size is unknown.
pub open spec fn spec_file_of_pexels(f: crate::pexels::domain::VideoFile) -> VideoFileView {
    VideoFileView {
        quality: match f.quality {
            Some(q) => q@,
            None => Seq::<char>::empty(),
        },
        url: f.file_link@,
        width: f.width,
        height: f.height,
        size: 0,
        thumbnail: None,
    }
}

/// The mapped file list of a Pexels video.
pub open spec fn spec_files_of_pexels(fs: Seq<crate::pexels::domain::VideoFile>) -> Seq<
    VideoFileView,
> {
    fs.map_values(|f: crate::pexels::domain::VideoFile| spec_file_of_pexels(f))
}

/// Maps the files of a Pexels video onto the provider-agnostic model.
pub fn video_files_from_pexels(fs: &Vec<crate::pexels::domain::VideoFile>) -> (r: Vec<VideoFile>)
    ensures
        files_view(r@) == spec_files_of_pexels(fs@),
{
    let mut out: Vec<VideoFile> = Vec::new();
    let mut i: usize = 0;
    let n = fs.len();
    while i < n
        invariant
            0 <= i <= fs@.len(),
            n == fs@.len(),
            out@.len() == i,
            forall|j: int| 0 <= j < i ==> #[trigger] out@[j]@ == spec_file_of_pexels(fs@[j]),
        decreases n - i,
    {
        let f = &fs[i];
        let quality: String = match &f.quality {
            Some(q) => q.clone(),
            None => "".to_owned(),
        };
        proof {
            reveal_strlit("");
            assert(""@ =~= Seq::<char>::empty());
        }
        out.push(
            VideoFile {
                quality,
                url: f.file_link.clone(),
                width: f.width,
                height: f.height,
                size: 0,
                thumbnail: None,
            },
        );
        i = i + 1;
    }
    proof {
        assert(files_view(out@) =~= spec_files_of_pexels(fs@));
    }
    out
}

/// Whether the sequence holds `hd` somewhere.
pub open spec fn contains_hd(s: Seq<char>) -> bool {
    exists|j: int| 0 <= j && j + 1 < s.len() && #[trigger] s[j] == 'h' && s[j + 1] == 'd'
}

/// Tests whether the lowercased string holds `hd`.
fn quality_has_hd(quality: &String) -> (r: bool)
    ensures
        r == contains_hd(lower_of(quality@)),
{
    let low = lowercase(quality.as_str());
    let chars = str_chars(low.as_str());
    if chars.len() == 0 {
        return false;
    }
    let mut j: usize = 0;
    let n = chars.len();
    while j + 1 < n
        invariant
            n >= 1,
            0 <= j < n,
            n == chars@.len(),
            chars@ == lower_of(quality@),
            forall|k: int| 0 <= k < j ==> !(#[trigger] chars@[k] == 'h' && chars@[k + 1] == 'd'),
        decreases n - j,
    {
        if chars[j] == 'h' && chars[j + 1] == 'd' {
            assert(contains_hd(lower_of(quality@)));
            return true;
        }
        j = j + 1;
    }
    proof {
        assert forall|k: int| 0 <= k && k + 1 < chars@.len() implies !(#[trigger] chars@[k] == 'h'
            && chars@[k + 1] == 'd') by {
            assert(k < j);
        }
    }
    false
}

/// The first mapped file whose lowercased quality holds `hd`, if any.
pub open spec fn first_hd_idx(files: Seq<VideoFileView>) -> Option<int>
    decreases files.len(),
{
    if files.len() == 0 {
        None
    } else {
        match first_hd_idx(files.drop_last()) {
            Some(i) => Some(i),
            None => if contains_hd(lower_of(files.last().quality)) {
                Some(files.len() - 1)
            } else {
                None
            },
        }
    }
}

/// The URL of the first `hd`-labelled file, if any.
pub open spec fn spec_hd_url(files: Seq<VideoFileView>) -> Option<Seq<char>> {
    match first_hd_idx(files) {
        Some(i) => Some(files[i].url),
        None => None,
    }
}

/// Finds the URL of the first file whose lowercased quality holds `hd`.
pub fn hd_url(files: &Vec<VideoFile>) -> (r: Option<String>)
    ensures
        match r {
            Some(u) => spec_hd_url(files_view(files@)) == Some(u@),
            None => spec_hd_url(files_view(files@)) is None,
        },
{
    let ghost fv = files_view(files@);
    let mut i: usize = 0;
    let n = files.len();
    while i < n
        invariant
            0 <= i <= fv.len(),
            n == fv.len(),
            fv == files_view(files@),
            first_hd_idx(fv.take(i as int)) is None,
        decreases n - i,
    {
        proof {
            assert(fv.take(i + 1 as int).drop_last() =~= fv.take(i as int));
            assert(fv.take(i + 1 as int).last() == fv[i as int]);
        }
        if quality_has_hd(&files[i].quality) {
            proof {
                lemma_first_hd_extends(fv, i as int);
            }
            return Some(files[i].url.clone());
        }
        i = i + 1;
    }
    proof {
        assert(fv.take(n as int) =~= fv);
    }
    None
}

/// If the search fails on the first `i` files and file `i` matches, the
/// whole search yields `i`.
proof fn lemma_first_hd_extends(files: Seq<VideoFileView>, i: int)
    requires
        0 <= i < files.len(),
        first_hd_idx(files.take(i)) is None,
        contains_hd(lower_of(files[i].quality)),
    ensures
        first_hd_idx(files) == Some(i),
    decreases files.len(),
{
    if files.len() - 1 > i {
        assert(files.drop_last().take(i) =~= files.take(i));
        lemma_first_hd_extends(files.drop_last(), i);
    } else {
        assert(files.take(i) =~= files.drop_last());
    }
}

/// The media item a Pexels video record maps to: the files under their
/// labels, the medium and large image tiers both standing on the first
/// `hd`-labelled file.
pub open spec fn spec_item_of_pexels_video(video: Video) -> MediaItemView {
    let files = spec_files_of_pexels(video.video_files@);
    MediaItemView {
        id: spec_decimal(video.id as int),
        media_type: MediaType::Video,
        title: "Video"@,
        description: Seq::<char>::empty(),
        tags: Seq::<Seq<char>>::empty(),
        author: video.user.name@,
        author_url: video.user.user_url@,
        source_url: video.video_url@,
        provider: "Pexels"@,
        urls: MediaUrlsView {
            thumbnail: video.image_url@,
            medium: spec_hd_url(files),
            large: spec_hd_url(files),
            original: None,
            video_files: Some(files),
        },
        metadata: MediaMetadata {
            width: video.width,
            height: video.height,
            size: None,
            duration: video.duration,
            views: 0,
            downloads: 0,
            likes: 0,
        },
    }
}

/// Maps one Pexels video record onto the provider-agnostic model.
pub fn media_item_from_pexels_video(video: Video) -> (r: MediaItem)
    ensures
        r@ == spec_item_of_pexels_video(video),
{
    let files = video_files_from_pexels(&video.video_files);
    let medium = hd_url(&files);
    let large = hd_url(&files);
    proof {
        reveal_strlit("");
        assert(""@ =~= Seq::<char>::empty());
        assert(crate::models::strings_view(Seq::<String>::empty()) =~= Seq::<Seq<char>>::empty());
    }
    MediaItem {
        id: u64_to_string(video.id as u64),
        media_type: MediaType::Video,
        title: "Video".to_owned(),
        description: "".to_owned(),
        tags: Vec::new(),
        author: video.user.name,
        author_url: video.user.user_url,
        source_url: video.video_url,
        provider: "Pexels".to_owned(),
        urls: MediaUrls {
            thumbnail: video.image_url,
            medium,
            large,
            original: None,
            video_files: Some(files),
        },
        metadata: MediaMetadata {
            width: video.width,
            height: video.height,
            size: None,
            duration: video.duration,
            views: 0,
            downloads: 0,
            likes: 0,
        },
    }
}

/// The items of a photo page, in the page's order.
pub open spec fn spec_items_of_photos(photos: Seq<Photo>) -> Seq<MediaItemView> {
    photos.map_values(|p: Photo| spec_item_of_photo(p))
}

/// The items of a video page, in the page's order.
pub open spec fn spec_items_of_pexels_videos(videos: Seq<Video>) -> Seq<MediaItemView> {
    videos.map_values(|v: Video| spec_item_of_pexels_video(v))
}

/// Maps a photo page onto a provider page: every photo becomes an item,
/// the hit count is the number of items, and the page count is derived
/// from the total and the page size.
pub fn search_result_from_photos(response: PhotosResponse, limit: u32, page: u32) -> (r:
    SearchResult)
    requires
        limit == 0 || response.total_results + limit <= u32::MAX,
    ensures
        r.total == response.total_results,
        response.photos@.len() <= u32::MAX ==> r.total_hits == response.photos@.len(),
        r.page == page,
        r.per_page == limit,
        r.total_pages == crate::models::spec_total_pages(
            response.total_results as int,
            limit as int,
        ),
        items_view(r.items@) == spec_items_of_photos(response.photos@),
        r.provider@ == "Pexels"@,
{
    let ghost hv = response.photos@;
    let mut items: Vec<MediaItem> = Vec::new();
    let mut hits = response.photos;
    let mut i: usize = 0;
    let ghost n = hv.len();
    let hits_len = hits.len();
    proof {
        assert(n == hits_len);
    }
    while hits.len() > 0
        invariant
            i + hits@.len() == n,
            n <= usize::MAX,
            n == hv.len(),
            hits@ =~= hv.skip(i as int),
            items@.len() == i,
            forall|j: int| 0 <= j < i ==> #[trigger] items@[j]@ == spec_item_of_photo(hv[j]),
        decreases hits@.len(),
    {
        let photo = hits.remove(0);
        proof {
            assert(photo == hv[i as int]);
            assert(hits@ =~= hv.skip(i + 1 as int));
        }
        items.push(media_item_from_photo(photo));
        i = i + 1;
    }
    proof {
        assert(items_view(items@) =~= spec_items_of_photos(hv));
    }
    let total_hits: u32 = if items.len() > u32::MAX as usize {
        u32::MAX
    } else {
        items.len() as u32
    };
    let total_pages = SearchResult::calculate_total_pages(response.total_results, limit);
    SearchResult {
        total: response.total_results,
        total_hits,
        page,
        per_page: limit,
        total_pages,
        items,
        provider: "Pexels".to_owned(),
    }
}

/// Maps a video page onto a provider page, like the photo one.
pub fn search_result_from_pexels_videos(response: VideoResponse, limit: u32, page: u32) -> (r:
    SearchResult)
    requires
        limit == 0 || response.total_results + limit <= u32::MAX,
    ensures
        r.total == response.total_results,
        response.videos@.len() <= u32::MAX ==> r.total_hits == response.videos@.len(),
        r.page == page,
        r.per_page == limit,
        r.total_pages == crate::models::spec_total_pages(
            response.total_results as int,
            limit as int,
        ),
        items_view(r.items@) == spec_items_of_pexels_videos(response.videos@),
        r.provider@ == "Pexels"@,
{
    let ghost hv = response.videos@;
    let mut items: Vec<MediaItem> = Vec::new();
    let mut hits = response.videos;
    let mut i: usize = 0;
    let ghost n = hv.len();
    let hits_len = hits.len();
    proof {
        assert(n == hits_len);
    }
    while hits.len() > 0
        invariant
            i + hits@.len() == n,
            n <= usize::MAX,
            n == hv.len(),
            hits@ =~= hv.skip(i as int),
            items@.len() == i,
            forall|j: int| 0 <= j < i ==> #[trigger] items@[j]@ == spec_item_of_pexels_video(
                hv[j],
            ),
        decreases hits@.len(),
    {
        let video = hits.remove(0);
        proof {
            assert(video == hv[i as int]);
            assert(hits@ =~= hv.skip(i + 1 as int));
        }
        items.push(media_item_from_pexels_video(video));
        i = i + 1;
    }
    proof {
        assert(items_view(items@) =~= spec_items_of_pexels_videos(hv));
    }
    let total_hits: u32 = if items.len() > u32::MAX as usize {
        u32::MAX
    } else {
        items.len() as u32
    };
    let total_pages = SearchResult::calculate_total_pages(response.total_results, limit);
    SearchResult {
        total: response.total_results,
        total_hits,
        page,
        per_page: limit,
        total_pages,
        items,
        provider: "Pexels".to_owned(),
    }
}

} // verus!
