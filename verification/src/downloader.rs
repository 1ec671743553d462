//! Engine configuration, quality resolution, filename policy, and the
//! merge of per-provider search pages into one aggregated result.

use crate::error::MediaError;
use crate::models::{
    files_view, items_view, pages_view, AggregatedSearchResult, ImageQuality, MediaItem,
    MediaItemView, MediaType, MediaUrlsView, SearchResult, SearchResultView, VideoFileView,
    VideoQuality,
};
use crate::text::{chars_to_string, is_unicode_alphanumeric, lower_of, lowercase, str_chars,
    string_eq_str};
use vstd::prelude::*;

verus! {

/// Transfer configuration: preferred qualities, destination directory,
/// naming policy, and the concurrency limit.
#[derive(Debug, Clone)]
pub struct DownloadConfig {
    pub image_quality: ImageQuality,
    pub video_quality: VideoQuality,
    pub output_dir: String,
    pub use_original_names: bool,
    pub max_concurrent: usize,
}

impl Default for DownloadConfig {
    /// Large image and video quality, `./downloads`, synthesized names,
    /// five concurrent transfers.
    fn default() -> (r: DownloadConfig)
        ensures
            r.image_quality == ImageQuality::Large,
            r.video_quality == VideoQuality::Large,
            r.output_dir@ == "./downloads"@,
            !r.use_original_names,
            r.max_concurrent == 5,
    {
        DownloadConfig {
            image_quality: ImageQuality::Large,
            video_quality: VideoQuality::Large,
            output_dir: "./downloads".to_owned(),
            use_original_names: false,
            max_concurrent: 5,
        }
    }
}

/// A search request: the query, the page geometry, and the media kind.
#[derive(Debug, Clone)]
pub struct SearchParams {
    pub query: String,
    pub limit: u32,
    pub page: u32,
    pub media_type: MediaType,
}

impl SearchParams {
    /// A request for the first page of twenty results.
    pub fn new(query: &str, media_type: MediaType) -> (r: SearchParams)
        ensures
            r.query@ == query@,
            r.limit == 20,
            r.page == 1,
            r.media_type == media_type,
    {
        SearchParams { query: query.to_owned(), limit: 20, page: 1, media_type }
    }

    /// Replaces the page size.
    pub fn limit(self, limit: u32) -> (r: SearchParams)
        ensures
            r == (SearchParams { limit, ..self }),
    {
        SearchParams { limit, ..self }
    }

    /// Replaces the page number.
    pub fn page(self, page: u32) -> (r: SearchParams)
        ensures
            r == (SearchParams { page, ..self }),
    {
        SearchParams { page, ..self }
    }

    /// Replaces the page size.
    pub fn per_page(self, per_page: u32) -> (r: SearchParams)
        ensures
            r == (SearchParams { limit: per_page, ..self }),
    {
        SearchParams { limit: per_page, ..self }
    }
}

/// The URL an image request resolves to: the requested tier when present,
/// else the fixed fallback chain, ending at the thumbnail, which is always
/// present.
pub open spec fn spec_image_url(urls: MediaUrlsView, q: ImageQuality) -> Seq<char> {
    match q {
        ImageQuality::Thumbnail => urls.thumbnail,
        ImageQuality::Medium => if urls.medium is Some {
            urls.medium->Some_0
        } else if urls.large is Some {
            urls.large->Some_0
        } else {
            urls.thumbnail
        },
        ImageQuality::Large => if urls.large is Some {
            urls.large->Some_0
        } else if urls.medium is Some {
            urls.medium->Some_0
        } else {
            urls.thumbnail
        },
        ImageQuality::Original => if urls.original is Some {
            urls.original->Some_0
        } else if urls.large is Some {
            urls.large->Some_0
        } else if urls.medium is Some {
            urls.medium->Some_0
        } else {
            urls.thumbnail
        },
    }
}

/// The first index whose file's quality label equals `label`, if any.
pub open spec fn exact_label_idx(files: Seq<VideoFileView>, label: Seq<char>) -> Option<int>
    decreases files.len(),
{
    if files.len() == 0 {
        None
    } else {
        match exact_label_idx(files.drop_last(), label) {
            Some(i) => Some(i),
            None => if files.last().quality == label {
                Some(files.len() - 1)
            } else {
                None
            },
        }
    }
}

/// The index of the first file of minimal width among those at least
/// `threshold` wide, if any; ties keep the earlier file.
pub open spec fn best_above_idx(files: Seq<VideoFileView>, threshold: int) -> Option<int>
    decreases files.len(),
{
    if files.len() == 0 {
        None
    } else {
        let prev = best_above_idx(files.drop_last(), threshold);
        let j = files.len() - 1;
        if files[j].width >= threshold {
            match prev {
                None => Some(j),
                Some(i) => if files[j].width < files[i].width {
                    Some(j)
                } else {
                    Some(i)
                },
            }
        } else {
            prev
        }
    }
}

/// The index of the last file of maximal width, if any; ties keep the
/// later file.
pub open spec fn largest_width_idx(files: Seq<VideoFileView>) -> Option<int>
    decreases files.len(),
{
    if files.len() == 0 {
        None
    } else {
        let prev = largest_width_idx(files.drop_last());
        let j = files.len() - 1;
        match prev {
            None => Some(j),
            Some(i) => if files[j].width >= files[i].width {
                Some(j)
            } else {
                Some(i)
            },
        }
    }
}

/// The index of the file a video request resolves to: an exact label match
/// wins, else the smallest file satisfying the tier's width threshold, else
/// the widest file available; `None` only for an empty list.
pub open spec fn spec_video_choice(files: Seq<VideoFileView>, q: VideoQuality) -> Option<int> {
    if exact_label_idx(files, q.spec_str()) is Some {
        exact_label_idx(files, q.spec_str())
    } else if best_above_idx(files, q.spec_min_width() as int) is Some {
        best_above_idx(files, q.spec_min_width() as int)
    } else {
        largest_width_idx(files)
    }
}

/// Whether `r` is the successful resolution of `files` under quality `q`:
/// the URL of the chosen file.
pub open spec fn video_resolves(
    files: Seq<VideoFileView>,
    q: VideoQuality,
    r: Result<String, MediaError>,
) -> bool {
    &&& r is Ok
    &&& spec_video_choice(files, q) matches Some(ci) && r->Ok_0@ == files[ci].url
}

/// The whole contract of video resolution: no file list or an empty one is
/// refused with `InvalidQuality`, anything else resolves to the chosen
/// file's URL.
pub open spec fn video_url_contract(
    urls: MediaUrlsView,
    q: VideoQuality,
    r: Result<String, MediaError>,
) -> bool {
    match urls.video_files {
        None => r matches Err(MediaError::InvalidQuality(m)) && m@ == "no video files available"@,
        Some(f) => if f.len() == 0 {
            r matches Err(MediaError::InvalidQuality(m)) && m@
                == "no suitable video quality found"@
        } else {
            video_resolves(f, q, r)
        },
    }
}

impl DownloadConfig {
    /// Resolves an image item to a transfer URL under the configured image
    /// quality; never fails, since the fallback chain ends at the thumbnail.
    pub fn get_image_url(&self, item: &MediaItem) -> (r: Result<String, MediaError>)
        ensures
            r is Ok,
            r->Ok_0@ == spec_image_url(item.urls@, self.image_quality),
    {
        match self.image_quality {
            ImageQuality::Thumbnail => Ok(item.urls.thumbnail.clone()),
            ImageQuality::Medium => {
                if let Some(u) = &item.urls.medium {
                    Ok(u.clone())
                } else if let Some(u) = &item.urls.large {
                    Ok(u.clone())
                } else {
                    Ok(item.urls.thumbnail.clone())
                }
            },
            ImageQuality::Large => {
                if let Some(u) = &item.urls.large {
                    Ok(u.clone())
                } else if let Some(u) = &item.urls.medium {
                    Ok(u.clone())
                } else {
                    Ok(item.urls.thumbnail.clone())
                }
            },
            ImageQuality::Original => {
                if let Some(u) = &item.urls.original {
                    Ok(u.clone())
                } else if let Some(u) = &item.urls.large {
                    Ok(u.clone())
                } else if let Some(u) = &item.urls.medium {
                    Ok(u.clone())
                } else {
                    Ok(item.urls.thumbnail.clone())
                }
            },
        }
    }

    /// Resolves a video item to a transfer URL under the configured video
    /// quality. Fails only when the item carries no video file at all.
    pub fn get_video_url(&self, item: &MediaItem) -> (r: Result<String, MediaError>)
        ensures
            video_url_contract(item.urls@, self.video_quality, r),
    {
        let files = match &item.urls.video_files {
            Some(f) => f,
            None => {
                return Err(MediaError::InvalidQuality("no video files available".to_owned()));
            },
        };
        let label: &str = self.video_quality.as_str();
        let threshold: u32 = self.video_quality.min_width();
        let ghost fs = files_view(files@);
        let mut exact: Option<usize> = None;
        let mut best: Option<usize> = None;
        let mut widest: Option<usize> = None;
        let mut i: usize = 0;
        let n = files.len();
        while i < n
            invariant
                0 <= i <= fs.len(),
                n == fs.len(),
                fs == files_view(files@),
                label@ == self.video_quality.spec_str(),
                threshold == self.video_quality.spec_min_width(),
                exact_label_idx(fs.take(i as int), label@) == match exact {
                    Some(e) => Some(e as int),
                    None => None::<int>,
                },
                best_above_idx(fs.take(i as int), threshold as int) == match best {
                    Some(b) => Some(b as int),
                    None => None::<int>,
                },
                largest_width_idx(fs.take(i as int)) == match widest {
                    Some(w) => Some(w as int),
                    None => None::<int>,
                },
                exact matches Some(e) ==> e < i,
                best matches Some(b) ==> b < i,
                widest matches Some(w) ==> w < i,
            decreases n - i,
        {
            proof {
                assert(fs.take(i + 1 as int).drop_last() =~= fs.take(i as int));
                assert(fs.take(i + 1 as int).last() == fs[i as int]);
                assert(fs[i as int] == files@[i as int]@);
            }
            if exact.is_none() && string_eq_str(&files[i].quality, label) {
                exact = Some(i);
            }
            if files[i].width >= threshold {
                match best {
                    None => {
                        best = Some(i);
                    },
                    Some(b) => {
                        if files[i].width < files[b].width {
                            best = Some(i);
                        }
                    },
                }
            }
            match widest {
                None => {
                    widest = Some(i);
                },
                Some(w) => {
                    if files[i].width >= files[w].width {
                        widest = Some(i);
                    }
                },
            }
            i = i + 1;
        }
        proof {
            assert(fs.take(n as int) =~= fs);
        }
        if let Some(e) = exact {
            return Ok(files[e].url.clone());
        }
        if let Some(b) = best {
            return Ok(files[b].url.clone());
        }
        if let Some(w) = widest {
            return Ok(files[w].url.clone());
        }
        Err(MediaError::InvalidQuality("no suitable video quality found".to_owned()))
    }
}

/// Whether a character is kept by the filename sanitizer: alphanumeric,
/// underscore, or hyphen.
pub open spec fn is_filename_char(c: char) -> bool {
    is_unicode_alphanumeric(c) || c == '_' || c == '-'
}

/// The title with every character the sanitizer refuses removed.
pub open spec fn spec_sanitized(s: Seq<char>) -> Seq<char>
    decreases s.len(),
{
    if s.len() == 0 {
        Seq::<char>::empty()
    } else {
        let prev = spec_sanitized(s.drop_last());
        if is_filename_char(s.last()) {
            prev.push(s.last())
        } else {
            prev
        }
    }
}

/// The file extension for a media kind.
pub open spec fn spec_extension(mt: MediaType) -> Seq<char> {
    match mt {
        MediaType::Image => "jpg"@,
        MediaType::Video => "mp4"@,
    }
}

/// The deterministic file name of an item: `provider_id.ext` under original
/// names, else `provider_sanitizedtitle_id.ext`, with the raw id standing in
/// when the sanitized title is empty. The provider is lowercased.
pub open spec fn spec_filename(item: MediaItemView, use_original_names: bool) -> Seq<char> {
    let ext = spec_extension(item.media_type);
    if use_original_names {
        lower_of(item.provider) + "_"@ + item.id + "."@ + ext
    } else {
        let sanitized = spec_sanitized(item.title);
        let base = if sanitized.len() == 0 {
            item.id
        } else {
            sanitized
        };
        lower_of(item.provider) + "_"@ + base + "_"@ + item.id + "."@ + ext
    }
}

impl DownloadConfig {
    /// Synthesizes the destination file name for an item, deterministically,
    /// so that a retried run resolves to the same path.
    pub fn generate_filename(&self, item: &MediaItem) -> (r: String)
        ensures
            r@ == spec_filename(item@, self.use_original_names),
    {
        let extension: &str = match item.media_type {
            MediaType::Image => "jpg",
            MediaType::Video => "mp4",
        };
        let mut name = lowercase(item.provider.as_str());
        name.append("_");
        if self.use_original_names {
            name.append(item.id.as_str());
            name.append(".");
            name.append(extension);
            name
        } else {
            let title_chars = str_chars(item.title.as_str());
            let mut kept: Vec<char> = Vec::new();
            let mut i: usize = 0;
            let n = title_chars.len();
            while i < n
                invariant
                    0 <= i <= title_chars@.len(),
                    n == title_chars@.len(),
                    title_chars@ == item.title@,
                    kept@ == spec_sanitized(item.title@.take(i as int)),
                decreases n - i,
            {
                proof {
                    assert(item.title@.take(i + 1 as int).drop_last() =~= item.title@.take(
                        i as int,
                    ));
                    assert(item.title@.take(i + 1 as int).last() == item.title@[i as int]);
                }
                let c = title_chars[i];
                if char_keeps(c) {
                    kept.push(c);
                }
                i = i + 1;
            }
            proof {
                assert(item.title@.take(n as int) =~= item.title@);
            }
            if kept.len() == 0 {
                name.append(item.id.as_str());
            } else {
                let sanitized = chars_to_string(&kept);
                name.append(sanitized.as_str());
            }
            name.append("_");
            name.append(item.id.as_str());
            name.append(".");
            name.append(extension);
            name
        }
    }
}

/// Whether the sanitizer keeps this character.
fn char_keeps(c: char) -> (r: bool)
    ensures
        r == is_filename_char(c),
{
    crate::text::char_is_alphanumeric(c) || c == '_' || c == '-'
}

/// The first index of `names` equal to `name`, if any.
pub open spec fn spec_provider_index(names: Seq<Seq<char>>, name: Seq<char>) -> Option<int>
    decreases names.len(),
{
    if names.len() == 0 {
        None
    } else {
        match spec_provider_index(names.drop_last(), name) {
            Some(i) => Some(i),
            None => if names.last() == name {
                Some(names.len() - 1)
            } else {
                None
            },
        }
    }
}

/// Finds the first registered provider with the given name.
pub fn find_provider_index(names: &Vec<String>, name: &str) -> (r: Option<usize>)
    ensures
        spec_provider_index(names@.map_values(|s: String| s@), name@) == match r {
            Some(i) => Some(i as int),
            None => None::<int>,
        },
        r matches Some(i) ==> i < names@.len(),
{
    let ghost m = names@.map_values(|s: String| s@);
    let mut i: usize = 0;
    let n = names.len();
    while i < n
        invariant
            0 <= i <= m.len(),
            n == m.len(),
            m == names@.map_values(|s: String| s@),
            spec_provider_index(m.take(i as int), name@) is None,
        decreases n - i,
    {
        proof {
            assert(m.take(i + 1 as int).drop_last() =~= m.take(i as int));
            assert(m.take(i + 1 as int).last() == m[i as int]);
        }
        if string_eq_str(&names[i], name) {
            proof {
                lemma_provider_index_extends(m, name@, i as int);
            }
            return Some(i);
        }
        i = i + 1;
    }
    proof {
        assert(m.take(n as int) =~= m);
    }
    None
}

/// If the search for `name` fails on the first `i` names and succeeds at
/// `i`, the whole search yields `i`.
proof fn lemma_provider_index_extends(names: Seq<Seq<char>>, name: Seq<char>, i: int)
    requires
        0 <= i < names.len(),
        spec_provider_index(names.take(i), name) is None,
        names[i] == name,
    ensures
        spec_provider_index(names, name) == Some(i),
    decreases names.len(),
{
    if names.len() - 1 > i {
        assert(names.drop_last().take(i) =~= names.take(i));
        lemma_provider_index_extends(names.drop_last(), name, i);
    } else {
        assert(names.take(i) =~= names.drop_last());
    }
}

/// The successful pages among per-provider outcomes, in provider order.
pub open spec fn spec_ok_pages(
    results: Seq<Result<SearchResult, MediaError>>,
) -> Seq<SearchResultView>
    decreases results.len(),
{
    if results.len() == 0 {
        Seq::<SearchResultView>::empty()
    } else {
        let prev = spec_ok_pages(results.drop_last());
        match results.last() {
            Ok(page) => prev.push(page@),
            Err(_) => prev,
        }
    }
}

/// The sum of the `total` fields of the pages.
pub open spec fn spec_sum_total(pages: Seq<SearchResultView>) -> int
    decreases pages.len(),
{
    if pages.len() == 0 {
        0
    } else {
        spec_sum_total(pages.drop_last()) + pages.last().total
    }
}

/// The sum of the `total_hits` fields of the pages.
pub open spec fn spec_sum_hits(pages: Seq<SearchResultView>) -> int
    decreases pages.len(),
{
    if pages.len() == 0 {
        0
    } else {
        spec_sum_hits(pages.drop_last()) + pages.last().total_hits
    }
}

/// The sum of the `total_pages` fields of the pages.
pub open spec fn spec_sum_pages(pages: Seq<SearchResultView>) -> int
    decreases pages.len(),
{
    if pages.len() == 0 {
        0
    } else {
        spec_sum_pages(pages.drop_last()) + pages.last().total_pages
    }
}

/// The items of the pages, concatenated in provider order.
pub open spec fn spec_concat_items(pages: Seq<SearchResultView>) -> Seq<MediaItemView>
    decreases pages.len(),
{
    if pages.len() == 0 {
        Seq::<MediaItemView>::empty()
    } else {
        spec_concat_items(pages.drop_last()) + pages.last().items
    }
}

/// Merges per-provider search outcomes into one aggregated page: totals are
/// summed, items concatenated in provider order, the caller's page geometry
/// copied through, and the first successful provider's label kept. Fails
/// with `AllProvidersFailed` exactly when no provider succeeded.
pub fn aggregate_search_results(
    results: Vec<Result<SearchResult, MediaError>>,
    page: u32,
    per_page: u32,
) -> (r: Result<AggregatedSearchResult, MediaError>)
    requires
        spec_sum_total(spec_ok_pages(results@)) <= u32::MAX,
        spec_sum_hits(spec_ok_pages(results@)) <= u32::MAX,
        spec_sum_pages(spec_ok_pages(results@)) <= u32::MAX,
    ensures
        r is Ok <==> spec_ok_pages(results@).len() > 0,
        r is Err ==> r == Err::<AggregatedSearchResult, MediaError>(MediaError::AllProvidersFailed),
        r matches Ok(agg) ==> {
            &&& pages_view(agg.provider_results@) == spec_ok_pages(results@)
            &&& agg.total == spec_sum_total(spec_ok_pages(results@))
            &&& agg.total_hits == spec_sum_hits(spec_ok_pages(results@))
            &&& agg.total_pages == spec_sum_pages(spec_ok_pages(results@))
            &&& items_view(agg.items@) == spec_concat_items(spec_ok_pages(results@))
            &&& agg.provider@ == spec_ok_pages(results@).first().provider
            &&& agg.page == page
            &&& agg.per_page == per_page
        },
{
    let ghost rs = results@;
    let mut provider_results: Vec<SearchResult> = Vec::new();
    let mut all_items: Vec<MediaItem> = Vec::new();
    let mut total_sum: u32 = 0;
    let mut total_hits_sum: u32 = 0;
    let mut total_pages_sum: u32 = 0;
    let mut remaining = results;
    let ghost n = rs.len();
    let total_count = remaining.len();
    proof {
        assert(n == total_count);
    }
    let mut i: usize = 0;
    while remaining.len() > 0
        invariant
            i + remaining@.len() == n,
            n <= usize::MAX,
            rs.len() == n,
            remaining@ =~= rs.skip(i as int),
            pages_view(provider_results@) == spec_ok_pages(rs.take(i as int)),
            total_sum == spec_sum_total(pages_view(provider_results@)),
            total_hits_sum == spec_sum_hits(pages_view(provider_results@)),
            total_pages_sum == spec_sum_pages(pages_view(provider_results@)),
            items_view(all_items@) == spec_concat_items(pages_view(provider_results@)),
            spec_sum_total(spec_ok_pages(rs)) <= u32::MAX,
            spec_sum_hits(spec_ok_pages(rs)) <= u32::MAX,
            spec_sum_pages(spec_ok_pages(rs)) <= u32::MAX,
        decreases remaining@.len(),
    {
        let result = remaining.remove(0);
        proof {
            assert(rs.take(i + 1 as int).drop_last() =~= rs.take(i as int));
            assert(rs.take(i + 1 as int).last() == rs[i as int]);
            assert(result == rs[i as int]);
            assert(remaining@ =~= rs.skip(i + 1 as int));
            lemma_ok_pages_prefix_bounds(rs, i + 1 as int);
        }
        match result {
            Ok(search_result) => {
                proof {
                    let prefix = spec_ok_pages(rs.take(i as int));
                    assert(prefix.push(search_result@).drop_last() =~= prefix);
                    assert(prefix.push(search_result@).last() == search_result@);
                    assert(spec_ok_pages(rs.take(i + 1 as int)) == prefix.push(search_result@));
                    lemma_sums_nonneg(prefix);
                }
                total_sum = total_sum + search_result.total;
                total_hits_sum = total_hits_sum + search_result.total_hits;
                total_pages_sum = total_pages_sum + search_result.total_pages;
                let mut items_copy = crate::models::clone_media_items(&search_result.items);
                let ghost sr_view = search_result@;
                proof {
                    assert(items_view(all_items@ + items_copy@) =~= items_view(all_items@)
                        + items_view(items_copy@));
                }
                all_items.append(&mut items_copy);
                provider_results.push(search_result);
                proof {
                    assert(pages_view(provider_results@) =~= spec_ok_pages(rs.take(i as int)).push(
                        sr_view,
                    ));
                }
            },
            Err(_) => {},
        }
        i = i + 1;
    }
    proof {
        assert(rs.take(n as int) =~= rs);
    }
    if provider_results.len() == 0 {
        return Err(MediaError::AllProvidersFailed);
    }
    let provider = provider_results[0].provider.clone();
    proof {
        assert(pages_view(provider_results@)[0] == provider_results@[0]@);
    }
    Ok(AggregatedSearchResult {
        provider,
        total: total_sum,
        total_hits: total_hits_sum,
        page,
        per_page,
        total_pages: total_pages_sum,
        items: all_items,
        provider_results,
    })
}

/// Every page contributes non-negative summands.
proof fn lemma_sums_nonneg(pages: Seq<SearchResultView>)
    ensures
        spec_sum_total(pages) >= 0,
        spec_sum_hits(pages) >= 0,
        spec_sum_pages(pages) >= 0,
    decreases pages.len(),
{
    if pages.len() > 0 {
        lemma_sums_nonneg(pages.drop_last());
    }
}

/// The sums over any prefix of the outcomes stay within the sums over the
/// whole: every summand is non-negative.
proof fn lemma_ok_pages_prefix_bounds(results: Seq<Result<SearchResult, MediaError>>, i: int)
    requires
        0 <= i <= results.len(),
    ensures
        spec_sum_total(spec_ok_pages(results.take(i))) <= spec_sum_total(spec_ok_pages(results)),
        spec_sum_hits(spec_ok_pages(results.take(i))) <= spec_sum_hits(spec_ok_pages(results)),
        spec_sum_pages(spec_ok_pages(results.take(i))) <= spec_sum_pages(spec_ok_pages(results)),
    decreases results.len() - i,
{
    if i < results.len() {
        assert(results.take(i + 1).drop_last() =~= results.take(i));
        assert(results.take(i + 1).last() == results[i]);
        let prefix = spec_ok_pages(results.take(i));
        match results[i] {
            Ok(p) => {
                assert(prefix.push(p@).drop_last() =~= prefix);
                assert(prefix.push(p@).last() == p@);
                assert(spec_ok_pages(results.take(i + 1)) == prefix.push(p@));
            },
            Err(_) => {
                assert(spec_ok_pages(results.take(i + 1)) == prefix);
            },
        }
        lemma_ok_pages_prefix_bounds(results, i + 1);
    } else {
        assert(results.take(i) =~= results);
    }
}

} // verus!
