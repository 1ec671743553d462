//! Provider-agnostic media model: items, variant sets, quality preferences,
//! per-item and per-batch transfer progress, and search-result pages.
//!
//! Progress percentages are kept in hundredths of a percent (`0` to `10000`
//! for 0% to 100%), so that the arithmetic stays exact over the integers.

use vstd::prelude::*;

verus! {

/// The kind of a media asset.
#[derive(Debug, Clone, Copy, PartialEq, Eq, Structural)]
pub enum MediaType {
    Image,
    Video,
}

/// Caller preference for image quality, ordered ascending.
#[derive(Debug, Clone, Copy, PartialEq, Eq, Structural)]
pub enum ImageQuality {
    Thumbnail,
    Medium,
    Large,
    Original,
}

impl ImageQuality {
    /// The canonical label of this tier.
    pub fn as_str(&self) -> (r: &'static str)
        ensures
            r@ == self.spec_str(),
    {
        match self {
            ImageQuality::Thumbnail => "thumbnail",
            ImageQuality::Medium => "medium",
            ImageQuality::Large => "large",
            ImageQuality::Original => "original",
        }
    }

    /// The canonical label of this tier, as a sequence of characters.
    pub open spec fn spec_str(self) -> Seq<char> {
        match self {
            ImageQuality::Thumbnail => "thumbnail"@,
            ImageQuality::Medium => "medium"@,
            ImageQuality::Large => "large"@,
            ImageQuality::Original => "original"@,
        }
    }
}

/// Caller preference for video quality, ordered ascending; each tier carries
/// a minimum-width threshold used for matching.
#[derive(Debug, Clone, Copy, PartialEq, Eq, Structural)]
pub enum VideoQuality {
    Tiny,
    Small,
    Medium,
    Large,
    Original,
}

impl VideoQuality {
    /// The canonical label of this tier.
    pub fn as_str(&self) -> (r: &'static str)
        ensures
            r@ == self.spec_str(),
    {
        match self {
            VideoQuality::Tiny => "tiny",
            VideoQuality::Small => "small",
            VideoQuality::Medium => "medium",
            VideoQuality::Large => "large",
            VideoQuality::Original => "original",
        }
    }

    /// The canonical label of this tier, as a sequence of characters.
    pub open spec fn spec_str(self) -> Seq<char> {
        match self {
            VideoQuality::Tiny => "tiny"@,
            VideoQuality::Small => "small"@,
            VideoQuality::Medium => "medium"@,
            VideoQuality::Large => "large"@,
            VideoQuality::Original => "original"@,
        }
    }

    /// The minimum width, in pixels, that a variant must have to satisfy
    /// this tier when no exact label match exists.
    pub fn min_width(&self) -> (r: u32)
        ensures
            r == self.spec_min_width(),
    {
        match self {
            VideoQuality::Tiny => 640,
            VideoQuality::Small => 960,
            VideoQuality::Medium => 1280,
            VideoQuality::Large => 1920,
            VideoQuality::Original => 0,
        }
    }

    /// The minimum-width threshold of this tier.
    pub open spec fn spec_min_width(self) -> u32 {
        match self {
            VideoQuality::Tiny => 640,
            VideoQuality::Small => 960,
            VideoQuality::Medium => 1280,
            VideoQuality::Large => 1920,
            VideoQuality::Original => 0,
        }
    }
}

/// One selectable file of a video asset.
#[derive(Debug, Clone)]
pub struct VideoFile {
    pub quality: String,
    pub url: String,
    pub width: u32,
    pub height: u32,
    pub size: u64,
    pub thumbnail: Option<String>,
}

/// The variant set of an asset: a thumbnail URL that is always present,
/// optional higher image tiers, and, for videos, the list of files.
#[derive(Debug, Clone)]
pub struct MediaUrls {
    pub thumbnail: String,
    pub medium: Option<String>,
    pub large: Option<String>,
    pub original: Option<String>,
    pub video_files: Option<Vec<VideoFile>>,
}

/// Numeric metadata of an asset.
#[derive(Debug, Clone, Copy)]
pub struct MediaMetadata {
    pub width: u32,
    pub height: u32,
    pub size: Option<u64>,
    pub duration: Option<u32>,
    pub views: u32,
    pub downloads: u32,
    pub likes: u32,
}

/// One provider-agnostic media item.
#[derive(Debug, Clone)]
pub struct MediaItem {
    pub id: String,
    pub media_type: MediaType,
    pub title: String,
    pub description: String,
    pub tags: Vec<String>,
    pub author: String,
    pub author_url: String,
    pub source_url: String,
    pub provider: String,
    pub urls: MediaUrls,
    pub metadata: MediaMetadata,
}

/// The mathematical value of one video file.
pub struct VideoFileView {
    pub quality: Seq<char>,
    pub url: Seq<char>,
    pub width: u32,
    pub height: u32,
    pub size: u64,
    pub thumbnail: Option<Seq<char>>,
}

impl View for VideoFile {
    type V = VideoFileView;

    open spec fn view(&self) -> VideoFileView {
        VideoFileView {
            quality: self.quality@,
            url: self.url@,
            width: self.width,
            height: self.height,
            size: self.size,
            thumbnail: match self.thumbnail {
                Some(t) => Some(t@),
                None => None,
            },
        }
    }
}

/// The values of a list of video files.
pub open spec fn files_view(s: Seq<VideoFile>) -> Seq<VideoFileView> {
    s.map_values(|f: VideoFile| f@)
}

/// The mathematical value of a variant set.
pub struct MediaUrlsView {
    pub thumbnail: Seq<char>,
    pub medium: Option<Seq<char>>,
    pub large: Option<Seq<char>>,
    pub original: Option<Seq<char>>,
    pub video_files: Option<Seq<VideoFileView>>,
}

impl View for MediaUrls {
    type V = MediaUrlsView;

    open spec fn view(&self) -> MediaUrlsView {
        MediaUrlsView {
            thumbnail: self.thumbnail@,
            medium: match self.medium {
                Some(u) => Some(u@),
                None => None,
            },
            large: match self.large {
                Some(u) => Some(u@),
                None => None,
            },
            original: match self.original {
                Some(u) => Some(u@),
                None => None,
            },
            video_files: match self.video_files {
                Some(v) => Some(files_view(v@)),
                None => None,
            },
        }
    }
}

/// The values of a list of strings.
pub open spec fn strings_view(s: Seq<String>) -> Seq<Seq<char>> {
    s.map_values(|t: String| t@)
}

/// The mathematical value of one media item.
pub struct MediaItemView {
    pub id: Seq<char>,
    pub media_type: MediaType,
    pub title: Seq<char>,
    pub description: Seq<char>,
    pub tags: Seq<Seq<char>>,
    pub author: Seq<char>,
    pub author_url: Seq<char>,
    pub source_url: Seq<char>,
    pub provider: Seq<char>,
    pub urls: MediaUrlsView,
    pub metadata: MediaMetadata,
}

impl View for MediaItem {
    type V = MediaItemView;

    open spec fn view(&self) -> MediaItemView {
        MediaItemView {
            id: self.id@,
            media_type: self.media_type,
            title: self.title@,
            description: self.description@,
            tags: strings_view(self.tags@),
            author: self.author@,
            author_url: self.author_url@,
            source_url: self.source_url@,
            provider: self.provider@,
            urls: self.urls@,
            metadata: self.metadata,
        }
    }
}

/// The values of a list of media items.
pub open spec fn items_view(s: Seq<MediaItem>) -> Seq<MediaItemView> {
    s.map_values(|m: MediaItem| m@)
}

/// Copies an optional string, value for value.
pub fn clone_opt_string(s: &Option<String>) -> (r: Option<String>)
    ensures
        r == *s,
{
    match s {
        Some(v) => Some(v.clone()),
        None => None,
    }
}

/// Copies one video file, field for field.
pub fn clone_video_file(f: &VideoFile) -> (r: VideoFile)
    ensures
        r@ == f@,
{
    VideoFile {
        quality: f.quality.clone(),
        url: f.url.clone(),
        width: f.width,
        height: f.height,
        size: f.size,
        thumbnail: clone_opt_string(&f.thumbnail),
    }
}

/// Copies a list of video files, element for element.
pub fn clone_video_files(v: &Vec<VideoFile>) -> (r: Vec<VideoFile>)
    ensures
        files_view(r@) == files_view(v@),
{
    let mut out: Vec<VideoFile> = Vec::new();
    let mut i: usize = 0;
    let n = v.len();
    while i < n
        invariant
            0 <= i <= v@.len(),
            n == v@.len(),
            out@.len() == i,
            forall|j: int| 0 <= j < i ==> #[trigger] out@[j]@ == v@[j]@,
        decreases n - i,
    {
        out.push(clone_video_file(&v[i]));
        i = i + 1;
    }
    proof {
        assert(files_view(out@) =~= files_view(v@));
    }
    out
}

/// Copies a variant set, field for field.
pub fn clone_media_urls(u: &MediaUrls) -> (r: MediaUrls)
    ensures
        r@ == u@,
{
    MediaUrls {
        thumbnail: u.thumbnail.clone(),
        medium: clone_opt_string(&u.medium),
        large: clone_opt_string(&u.large),
        original: clone_opt_string(&u.original),
        video_files: match &u.video_files {
            Some(files) => Some(clone_video_files(files)),
            None => None,
        },
    }
}

/// Copies a list of strings, element for element.
pub fn clone_strings(v: &Vec<String>) -> (r: Vec<String>)
    ensures
        r@ == v@,
{
    let mut out: Vec<String> = Vec::new();
    let mut i: usize = 0;
    let n = v.len();
    while i < n
        invariant
            0 <= i <= v@.len(),
            n == v@.len(),
            out@ =~= v@.take(i as int),
        decreases n - i,
    {
        out.push(v[i].clone());
        i = i + 1;
    }
    proof {
        assert(v@.take(n as int) =~= v@);
    }
    out
}

/// Copies one media item, field for field.
pub fn clone_media_item(m: &MediaItem) -> (r: MediaItem)
    ensures
        r@ == m@,
{
    MediaItem {
        id: m.id.clone(),
        media_type: m.media_type,
        title: m.title.clone(),
        description: m.description.clone(),
        tags: clone_strings(&m.tags),
        author: m.author.clone(),
        author_url: m.author_url.clone(),
        source_url: m.source_url.clone(),
        provider: m.provider.clone(),
        urls: clone_media_urls(&m.urls),
        metadata: m.metadata,
    }
}

/// Copies a list of media items, element for element.
pub fn clone_media_items(v: &Vec<MediaItem>) -> (r: Vec<MediaItem>)
    ensures
        items_view(r@) == items_view(v@),
{
    let mut out: Vec<MediaItem> = Vec::new();
    let mut i: usize = 0;
    let n = v.len();
    while i < n
        invariant
            0 <= i <= v@.len(),
            n == v@.len(),
            out@.len() == i,
            forall|j: int| 0 <= j < i ==> #[trigger] out@[j]@ == v@[j]@,
        decreases n - i,
    {
        out.push(clone_media_item(&v[i]));
        i = i + 1;
    }
    proof {
        assert(items_view(out@) =~= items_view(v@));
    }
    out
}

/// The state of one transfer. `Completed` and `Failed` are terminal.
#[derive(Debug, Clone, PartialEq, Eq)]
pub enum DownloadState {
    Starting,
    Downloading,
    Writing,
    Completed,
    Failed(String),
}

/// Progress of one transfer. `percentage` is in hundredths of a percent;
/// `elapsed_ms` in milliseconds; `eta_secs` in whole seconds, absent while
/// it cannot be computed.
#[derive(Debug, Clone)]
pub struct DownloadProgress {
    pub item_id: String,
    pub item_title: String,
    pub provider: String,
    pub state: DownloadState,
    pub downloaded_bytes: u64,
    pub total_bytes: Option<u64>,
    pub speed_bps: u64,
    pub percentage: u64,
    pub elapsed_ms: u64,
    pub eta_secs: Option<u64>,
}

/// The percentage, in hundredths of a percent, of `downloaded` out of
/// `total`, capped at `u64::MAX`.
pub open spec fn spec_percentage(downloaded: int, total: int) -> int {
    let raw = downloaded * 10000 / total;
    if raw > u64::MAX {
        u64::MAX as int
    } else {
        raw
    }
}

impl DownloadProgress {
    /// A fresh record for one item: `Starting`, nothing transferred yet.
    pub fn new(item: &MediaItem) -> (r: DownloadProgress)
        ensures
            r.item_id@ == item.id@,
            r.item_title@ == item.title@,
            r.provider@ == item.provider@,
            r.state == DownloadState::Starting,
            r.downloaded_bytes == 0,
            r.total_bytes is None,
            r.speed_bps == 0,
            r.percentage == 0,
            r.elapsed_ms == 0,
            r.eta_secs is None,
    {
        DownloadProgress {
            item_id: item.id.clone(),
            item_title: item.title.clone(),
            provider: item.provider.clone(),
            state: DownloadState::Starting,
            downloaded_bytes: 0,
            total_bytes: None,
            speed_bps: 0,
            percentage: 0,
            elapsed_ms: 0,
            eta_secs: None,
        }
    }

    /// Recomputes `percentage` from `downloaded_bytes / total_bytes`; when
    /// the total is unknown or zero the last stable value is kept.
    pub fn calculate_percentage(&mut self)
        ensures
            match old(self).total_bytes {
                Some(t) => t > 0 ==> final(self).percentage == spec_percentage(
                    old(self).downloaded_bytes as int,
                    t as int,
                ) && (t == 0 ==> final(self).percentage == old(self).percentage),
                None => final(self).percentage == old(self).percentage,
            },
            *final(self) == (DownloadProgress { percentage: final(self).percentage, ..*old(self) }),
    {
        if let Some(total) = self.total_bytes {
            if total > 0 {
                let raw: u128 = (self.downloaded_bytes as u128) * 10000 / (total as u128);
                self.percentage = if raw > u64::MAX as u128 {
                    u64::MAX
                } else {
                    raw as u64
                };
            }
        }
    }

    /// Recomputes `eta_secs` as `(total - downloaded) / speed`, only when the
    /// total is known, the speed is positive, and the transfer is not done;
    /// otherwise the old value is kept. The result is never negative.
    pub fn calculate_eta(&mut self)
        ensures
            match old(self).total_bytes {
                Some(t) => {
                    if old(self).speed_bps > 0 && old(self).downloaded_bytes < t {
                        final(self).eta_secs == Some(
                            (((t - old(self).downloaded_bytes) as u64) / old(
                                self,
                            ).speed_bps) as u64,
                        )
                    } else {
                        final(self).eta_secs == old(self).eta_secs
                    }
                },
                None => final(self).eta_secs == old(self).eta_secs,
            },
            *final(self) == (DownloadProgress { eta_secs: final(self).eta_secs, ..*old(self) }),
    {
        if let Some(total) = self.total_bytes {
            if self.speed_bps > 0 && self.downloaded_bytes < total {
                let remaining: u64 = total - self.downloaded_bytes;
                self.eta_secs = Some(remaining / self.speed_bps);
            }
        }
    }
}

/// How many items of the sequence are in the `Downloading` state.
pub open spec fn count_downloading(items: Seq<DownloadProgress>) -> int
    decreases items.len(),
{
    if items.len() == 0 {
        0
    } else {
        count_downloading(items.drop_last()) + if items.last().state is Downloading {
            1int
        } else {
            0int
        }
    }
}

/// How many items of the sequence are in the `Completed` state.
pub open spec fn count_completed(items: Seq<DownloadProgress>) -> int
    decreases items.len(),
{
    if items.len() == 0 {
        0
    } else {
        count_completed(items.drop_last()) + if items.last().state is Completed {
            1int
        } else {
            0int
        }
    }
}

/// How many items of the sequence are in the `Failed` state.
pub open spec fn count_failed(items: Seq<DownloadProgress>) -> int
    decreases items.len(),
{
    if items.len() == 0 {
        0
    } else {
        count_failed(items.drop_last()) + if items.last().state is Failed {
            1int
        } else {
            0int
        }
    }
}

/// The sum of the percentages of the items in the `Downloading` state.
pub open spec fn downloading_pct_sum(items: Seq<DownloadProgress>) -> int
    decreases items.len(),
{
    if items.len() == 0 {
        0
    } else {
        downloading_pct_sum(items.drop_last()) + if items.last().state is Downloading {
            items.last().percentage as int
        } else {
            0int
        }
    }
}

/// The overall percentage of a batch, in hundredths of a percent: each
/// completed item contributes one full unit, each downloading item its own
/// fraction, everything else zero.
pub open spec fn spec_overall_percentage(
    completed: int,
    total: int,
    items: Seq<DownloadProgress>,
) -> int {
    let raw = (completed * 10000 + downloading_pct_sum(items)) / total;
    if raw > u64::MAX {
        u64::MAX as int
    } else {
        raw
    }
}

/// The sum of downloading percentages is never negative.
proof fn lemma_pct_sum_nonneg(items: Seq<DownloadProgress>)
    ensures
        downloading_pct_sum(items) >= 0,
    decreases items.len(),
{
    if items.len() > 0 {
        lemma_pct_sum_nonneg(items.drop_last());
    }
}

/// Monotonicity at completion boundaries: over the same stored records, a
/// batch with more items completed reports at least as great an overall
/// percentage.
pub proof fn lemma_overall_monotone(
    completed1: int,
    completed2: int,
    total: int,
    items: Seq<DownloadProgress>,
)
    requires
        0 <= completed1 <= completed2,
        total > 0,
    ensures
        spec_overall_percentage(completed1, total, items) <= spec_overall_percentage(
            completed2,
            total,
            items,
        ),
{
    lemma_pct_sum_nonneg(items);
    let s = downloading_pct_sum(items);
    vstd::arithmetic::div_mod::lemma_div_is_ordered(
        completed1 * 10000 + s,
        completed2 * 10000 + s,
        total,
    );
}

/// Aggregate progress of one batch of transfers.
#[derive(Debug, Clone)]
pub struct BatchDownloadProgress {
    pub total_items: usize,
    pub completed_items: usize,
    pub failed_items: usize,
    pub downloading_items: usize,
    pub overall_percentage: u64,
    pub item_progress: Vec<DownloadProgress>,
}

/// The first index of `items` holding a record for `id`, or the length when
/// there is none.
pub open spec fn first_index_of_id(items: Seq<DownloadProgress>, id: Seq<char>) -> int
    decreases items.len(),
{
    if items.len() == 0 {
        0
    } else if items.first().item_id@ == id {
        0
    } else {
        1 + first_index_of_id(items.drop_first(), id)
    }
}

/// The stored records after one update for `p` arrives: last write wins per
/// item id, a new id is appended.
pub open spec fn spec_record_update(
    items: Seq<DownloadProgress>,
    p: DownloadProgress,
) -> Seq<DownloadProgress> {
    let i = first_index_of_id(items, p.item_id@);
    if i < items.len() {
        items.update(i, p)
    } else {
        items.push(p)
    }
}

impl BatchDownloadProgress {
    /// A fresh batch record for `total_items` items.
    pub fn new(total_items: usize) -> (r: BatchDownloadProgress)
        ensures
            r.total_items == total_items,
            r.completed_items == 0,
            r.failed_items == 0,
            r.downloading_items == 0,
            r.overall_percentage == 0,
            r.item_progress@.len() == 0,
    {
        BatchDownloadProgress {
            total_items,
            completed_items: 0,
            failed_items: 0,
            downloading_items: 0,
            overall_percentage: 0,
            item_progress: Vec::new(),
        }
    }

    /// Recomputes the overall percentage; with an empty batch the old value
    /// is kept.
    pub fn calculate_overall_percentage(&mut self)
        ensures
            old(self).total_items > 0 ==> final(self).overall_percentage
                == spec_overall_percentage(
                old(self).completed_items as int,
                old(self).total_items as int,
                old(self).item_progress@,
            ),
            old(self).total_items == 0 ==> final(self).overall_percentage == old(
                self,
            ).overall_percentage,
            *final(self) == (BatchDownloadProgress {
                overall_percentage: final(self).overall_percentage,
                ..*old(self)
            }),
    {
        if self.total_items > 0 {
            let mut sum: u128 = 0;
            let mut i: usize = 0;
            let items_len = self.item_progress.len();
            while i < items_len
                invariant
                    0 <= i <= self.item_progress@.len(),
                    items_len == self.item_progress@.len(),
                    sum == downloading_pct_sum(self.item_progress@.take(i as int)),
                    sum <= i * (u64::MAX as u128),
                decreases items_len - i,
            {
                proof {
                    assert(self.item_progress@.take(i + 1 as int).drop_last()
                        =~= self.item_progress@.take(i as int));
                }
                let p = &self.item_progress[i];
                if matches!(p.state, DownloadState::Downloading) {
                    sum = sum + p.percentage as u128;
                }
                i = i + 1;
            }
            proof {
                assert(self.item_progress@.take(self.item_progress@.len() as int)
                    =~= self.item_progress@);
            }
            let base: u128 = (self.completed_items as u128) * 10000;
            let total: u128 = self.total_items as u128;
            if sum > u128::MAX - base {
                proof {
                    let num = self.completed_items as int * 10000 + downloading_pct_sum(
                        self.item_progress@,
                    );
                    assert(num / self.total_items as int > u64::MAX) by (nonlinear_arith)
                        requires
                            num > u128::MAX,
                            0 < self.total_items as int <= u64::MAX,
                            u128::MAX == (u64::MAX as int + 1) * (u64::MAX as int + 1) - 1,
                    ;
                }
                self.overall_percentage = u64::MAX;
            } else {
                let raw: u128 = (base + sum) / total;
                self.overall_percentage = if raw > u64::MAX as u128 {
                    u64::MAX
                } else {
                    raw as u64
                };
            }
        }
    }

    /// Folds one per-item update into the batch: the record replaces the
    /// stored one with the same id (or is appended), the counter matching
    /// the update's state is recounted, and the overall percentage is
    /// recomputed.
    pub fn record(&mut self, progress: DownloadProgress)
        ensures
            final(self).item_progress@ == spec_record_update(old(self).item_progress@, progress),
            final(self).total_items == old(self).total_items,
            progress.state is Downloading ==> final(self).downloading_items
                == count_downloading(final(self).item_progress@)
                && final(self).completed_items == old(self).completed_items
                && final(self).failed_items == old(self).failed_items,
            progress.state is Completed ==> final(self).completed_items
                == count_completed(final(self).item_progress@)
                && final(self).downloading_items == old(self).downloading_items
                && final(self).failed_items == old(self).failed_items,
            progress.state is Failed ==> final(self).failed_items
                == count_failed(final(self).item_progress@)
                && final(self).downloading_items == old(self).downloading_items
                && final(self).completed_items == old(self).completed_items,
            progress.state is Starting || progress.state is Writing ==> final(self).failed_items
                == old(self).failed_items && final(self).downloading_items == old(
                self,
            ).downloading_items && final(self).completed_items == old(self).completed_items,
            old(self).total_items > 0 ==> final(self).overall_percentage
                == spec_overall_percentage(
                final(self).completed_items as int,
                old(self).total_items as int,
                final(self).item_progress@,
            ),
    {
        let pos = self.find_index(&progress.item_id);
        let is_downloading = matches!(progress.state, DownloadState::Downloading);
        let is_completed = matches!(progress.state, DownloadState::Completed);
        let is_failed = matches!(progress.state, DownloadState::Failed(_));
        if pos < self.item_progress.len() {
            self.item_progress.set(pos, progress);
        } else {
            self.item_progress.push(progress);
        }
        if is_downloading {
            self.downloading_items = self.count_in_downloading();
        } else if is_completed {
            self.completed_items = self.count_in_completed();
        } else if is_failed {
            self.failed_items = self.count_in_failed();
        }
        self.calculate_overall_percentage();
    }

    /// The first index holding the given item id, or the length.
    fn find_index(&self, id: &String) -> (r: usize)
        ensures
            r == first_index_of_id(self.item_progress@, id@),
            r <= self.item_progress@.len(),
    {
        proof {
            assert(self.item_progress@.skip(0) =~= self.item_progress@);
        }
        let mut i: usize = 0;
        let n = self.item_progress.len();
        while i < n
            invariant
                0 <= i <= self.item_progress@.len(),
                n == self.item_progress@.len(),
                first_index_of_id(self.item_progress@, id@) == i as int + first_index_of_id(
                    self.item_progress@.skip(i as int),
                    id@,
                ),
                forall|j: int| 0 <= j < i ==> self.item_progress@[j].item_id@ != id@,
            decreases n - i,
        {
            proof {
                assert(self.item_progress@.skip(i as int).first() == self.item_progress@[i as int]);
                assert(self.item_progress@.skip(i as int).drop_first() =~= self.item_progress@.skip(
                    i + 1 as int,
                ));
            }
            if self.item_progress[i].item_id == *id {
                return i;
            }
            i = i + 1;
        }
        proof {
            assert(self.item_progress@.skip(i as int).len() == 0);
        }
        i
    }

    fn count_in_downloading(&self) -> (r: usize)
        ensures
            r == count_downloading(self.item_progress@),
    {
        let mut count: usize = 0;
        let mut i: usize = 0;
        let n = self.item_progress.len();
        while i < n
            invariant
                0 <= i <= self.item_progress@.len(),
                n == self.item_progress@.len(),
                count == count_downloading(self.item_progress@.take(i as int)),
                count <= i,
            decreases n - i,
        {
            proof {
                assert(self.item_progress@.take(i + 1 as int).drop_last()
                    =~= self.item_progress@.take(i as int));
            }
            if matches!(self.item_progress[i].state, DownloadState::Downloading) {
                count = count + 1;
            }
            i = i + 1;
        }
        proof {
            assert(self.item_progress@.take(n as int) =~= self.item_progress@);
        }
        count
    }

    fn count_in_completed(&self) -> (r: usize)
        ensures
            r == count_completed(self.item_progress@),
    {
        let mut count: usize = 0;
        let mut i: usize = 0;
        let n = self.item_progress.len();
        while i < n
            invariant
                0 <= i <= self.item_progress@.len(),
                n == self.item_progress@.len(),
                count == count_completed(self.item_progress@.take(i as int)),
                count <= i,
            decreases n - i,
        {
            proof {
                assert(self.item_progress@.take(i + 1 as int).drop_last()
                    =~= self.item_progress@.take(i as int));
            }
            if matches!(self.item_progress[i].state, DownloadState::Completed) {
                count = count + 1;
            }
            i = i + 1;
        }
        proof {
            assert(self.item_progress@.take(n as int) =~= self.item_progress@);
        }
        count
    }

    fn count_in_failed(&self) -> (r: usize)
        ensures
            r == count_failed(self.item_progress@),
    {
        let mut count: usize = 0;
        let mut i: usize = 0;
        let n = self.item_progress.len();
        while i < n
            invariant
                0 <= i <= self.item_progress@.len(),
                n == self.item_progress@.len(),
                count == count_failed(self.item_progress@.take(i as int)),
                count <= i,
            decreases n - i,
        {
            proof {
                assert(self.item_progress@.take(i + 1 as int).drop_last()
                    =~= self.item_progress@.take(i as int));
            }
            if matches!(self.item_progress[i].state, DownloadState::Failed(_)) {
                count = count + 1;
            }
            i = i + 1;
        }
        proof {
            assert(self.item_progress@.take(n as int) =~= self.item_progress@);
        }
        count
    }
}

/// One page of search results from a single provider.
#[derive(Debug, Clone)]
pub struct SearchResult {
    pub total: u32,
    pub total_hits: u32,
    pub page: u32,
    pub per_page: u32,
    pub total_pages: u32,
    pub items: Vec<MediaItem>,
    pub provider: String,
}

/// The mathematical value of one provider's page.
pub struct SearchResultView {
    pub total: u32,
    pub total_hits: u32,
    pub page: u32,
    pub per_page: u32,
    pub total_pages: u32,
    pub items: Seq<MediaItemView>,
    pub provider: Seq<char>,
}

impl View for SearchResult {
    type V = SearchResultView;

    open spec fn view(&self) -> SearchResultView {
        SearchResultView {
            total: self.total,
            total_hits: self.total_hits,
            page: self.page,
            per_page: self.per_page,
            total_pages: self.total_pages,
            items: items_view(self.items@),
            provider: self.provider@,
        }
    }
}

/// The values of a list of pages.
pub open spec fn pages_view(s: Seq<SearchResult>) -> Seq<SearchResultView> {
    s.map_values(|p: SearchResult| p@)
}

/// The number of pages needed for `total` results at `per_page` each,
/// rounding up; zero when `per_page` is zero.
pub open spec fn spec_total_pages(total: int, per_page: int) -> int {
    if per_page == 0 {
        0
    } else {
        (total + per_page - 1) / per_page
    }
}

impl SearchResult {
    /// Computes the page count from a result total and a page size,
    /// rounding up.
    pub fn calculate_total_pages(total: u32, per_page: u32) -> (r: u32)
        requires
            per_page == 0 || total + per_page <= u32::MAX,
        ensures
            r == spec_total_pages(total as int, per_page as int),
    {
        if per_page == 0 {
            return 0;
        }
        (total + per_page - 1) / per_page
    }
}

/// The merge of several providers' pages under one pagination model.
#[derive(Debug, Clone)]
pub struct AggregatedSearchResult {
    pub provider: String,
    pub total: u32,
    pub total_hits: u32,
    pub page: u32,
    pub per_page: u32,
    pub total_pages: u32,
    pub items: Vec<MediaItem>,
    pub provider_results: Vec<SearchResult>,
}

} // verus!
