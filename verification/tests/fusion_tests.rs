//! Engine tests: query normalization, quality resolution, aggregation,
//! filenames, and batch progress arithmetic.

use fusion_media_provider::downloader::{
    aggregate_search_results, find_provider_index, DownloadConfig, SearchParams,
};
use fusion_media_provider::error::MediaError;
use fusion_media_provider::models::{
    BatchDownloadProgress, DownloadProgress, DownloadState, ImageQuality, MediaItem,
    MediaMetadata, MediaType, MediaUrls, SearchResult, VideoFile, VideoQuality,
};
use fusion_media_provider::pexels_provider::PexelsProvider;
use fusion_media_provider::pixabay_provider::PixabayProvider;

fn item_with_urls(urls: MediaUrls, media_type: MediaType) -> MediaItem {
    MediaItem {
        id: "test-123".to_string(),
        media_type,
        title: "Test Image".to_string(),
        description: "A test image".to_string(),
        tags: vec!["test".to_string(), "sample".to_string()],
        author: "Test Author".to_string(),
        author_url: "https://example.com/author".to_string(),
        source_url: "https://example.com/image".to_string(),
        provider: "TestProvider".to_string(),
        urls,
        metadata: MediaMetadata {
            width: 1920,
            height: 1080,
            size: Some(1024000),
            duration: None,
            views: 100,
            downloads: 50,
            likes: 200,
        },
    }
}

fn config_with(image_quality: ImageQuality, video_quality: VideoQuality) -> DownloadConfig {
    DownloadConfig { image_quality, video_quality, ..DownloadConfig::default() }
}

fn video_file(quality: &str, width: u32) -> VideoFile {
    VideoFile {
        quality: quality.to_string(),
        url: format!("https://example.com/{}-{}.mp4", quality, width),
        width,
        height: width / 2,
        size: 1000,
        thumbnail: None,
    }
}

#[test]
fn pixabay_provider_test_process_query() {
    assert_eq!(PixabayProvider::process_query("nature landscape"), "nature+landscape");
    assert_eq!(PixabayProvider::process_query("nature,landscape,mountain"), "nature+landscape+mountain");
    assert_eq!(PixabayProvider::process_query("nature;landscape"), "nature+landscape");
    assert_eq!(PixabayProvider::process_query("nature|landscape"), "nature+landscape");
    assert_eq!(PixabayProvider::process_query("nature, landscape; mountain"), "nature+landscape+mountain");
    assert_eq!(PixabayProvider::process_query("  nature  ,  landscape  "), "nature+landscape");
    assert_eq!(PixabayProvider::process_query("nature"), "nature");
    assert_eq!(PixabayProvider::process_query(""), "");
    assert_eq!(PixabayProvider::process_query("yellow flowers"), "yellow+flowers");
}

#[test]
fn pexels_provider_test_process_query() {
    assert_eq!(PexelsProvider::process_query("nature landscape"), "nature landscape");
    assert_eq!(PexelsProvider::process_query("nature,landscape,mountain"), "nature landscape mountain");
    assert_eq!(PexelsProvider::process_query("nature;landscape"), "nature landscape");
    assert_eq!(PexelsProvider::process_query("nature|landscape"), "nature landscape");
    assert_eq!(PexelsProvider::process_query("nature, landscape; mountain"), "nature landscape mountain");
    assert_eq!(PexelsProvider::process_query("  nature  ,  landscape  "), "nature landscape");
    assert_eq!(PexelsProvider::process_query("nature"), "nature");
    assert_eq!(PexelsProvider::process_query(""), "");
    assert_eq!(PexelsProvider::process_query("group of people working"), "group of people working");
    assert_eq!(PexelsProvider::process_query("yellow flowers, mountain sunset"), "yellow flowers mountain sunset");
}

#[test]
fn image_fallback_thumbnail_only() {
    let urls = MediaUrls {
        thumbnail: "https://example.com/thumb.jpg".to_string(),
        medium: None,
        large: None,
        original: None,
        video_files: None,
    };
    let item = item_with_urls(urls, MediaType::Image);
    for q in [ImageQuality::Medium, ImageQuality::Large, ImageQuality::Original] {
        let config = config_with(q, VideoQuality::Large);
        let url = config.get_image_url(&item).unwrap();
        assert_eq!(url, "https://example.com/thumb.jpg");
    }
}

#[test]
fn image_fallback_original_to_large() {
    let urls = MediaUrls {
        thumbnail: "https://example.com/thumb.jpg".to_string(),
        medium: Some("https://example.com/medium.jpg".to_string()),
        large: Some("https://example.com/large.jpg".to_string()),
        original: None,
        video_files: None,
    };
    let item = item_with_urls(urls, MediaType::Image);
    let config = config_with(ImageQuality::Original, VideoQuality::Large);
    let url = config.get_image_url(&item).unwrap();
    assert_eq!(url, "https://example.com/large.jpg");
}

#[test]
fn video_closest_above_threshold() {
    let urls = MediaUrls {
        thumbnail: "t".to_string(),
        medium: None,
        large: None,
        original: None,
        video_files: Some(vec![
            video_file("360p", 640),
            video_file("720p", 1280),
            video_file("1080p", 1920),
        ]),
    };
    let item = item_with_urls(urls, MediaType::Video);
    // The Small tier carries a 960-pixel threshold; 1280 is the smallest
    // width satisfying it, so the 1280 file wins over the 1920 one.
    let config = config_with(ImageQuality::Large, VideoQuality::Small);
    let url = config.get_video_url(&item).unwrap();
    assert_eq!(url, "https://example.com/720p-1280.mp4");
}

#[test]
fn video_exact_label_wins() {
    let urls = MediaUrls {
        thumbnail: "t".to_string(),
        medium: None,
        large: None,
        original: None,
        video_files: Some(vec![
            video_file("small", 1920),
            video_file("other", 960),
        ]),
    };
    let item = item_with_urls(urls, MediaType::Video);
    // The 960-wide file would satisfy Small's threshold with a smaller
    // width, but the exact label match wins.
    let config = config_with(ImageQuality::Large, VideoQuality::Small);
    let url = config.get_video_url(&item).unwrap();
    assert_eq!(url, "https://example.com/small-1920.mp4");
}

#[test]
fn video_falls_back_to_widest() {
    let urls = MediaUrls {
        thumbnail: "t".to_string(),
        medium: None,
        large: None,
        original: None,
        video_files: Some(vec![video_file("a", 320), video_file("b", 480)]),
    };
    let item = item_with_urls(urls, MediaType::Video);
    let config = config_with(ImageQuality::Large, VideoQuality::Large);
    let url = config.get_video_url(&item).unwrap();
    assert_eq!(url, "https://example.com/b-480.mp4");
}

#[test]
fn video_empty_list_fails() {
    let urls = MediaUrls {
        thumbnail: "t".to_string(),
        medium: None,
        large: None,
        original: None,
        video_files: Some(vec![]),
    };
    let item = item_with_urls(urls, MediaType::Video);
    let config = config_with(ImageQuality::Large, VideoQuality::Large);
    assert!(matches!(config.get_video_url(&item), Err(MediaError::InvalidQuality(_))));
    let urls_none = MediaUrls {
        thumbnail: "t".to_string(),
        medium: None,
        large: None,
        original: None,
        video_files: None,
    };
    let item_none = item_with_urls(urls_none, MediaType::Video);
    assert!(matches!(config.get_video_url(&item_none), Err(MediaError::InvalidQuality(_))));
}

fn page(provider: &str, total: u32, total_hits: u32, total_pages: u32, n_items: u32) -> SearchResult {
    let mut items = Vec::new();
    for i in 0..n_items {
        let urls = MediaUrls {
            thumbnail: format!("https://example.com/{}.jpg", i),
            medium: None,
            large: None,
            original: None,
            video_files: None,
        };
        items.push(item_with_urls(urls, MediaType::Image));
    }
    SearchResult {
        total,
        total_hits,
        page: 1,
        per_page: 20,
        total_pages,
        items,
        provider: provider.to_string(),
    }
}

#[test]
fn aggregation_arithmetic() {
    let results = vec![
        Ok(page("First", 100, 20, 5, 2)),
        Ok(page("Second", 50, 10, 3, 3)),
    ];
    let agg = aggregate_search_results(results, 1, 20).unwrap();
    assert_eq!(agg.total, 150);
    assert_eq!(agg.total_hits, 30);
    assert_eq!(agg.total_pages, 8);
    assert_eq!(agg.items.len(), 5);
    assert_eq!(agg.provider, "First");
    assert_eq!(agg.provider_results.len(), 2);
    assert_eq!(agg.page, 1);
    assert_eq!(agg.per_page, 20);
}

#[test]
fn all_providers_failed() {
    let results: Vec<Result<SearchResult, MediaError>> = vec![
        Err(MediaError::HttpError("a".to_string())),
        Err(MediaError::HttpError("b".to_string())),
    ];
    let out = aggregate_search_results(results, 1, 20);
    assert!(matches!(out, Err(MediaError::AllProvidersFailed)));

    let mixed = vec![
        Err(MediaError::HttpError("a".to_string())),
        Ok(page("Only", 7, 3, 1, 1)),
    ];
    let agg = aggregate_search_results(mixed, 1, 20).unwrap();
    assert_eq!(agg.total, 7);
    assert_eq!(agg.provider, "Only");
    assert_eq!(agg.provider_results.len(), 1);
}

#[test]
fn filename_synthesis() {
    let urls = MediaUrls {
        thumbnail: "t".to_string(),
        medium: None,
        large: None,
        original: None,
        video_files: None,
    };
    let mut item = item_with_urls(urls, MediaType::Image);
    item.provider = "Pixabay".to_string();
    item.title = "Sunny Hills!".to_string();
    item.id = "42".to_string();
    let config = DownloadConfig::default();
    assert_eq!(config.generate_filename(&item), "pixabay_SunnyHills_42.jpg");

    let original_names = DownloadConfig { use_original_names: true, ..DownloadConfig::default() };
    assert_eq!(original_names.generate_filename(&item), "pixabay_42.jpg");

    item.title = "!!!".to_string();
    assert_eq!(config.generate_filename(&item), "pixabay_42_42.jpg");

    item.media_type = MediaType::Video;
    assert_eq!(config.generate_filename(&item), "pixabay_42_42.mp4");
}

#[test]
fn provider_lookup() {
    let names = vec!["Pixabay".to_string(), "Pexels".to_string()];
    assert_eq!(find_provider_index(&names, "Pexels"), Some(1));
    assert_eq!(find_provider_index(&names, "Pixabay"), Some(0));
    assert_eq!(find_provider_index(&names, "Other"), None);
}

fn downloading(id: &str, percentage: u64) -> DownloadProgress {
    DownloadProgress {
        item_id: id.to_string(),
        item_title: id.to_string(),
        provider: "P".to_string(),
        state: DownloadState::Downloading,
        downloaded_bytes: 0,
        total_bytes: None,
        speed_bps: 0,
        percentage,
        elapsed_ms: 0,
        eta_secs: None,
    }
}

#[test]
fn batch_percentage_at_completion_boundaries() {
    // Four items; percentages are in hundredths of a percent.
    let mut batch = BatchDownloadProgress::new(4);
    batch.record(downloading("a", 0));
    batch.record(downloading("b", 0));
    batch.record(downloading("c", 0));
    batch.record(downloading("d", 0));
    assert_eq!(batch.overall_percentage, 0);

    let mut done = downloading("a", 10000);
    done.state = DownloadState::Completed;
    batch.record(done);
    // One of four completed: 25%.
    assert_eq!(batch.completed_items, 1);
    assert_eq!(batch.overall_percentage, 2500);

    // A second item half done adds 50% / 4 = 12.5%.
    batch.record(downloading("b", 5000));
    assert_eq!(batch.overall_percentage, 3750);
}

#[test]
fn batch_last_write_wins() {
    let mut batch = BatchDownloadProgress::new(2);
    batch.record(downloading("a", 1000));
    batch.record(downloading("a", 7000));
    assert_eq!(batch.item_progress.len(), 1);
    assert_eq!(batch.item_progress[0].percentage, 7000);
    assert_eq!(batch.downloading_items, 1);
}

#[test]
fn batch_failed_items_counted() {
    let mut batch = BatchDownloadProgress::new(2);
    let mut failed = downloading("a", 0);
    failed.state = DownloadState::Failed("HTTP 500".to_string());
    batch.record(failed);
    assert_eq!(batch.failed_items, 1);
    assert_eq!(batch.completed_items, 0);
    // A failed item contributes nothing to the overall percentage.
    assert_eq!(batch.overall_percentage, 0);
}

#[test]
fn progress_percentage_and_eta() {
    let urls = MediaUrls {
        thumbnail: "t".to_string(),
        medium: None,
        large: None,
        original: None,
        video_files: None,
    };
    let item = item_with_urls(urls, MediaType::Image);
    let mut p = DownloadProgress::new(&item);
    p.total_bytes = Some(200);
    p.downloaded_bytes = 50;
    p.calculate_percentage();
    assert_eq!(p.percentage, 2500);
    p.speed_bps = 25;
    p.calculate_eta();
    assert_eq!(p.eta_secs, Some(6));

    // Unknown total: the percentage keeps its last stable value.
    p.total_bytes = None;
    p.downloaded_bytes = 80;
    p.calculate_percentage();
    assert_eq!(p.percentage, 2500);

    // Zero speed: the estimate stays untouched.
    p.speed_bps = 0;
    p.calculate_eta();
    assert_eq!(p.eta_secs, Some(6));
}

#[test]
fn test_download_config_default() {
    let config = DownloadConfig::default();
    assert_eq!(config.image_quality, ImageQuality::Large);
    assert_eq!(config.video_quality, VideoQuality::Large);
    assert_eq!(config.output_dir, "./downloads");
    assert_eq!(config.max_concurrent, 5);
    assert!(!config.use_original_names);
}

#[test]
fn test_search_params_builder() {
    let params = SearchParams::new("test query", MediaType::Image).limit(10).page(2);
    assert_eq!(params.query, "test query");
    assert_eq!(params.media_type, MediaType::Image);
    assert_eq!(params.limit, 10);
    assert_eq!(params.page, 2);
}

#[test]
fn test_media_item_creation() {
    let urls = MediaUrls {
        thumbnail: "https://example.com/thumb.jpg".to_string(),
        medium: Some("https://example.com/medium.jpg".to_string()),
        large: Some("https://example.com/large.jpg".to_string()),
        original: Some("https://example.com/original.jpg".to_string()),
        video_files: None,
    };
    let item = item_with_urls(urls, MediaType::Image);
    assert_eq!(item.id, "test-123");
    assert_eq!(item.title, "Test Image");
    assert_eq!(item.provider, "TestProvider");
}

#[test]
fn test_download_progress_new() {
    let urls = MediaUrls {
        thumbnail: "https://example.com/thumb.jpg".to_string(),
        medium: None,
        large: None,
        original: None,
        video_files: None,
    };
    let item = item_with_urls(urls, MediaType::Image);
    let progress = DownloadProgress::new(&item);
    assert_eq!(progress.item_id, "test-123");
    assert_eq!(progress.item_title, "Test Image");
    assert_eq!(progress.provider, "TestProvider");
    assert_eq!(progress.percentage, 0);
    assert_eq!(progress.state, DownloadState::Starting);
}

#[test]
fn test_batch_download_progress_new() {
    let progress = BatchDownloadProgress::new(5);
    assert_eq!(progress.total_items, 5);
    assert_eq!(progress.completed_items, 0);
    assert_eq!(progress.overall_percentage, 0);
    assert!(progress.item_progress.is_empty());
}
