//! Pexels tests: request URLs of every endpoint builder, color-code
//! validation, wire-form parsing, error equality, and the transfer
//! manager's selections.

use fusion_media_provider::pexels::client::{not_found_error, request_error, PexelsClient};
use fusion_media_provider::pexels::collections::MediaBuilder;
use fusion_media_provider::pexels::download::{
    DownloadManager, ImageQuality, VideoQuality,
};
use fusion_media_provider::pexels::models::{Photo, PhotoSources, Video, VideoFile};
use fusion_media_provider::pexels::domain::{MediaPhoto, MediaVideo, Photo as DomainPhoto, PhotoSrc, User};
use fusion_media_provider::pexels::photos::{
    Color, CuratedBuilder, FetchPhotoBuilder, Hex, SearchBuilder,
};
use fusion_media_provider::pexels::search::{PaginationParams, SearchParams};
use fusion_media_provider::pexels::types::{
    Locale, MediaType, Orientation, ParseError, PexelsError, Size,
};
use fusion_media_provider::pexels::videos::{
    FetchVideoBuilder, PopularBuilder, SearchBuilder as VideoSearchBuilder,
};

#[test]
fn search_test_query() {
    let uri = SearchBuilder::new().query("bar").build();
    assert_eq!("https://api.pexels.com/v1/search?query=bar", uri.create_uri().unwrap());
}

#[test]
fn search_test_page() {
    let uri = SearchBuilder::new().page(1).build();
    assert_eq!("https://api.pexels.com/v1/search?query=&page=1", uri.create_uri().unwrap());
}

#[test]
fn search_test_per_page() {
    let uri = SearchBuilder::new().per_page(1).build();
    assert_eq!("https://api.pexels.com/v1/search?query=&per_page=1", uri.create_uri().unwrap());
}

#[test]
fn search_test_orientation() {
    let uri = SearchBuilder::new().orientation(Orientation::Landscape).build();
    assert_eq!(
        "https://api.pexels.com/v1/search?query=&orientation=landscape",
        uri.create_uri().unwrap()
    );
}

#[test]
fn search_test_size() {
    let uri = SearchBuilder::new().size(Size::Small).build();
    assert_eq!("https://api.pexels.com/v1/search?query=&size=small", uri.create_uri().unwrap());
}

#[test]
fn test_color() {
    let uri = SearchBuilder::new().color(Color::Pink).build();
    assert_eq!("https://api.pexels.com/v1/search?query=&color=pink", uri.create_uri().unwrap());
}

#[test]
fn test_hex_color_code() {
    let hex_color = Hex::from_borrowed_str("#FFFFFF").unwrap();
    let uri = SearchBuilder::new().color(Color::Hex(hex_color)).build();
    assert_eq!(
        "https://api.pexels.com/v1/search?query=&color=%23FFFFFF",
        uri.create_uri().unwrap()
    );
}

#[test]
fn search_test_locale() {
    let uri = SearchBuilder::new().locale(Locale::sv_SE).build();
    assert_eq!(
        "https://api.pexels.com/v1/search?query=&locale=sv-SE",
        uri.create_uri().unwrap()
    );
}

#[test]
fn test_hex_struct_length() {
    let hex_color = Hex::from_borrowed_str("#allanballan");
    assert_eq!(
        hex_color,
        Err(PexelsError::HexColorCodeError(String::from(
            "#allanballan is not 7 characters long."
        )))
    );
}

#[test]
fn test_hex_struct_box_validation() {
    let hex_color = Hex::from_borrowed_str("FFFFFFF");
    assert_eq!(
        hex_color,
        Err(PexelsError::HexColorCodeError(String::from("FFFFFFF does not start with #.")))
    );
}

#[test]
fn test_hex_struct_ascii_validation() {
    let hex_color = Hex::from_borrowed_str("#??????");
    assert_eq!(
        hex_color,
        Err(PexelsError::HexColorCodeError(String::from(
            "#?????? have values that are not valid ASCII punctuation character."
        )))
    );
}

#[test]
fn curated_test_page() {
    let uri = CuratedBuilder::new().page(1).build();
    assert_eq!("https://api.pexels.com/v1/curated?page=1", uri.create_uri().unwrap());
}

#[test]
fn curated_test_per_page() {
    let uri = CuratedBuilder::new().per_page(1).build();
    assert_eq!("https://api.pexels.com/v1/curated?per_page=1", uri.create_uri().unwrap());
}

#[test]
fn photo_test_id() {
    let uri = FetchPhotoBuilder::new().id(123).build();
    assert_eq!("https://api.pexels.com/v1/photos/123", uri.create_uri().unwrap());
}

#[test]
fn video_search_test_query() {
    let uri = VideoSearchBuilder::new().query("bar").build();
    assert_eq!("https://api.pexels.com/videos/search?query=bar", uri.create_uri().unwrap());
}

#[test]
fn video_search_test_page() {
    let uri = VideoSearchBuilder::new().page(1).build();
    assert_eq!("https://api.pexels.com/videos/search?query=&page=1", uri.create_uri().unwrap());
}

#[test]
fn video_search_test_per_page() {
    let uri = VideoSearchBuilder::new().per_page(1).build();
    assert_eq!(
        "https://api.pexels.com/videos/search?query=&per_page=1",
        uri.create_uri().unwrap()
    );
}

#[test]
fn video_search_test_orientation() {
    let uri = VideoSearchBuilder::new().orientation(Orientation::Landscape).build();
    assert_eq!(
        "https://api.pexels.com/videos/search?query=&orientation=landscape",
        uri.create_uri().unwrap()
    );
}

#[test]
fn video_search_test_size() {
    let uri = VideoSearchBuilder::new().size(Size::Small).build();
    assert_eq!(
        "https://api.pexels.com/videos/search?query=&size=small",
        uri.create_uri().unwrap()
    );
}

#[test]
fn video_search_test_locale() {
    let uri = VideoSearchBuilder::new().locale(Locale::sv_SE).build();
    assert_eq!(
        "https://api.pexels.com/videos/search?query=&locale=sv-SE",
        uri.create_uri().unwrap()
    );
}

#[test]
fn test_min_width() {
    let uri = PopularBuilder::new().min_width(1).build();
    assert_eq!("https://api.pexels.com/videos/popular?min_width=1", uri.create_uri().unwrap());
}

#[test]
fn test_min_height() {
    let uri = PopularBuilder::new().min_height(1).build();
    assert_eq!("https://api.pexels.com/videos/popular?min_height=1", uri.create_uri().unwrap());
}

#[test]
fn test_min_duration() {
    let uri = PopularBuilder::new().min_duration(10).build();
    assert_eq!(
        "https://api.pexels.com/videos/popular?min_duration=10",
        uri.create_uri().unwrap()
    );
}

#[test]
fn test_max_duration() {
    let uri = PopularBuilder::new().max_duration(100).build();
    assert_eq!(
        "https://api.pexels.com/videos/popular?max_duration=100",
        uri.create_uri().unwrap()
    );
}

#[test]
fn popular_test_page() {
    let uri = PopularBuilder::new().page(1).build();
    assert_eq!("https://api.pexels.com/videos/popular?page=1", uri.create_uri().unwrap());
}

#[test]
fn popular_test_per_page() {
    let uri = PopularBuilder::new().per_page(1).build();
    assert_eq!("https://api.pexels.com/videos/popular?per_page=1", uri.create_uri().unwrap());
}

#[test]
fn video_test_id() {
    let uri = FetchVideoBuilder::new().id(123).build();
    assert_eq!("https://api.pexels.com/videos/videos/123", uri.create_uri().unwrap());
}

#[test]
fn media_test_id() {
    let uri = MediaBuilder::new().id("123".to_string()).build();
    assert_eq!("https://api.pexels.com/v1/collections/123", uri.create_uri().unwrap());
}

#[test]
fn test_pexels_error_partial_eq() {
    let err1 = PexelsError::ApiKeyNotFound;
    let err2 = PexelsError::ApiKeyNotFound;
    assert_eq!(err1, err2);

    let err3 = PexelsError::HexColorCodeError(String::from("Invalid color"));
    let err4 = PexelsError::HexColorCodeError(String::from("Invalid color"));
    assert_eq!(err3, err4);

    let err9 = PexelsError::ParseError(ParseError::EmptyHost);
    let err10 = PexelsError::ParseError(ParseError::EmptyHost);
    assert_eq!(err9, err10);

    let err11 = PexelsError::ApiKeyNotFound;
    let err12 = PexelsError::HexColorCodeError(String::from("Invalid color"));
    assert_ne!(err11, err12);
}

#[test]
fn test_parse_photo() {
    let input = "photo";
    let media_type = input.parse::<MediaType>();
    assert_eq!(media_type, Ok(MediaType::Photo));
}

#[test]
fn test_parse_video() {
    let input = "video";
    let media_type = input.parse::<MediaType>();
    assert_eq!(media_type, Ok(MediaType::Video));
}

#[test]
fn test_parse_invalid() {
    let input = "audio";
    let media_type = input.parse::<MediaType>();
    assert!(matches!(media_type, Err(PexelsError::ParseMediaTypeError)));
}

#[test]
fn client_urls_compose_from_base() {
    let client = PexelsClient::new("KEY");
    let params = SearchParams::new().page(1).per_page(15);
    assert_eq!(
        client.search_photos_url("mountains", &params),
        "https://api.pexels.com/v1/search?query=mountains&page=1&per_page=15"
    );
    assert_eq!(client.get_photo_url(10967), "https://api.pexels.com/v1/photos/10967");
    let pagination = PaginationParams::new().page(2).per_page(5);
    assert_eq!(
        client.curated_photos_url(&pagination),
        "https://api.pexels.com/v1/curated?page=2&per_page=5"
    );
    assert_eq!(
        client.get_collections_url(&pagination),
        "https://api.pexels.com/v1/collections?page=2&per_page=5"
    );
    assert_eq!(
        client.get_collection_media_url("abc", &pagination),
        "https://api.pexels.com/v1/collections/abc?page=2&per_page=5"
    );
    let relocated = client.with_base_url("https://example.test/v1");
    assert_eq!(relocated.get_video_url(9), "https://example.test/v1/videos/videos/9");
}

#[test]
fn request_errors_decode_by_status() {
    assert!(matches!(request_error(429, "Search photos"), PexelsError::RateLimitError));
    match request_error(401, "Search photos") {
        PexelsError::AuthError(m) => assert_eq!(m, "Invalid API key"),
        _ => panic!("wrong kind"),
    }
    match request_error(500, "Search photos") {
        PexelsError::ApiError(m) => assert_eq!(m, "Search photos failed with status: 500"),
        _ => panic!("wrong kind"),
    }
    match not_found_error("Photo", "77") {
        PexelsError::NotFound(m) => assert_eq!(m, "Photo with ID 77 not found"),
        _ => panic!("wrong kind"),
    }
}

fn mock_photo() -> Photo {
    Photo {
        id: 1,
        width: 800,
        height: 600,
        url: "https://www.pexels.com/photo/1".to_string(),
        photographer: "Test Photographer".to_string(),
        photographer_url: Some("https://www.pexels.com/photographer".to_string()),
        photographer_id: Some(1),
        avg_color: Some("#FFFFFF".to_string()),
        src: PhotoSources {
            original: "https://images.pexels.com/photos/1/original.jpg".to_string(),
            large2x: "https://images.pexels.com/photos/1/large2x.jpg".to_string(),
            large: "https://images.pexels.com/photos/1/large.jpg".to_string(),
            medium: "https://images.pexels.com/photos/1/medium.jpg".to_string(),
            small: "https://images.pexels.com/photos/1/small.jpg".to_string(),
            portrait: "https://images.pexels.com/photos/1/portrait.jpg".to_string(),
            landscape: "https://images.pexels.com/photos/1/landscape.jpg".to_string(),
            tiny: "https://images.pexels.com/photos/1/tiny.jpg".to_string(),
        },
        alt: Some("Test Photo".to_string()),
    }
}

#[test]
fn test_get_photo_url() {
    let manager = DownloadManager::new(5);
    let photo = mock_photo();
    assert_eq!(
        manager.get_photo_url(&photo, ImageQuality::Original),
        "https://images.pexels.com/photos/1/original.jpg"
    );
    assert_eq!(
        manager.get_photo_url(&photo, ImageQuality::Large2x),
        "https://images.pexels.com/photos/1/large2x.jpg"
    );
}

fn video_file(quality: &str, file_type: &str, width: Option<u32>, link: &str) -> VideoFile {
    VideoFile {
        id: 1,
        quality: quality.to_string(),
        file_type: file_type.to_string(),
        width,
        height: width.map(|w| w / 2),
        link: link.to_string(),
    }
}

#[test]
fn video_quality_selection_prefers_first_match() {
    let video = Video {
        id: 9,
        width: 1920,
        height: 1080,
        url: "https://www.pexels.com/video/9".to_string(),
        image: "i".to_string(),
        duration: Some(10),
        user: User { id: 1, name: "n".to_string(), user_url: "u".to_string() },
        video_files: vec![
            video_file("sd", "video/mp4", Some(640), "https://v/sd"),
            video_file("hd", "video/mp4", Some(1920), "https://v/hd"),
        ],
        video_pictures: vec![],
    };
    let manager = DownloadManager::new(2);
    assert_eq!(manager.get_video_url(&video, VideoQuality::HD), "https://v/hd");
    assert_eq!(manager.get_video_url(&video, VideoQuality::SD), "https://v/sd");
    // The tiny tier matches the 640-wide mp4 file.
    assert_eq!(manager.get_video_url(&video, VideoQuality::Tiny), "https://v/sd");
}

#[test]
fn collection_items_mark_their_kind() {
    let photo = DomainPhoto {
        id: 7,
        width: 100,
        height: 50,
        url: "https://p".to_string(),
        photographer: "a".to_string(),
        photographer_url: "https://a".to_string(),
        photographer_id: 3,
        avg_color: "#000000".to_string(),
        src: PhotoSrc {
            original: "o".to_string(),
            large2x: "l2".to_string(),
            large: "l".to_string(),
            medium: "m".to_string(),
            small: "s".to_string(),
            portrait: "p".to_string(),
            landscape: "ls".to_string(),
            tiny: "t".to_string(),
        },
        liked: false,
        alt: "alt".to_string(),
    };
    let media = MediaPhoto::of_photo(photo);
    assert_eq!(media.type_, "Photo");
    assert_eq!(media.id, 7);
    assert_eq!(media.url.as_deref(), Some("https://p"));

    let video = domain_video();
    let media = MediaVideo::of_video(video);
    assert_eq!(media.type_, "Video");
    assert_eq!(media.duration, 0);
    assert_eq!(media.url.as_deref(), Some("https://www.pexels.com/video/9"));
}

fn domain_video() -> fusion_media_provider::pexels::domain::Video {
    fusion_media_provider::pexels::domain::Video {
        avg_color: None,
        duration: None,
        full_res: None,
        height: 1080,
        id: 9,
        image_url: "i".to_string(),
        tags: vec![],
        video_url: "https://www.pexels.com/video/9".to_string(),
        user: User { id: 1, name: "n".to_string(), user_url: "u".to_string() },
        video_files: vec![],
        video_pictures: vec![],
        width: 1920,
    }
}
