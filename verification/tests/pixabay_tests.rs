//! Pixabay client tests: wire forms of the filter enumerations, category
//! parsing, request URLs, and response decoding.

use fusion_media_provider::pixabay::client::{
    first_image, response_error, Pixabay, SearchImageParams, SearchVideoParams,
};
use fusion_media_provider::pixabay::error::PixabayError;
use fusion_media_provider::pixabay::models::{
    parse_category, Category, Image, ImageResponse, ImageType, Order, Orientation, VideoType,
};

#[test]
fn test_enums_to_string() {
    assert_eq!(ImageType::Photo.to_string(), "photo");
    assert_eq!(VideoType::Film.to_string(), "film");
    assert_eq!(Orientation::Horizontal.to_string(), "horizontal");
    assert_eq!(Order::Latest.to_string(), "latest");
    assert_eq!(Category::Nature.to_string(), "nature");
}

#[test]
fn category_parsing_is_case_insensitive() {
    assert_eq!(parse_category("nature"), Some(Category::Nature));
    assert_eq!(parse_category("NATURE"), Some(Category::Nature));
    assert_eq!(parse_category("Transportation"), Some(Category::Transportation));
    assert_eq!(parse_category("unknown"), None);
}

#[test]
fn simple_image_search_url() {
    let client = Pixabay::new("KEY".to_string());
    assert_eq!(
        client.search_images_url("yellow flowers", Some(10), Some(1)),
        "https://pixabay.com/api/?key=KEY&q=yellow+flowers&per_page=10&page=1"
    );
}

#[test]
fn per_page_is_clamped() {
    let client = Pixabay::new("KEY".to_string());
    assert_eq!(
        client.search_images_url("cat", Some(1), None),
        "https://pixabay.com/api/?key=KEY&q=cat&per_page=3&page=1"
    );
    assert_eq!(
        client.search_videos_url("cat", Some(500), Some(2)),
        "https://pixabay.com/api/videos/?key=KEY&q=cat&per_page=200&page=2"
    );
    assert_eq!(
        client.search_videos_url("cat", None, None),
        "https://pixabay.com/api/videos/?key=KEY&q=cat&per_page=20&page=1"
    );
}

#[test]
fn by_id_urls() {
    let client = Pixabay::new("KEY".to_string());
    assert_eq!(client.image_by_id_url(195893), "https://pixabay.com/api/?key=KEY&id=195893");
    assert_eq!(
        client.video_by_id_url(31377),
        "https://pixabay.com/api/videos/?key=KEY&id=31377"
    );
}

#[test]
fn advanced_image_search_url() {
    let client = Pixabay::new("KEY".to_string());
    let params = SearchImageParams::new()
        .query("mountains")
        .per_page(50)
        .image_type(ImageType::Photo)
        .orientation(Orientation::Horizontal)
        .category(Category::Nature)
        .min_width(1920)
        .min_height(1080)
        .editors_choice(true)
        .safesearch(true)
        .order(Order::Latest);
    let url = client.search_images_advanced_url(&params).unwrap();
    assert_eq!(
        url,
        "https://pixabay.com/api/?key=KEY&q=mountains&per_page=50&page=1&image_type=photo&orientation=horizontal&category=nature&min_width=1920&min_height=1080&editors_choice=true&safesearch=true&order=latest"
    );
}

#[test]
fn advanced_video_search_url() {
    let client = Pixabay::new("KEY".to_string());
    let params = SearchVideoParams::new()
        .query("sunset")
        .per_page(20)
        .video_type(VideoType::Film)
        .category(Category::Nature)
        .order(Order::Latest);
    let url = client.search_videos_advanced_url(&params).unwrap();
    assert_eq!(
        url,
        "https://pixabay.com/api/videos/?key=KEY&q=sunset&per_page=20&page=1&video_type=film&category=nature&order=latest"
    );
}

#[test]
fn query_length_is_validated() {
    let client = Pixabay::new("KEY".to_string());
    let long = "x".repeat(101);
    let params = SearchImageParams::new().query(&long);
    assert!(matches!(
        client.search_images_advanced_url(&params),
        Err(PixabayError::ApiError(_))
    ));
    let edge = "x".repeat(100);
    let params = SearchImageParams::new().query(&edge);
    assert!(client.search_images_advanced_url(&params).is_ok());
}

#[test]
fn response_errors_decode_by_status() {
    assert!(matches!(response_error(429, "".to_string()), PixabayError::RateLimitExceeded));
    assert!(matches!(response_error(401, "".to_string()), PixabayError::InvalidApiKey));
    assert!(matches!(response_error(403, "".to_string()), PixabayError::InvalidApiKey));
    match response_error(400, "bad".to_string()) {
        PixabayError::ApiError(m) => assert_eq!(m, "Bad request: bad"),
        _ => panic!("wrong kind"),
    }
    match response_error(500, "oops".to_string()) {
        PixabayError::ApiError(m) => assert_eq!(m, "HTTP 500: oops"),
        _ => panic!("wrong kind"),
    }
}

fn image(id: u64) -> Image {
    Image {
        id,
        page_url: "https://pixabay.com/photos/1".to_string(),
        image_type: "photo".to_string(),
        tags: "flower, yellow".to_string(),
        preview_url: "p".to_string(),
        preview_width: 100,
        preview_height: 80,
        webformat_url: "w".to_string(),
        webformat_width: 640,
        webformat_height: 480,
        large_image_url: "l".to_string(),
        full_hd_url: None,
        image_url: Some("o".to_string()),
        vector_url: None,
        image_width: 1920,
        image_height: 1080,
        image_size: 123456,
        views: 10,
        downloads: 5,
        collections: None,
        likes: 7,
        comments: 2,
        user_id: 99,
        user: "artist".to_string(),
        user_image_url: "u".to_string(),
    }
}

#[test]
fn by_id_answers_pick_the_first_hit() {
    let response = ImageResponse { total: 1, total_hits: 1, hits: vec![image(12)] };
    let img = first_image(response, 12).unwrap();
    assert_eq!(img.id, 12);

    let empty = ImageResponse { total: 0, total_hits: 0, hits: vec![] };
    match first_image(empty, 12) {
        Err(PixabayError::ApiError(m)) => assert_eq!(m, "no image found for id 12"),
        _ => panic!("wrong kind"),
    }
}

#[test]
fn lib_test_client_creation() {
    let client = Pixabay::new("test_key".to_string());
    assert_eq!(client.api_key, "test_key");
}
