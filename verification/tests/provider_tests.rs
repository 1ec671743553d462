//! Provider mapping tests: Pixabay and Pexels records onto the
//! provider-agnostic model.

use fusion_media_provider::models::MediaType;
use fusion_media_provider::pexels_provider::{media_item_from_pexels_video, PexelsProvider};
use fusion_media_provider::pixabay_provider::{
    media_item_from_image, media_item_from_video, split_tags, PixabayProvider,
};
use fusion_media_provider::pixabay::models::{Image, Video, VideoFile, VideoFiles};
use fusion_media_provider::pexels::domain;

fn pixabay_image() -> Image {
    Image {
        id: 195893,
        page_url: "https://pixabay.com/photos/flower-195893/".to_string(),
        image_type: "photo".to_string(),
        tags: "flower, yellow, spring".to_string(),
        preview_url: "https://cdn/p.jpg".to_string(),
        preview_width: 150,
        preview_height: 100,
        webformat_url: "https://cdn/w.jpg".to_string(),
        webformat_width: 640,
        webformat_height: 426,
        large_image_url: "https://cdn/l.jpg".to_string(),
        full_hd_url: None,
        image_url: Some("https://cdn/o.jpg".to_string()),
        vector_url: None,
        image_width: 4000,
        image_height: 2667,
        image_size: 4731420,
        views: 7671,
        downloads: 6439,
        collections: Some(1),
        likes: 5,
        comments: 2,
        user_id: 48777,
        user: "Josch13".to_string(),
        user_image_url: "https://cdn/u.jpg".to_string(),
    }
}

#[test]
fn pixabay_image_maps_onto_media_item() {
    let item = media_item_from_image(pixabay_image());
    assert_eq!(item.id, "195893");
    assert_eq!(item.media_type, MediaType::Image);
    assert_eq!(item.title, "flower, yellow, spring");
    assert_eq!(item.tags, vec!["flower", "yellow", "spring"]);
    assert_eq!(item.author, "Josch13");
    assert_eq!(item.author_url, "https://pixabay.com/users/Josch13-48777/");
    assert_eq!(item.provider, "Pixabay");
    assert_eq!(item.urls.thumbnail, "https://cdn/p.jpg");
    assert_eq!(item.urls.medium.as_deref(), Some("https://cdn/w.jpg"));
    assert_eq!(item.urls.large.as_deref(), Some("https://cdn/l.jpg"));
    assert_eq!(item.urls.original.as_deref(), Some("https://cdn/o.jpg"));
    assert_eq!(item.metadata.width, 4000);
    assert_eq!(item.metadata.size, Some(4731420));
}

fn pixabay_video_file(url: &str, width: u32) -> VideoFile {
    VideoFile {
        url: url.to_string(),
        width,
        height: width / 2,
        size: 1000,
        thumbnail: format!("{url}.thumb.jpg"),
    }
}

#[test]
fn pixabay_video_maps_files_in_descending_order() {
    let video = Video {
        id: 31377,
        page_url: "https://pixabay.com/videos/31377/".to_string(),
        video_type: "film".to_string(),
        tags: "ocean, waves".to_string(),
        duration: 12,
        videos: VideoFiles {
            large: Some(pixabay_video_file("https://cdn/large.mp4", 1920)),
            medium: None,
            small: Some(pixabay_video_file("https://cdn/small.mp4", 960)),
            tiny: Some(pixabay_video_file("https://cdn/tiny.mp4", 640)),
        },
        views: 100,
        downloads: 50,
        likes: 9,
        comments: 3,
        user_id: 1,
        user: "sea".to_string(),
        user_image_url: "https://cdn/u.jpg".to_string(),
    };
    let item = media_item_from_video(video);
    assert_eq!(item.id, "31377");
    assert_eq!(item.media_type, MediaType::Video);
    let files = item.urls.video_files.as_ref().unwrap();
    assert_eq!(files.len(), 3);
    assert_eq!(files[0].quality, "large");
    assert_eq!(files[1].quality, "small");
    assert_eq!(files[2].quality, "tiny");
    // The thumbnail comes from the first file present.
    assert_eq!(item.urls.thumbnail, "https://cdn/large.mp4.thumb.jpg");
    // No medium resolution: that tier stays absent; large carries its URL.
    assert_eq!(item.urls.medium, None);
    assert_eq!(item.urls.large.as_deref(), Some("https://cdn/large.mp4"));
    assert_eq!(item.metadata.width, 1920);
    assert_eq!(item.metadata.duration, Some(12));
}

#[test]
fn pexels_video_picks_first_hd_file() {
    let video = domain::Video {
        avg_color: None,
        duration: Some(30),
        full_res: None,
        height: 1080,
        id: 25460961,
        image_url: "https://cdn/poster.jpg".to_string(),
        tags: vec![],
        video_url: "https://www.pexels.com/video/25460961".to_string(),
        user: domain::User { id: 5, name: "maker".to_string(), user_url: "https://u".to_string() },
        video_files: vec![
            domain::VideoFile {
                file_type: "video/mp4".to_string(),
                height: 540,
                id: 1,
                file_link: "https://cdn/sd.mp4".to_string(),
                quality: Some("sd".to_string()),
                size: 100,
                width: 960,
            },
            domain::VideoFile {
                file_type: "video/mp4".to_string(),
                height: 1080,
                id: 2,
                file_link: "https://cdn/hd.mp4".to_string(),
                quality: Some("HD".to_string()),
                size: 200,
                width: 1920,
            },
        ],
        video_pictures: vec![],
        width: 1920,
    };
    let item = media_item_from_pexels_video(video);
    assert_eq!(item.id, "25460961");
    assert_eq!(item.title, "Video");
    assert_eq!(item.provider, "Pexels");
    // The uppercase label still counts: matching is on the lowercased form.
    assert_eq!(item.urls.medium.as_deref(), Some("https://cdn/hd.mp4"));
    assert_eq!(item.urls.large.as_deref(), Some("https://cdn/hd.mp4"));
    let files = item.urls.video_files.as_ref().unwrap();
    assert_eq!(files.len(), 2);
    assert_eq!(files[0].quality, "sd");
    assert_eq!(files[1].quality, "HD");
}

#[test]
fn tag_splitting_keeps_empty_entries() {
    assert_eq!(split_tags("a, b , ,c"), vec!["a", "b", "", "c"]);
    assert_eq!(split_tags(""), vec![""]);
}

#[test]
fn providers_carry_their_key() {
    let px = PixabayProvider::new("k1".to_string());
    assert_eq!(px.client.api_key, "k1");
    let pe = PexelsProvider::new("k2".to_string());
    assert_eq!(pe.client.api_key, "k2");
}
