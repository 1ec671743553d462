//! Pixabay response data model and search-filter enumerations.

use crate::text::{lower_of, lowercase, string_eq_str};
use vstd::prelude::*;

verus! {

/// One page of an image search: the result totals and the hits.
#[derive(Debug, Clone)]
pub struct ImageResponse {
    pub total: u32,
    pub total_hits: u32,
    pub hits: Vec<Image>,
}

/// One Pixabay image record.
#[derive(Debug, Clone)]
pub struct Image {
    pub id: u64,
    pub page_url: String,
    pub image_type: String,
    pub tags: String,
    pub preview_url: String,
    pub preview_width: u32,
    pub preview_height: u32,
    pub webformat_url: String,
    pub webformat_width: u32,
    pub webformat_height: u32,
    pub large_image_url: String,
    pub full_hd_url: Option<String>,
    pub image_url: Option<String>,
    pub vector_url: Option<String>,
    pub image_width: u32,
    pub image_height: u32,
    pub image_size: u64,
    pub views: u32,
    pub downloads: u32,
    pub collections: Option<u32>,
    pub likes: u32,
    pub comments: u32,
    pub user_id: u64,
    pub user: String,
    pub user_image_url: String,
}

/// One page of a video search: the result totals and the hits.
#[derive(Debug, Clone)]
pub struct VideoResponse {
    pub total: u32,
    pub total_hits: u32,
    pub hits: Vec<Video>,
}

/// One Pixabay video record.
#[derive(Debug, Clone)]
pub struct Video {
    pub id: u64,
    pub page_url: String,
    pub video_type: String,
    pub tags: String,
    pub duration: u32,
    pub videos: VideoFiles,
    pub views: u32,
    pub downloads: u32,
    pub likes: u32,
    pub comments: u32,
    pub user_id: u64,
    pub user: String,
    pub user_image_url: String,
}

/// The files of one video, by descending resolution; any of them may be
/// absent.
#[derive(Debug, Clone)]
pub struct VideoFiles {
    pub large: Option<VideoFile>,
    pub medium: Option<VideoFile>,
    pub small: Option<VideoFile>,
    pub tiny: Option<VideoFile>,
}

/// One file of a video.
#[derive(Debug, Clone)]
pub struct VideoFile {
    pub url: String,
    pub width: u32,
    pub height: u32,
    pub size: u64,
    pub thumbnail: String,
}

/// The image-type filter of a search.
#[derive(Debug, Clone, Copy, PartialEq, Eq, Structural)]
pub enum ImageType {
    All,
    Photo,
    Illustration,
    Vector,
}

impl ImageType {
    /// The wire form of this filter.
    pub open spec fn spec_str(self) -> Seq<char> {
        match self {
            ImageType::All => "all"@,
            ImageType::Photo => "photo"@,
            ImageType::Illustration => "illustration"@,
            ImageType::Vector => "vector"@,
        }
    }

    /// Renders this filter in its wire form.
    pub fn to_string(&self) -> (r: String)
        ensures
            r@ == self.spec_str(),
    {
        match self {
            ImageType::All => "all".to_owned(),
            ImageType::Photo => "photo".to_owned(),
            ImageType::Illustration => "illustration".to_owned(),
            ImageType::Vector => "vector".to_owned(),
        }
    }
}

/// The video-type filter of a search.
#[derive(Debug, Clone, Copy, PartialEq, Eq, Structural)]
pub enum VideoType {
    All,
    Film,
    Animation,
}

impl VideoType {
    /// The wire form of this filter.
    pub open spec fn spec_str(self) -> Seq<char> {
        match self {
            VideoType::All => "all"@,
            VideoType::Film => "film"@,
            VideoType::Animation => "animation"@,
        }
    }

    /// Renders this filter in its wire form.
    pub fn to_string(&self) -> (r: String)
        ensures
            r@ == self.spec_str(),
    {
        match self {
            VideoType::All => "all".to_owned(),
            VideoType::Film => "film".to_owned(),
            VideoType::Animation => "animation".to_owned(),
        }
    }
}

/// The orientation filter of a search.
#[derive(Debug, Clone, Copy, PartialEq, Eq, Structural)]
pub enum Orientation {
    All,
    Horizontal,
    Vertical,
}

impl Orientation {
    /// The wire form of this filter.
    pub open spec fn spec_str(self) -> Seq<char> {
        match self {
            Orientation::All => "all"@,
            Orientation::Horizontal => "horizontal"@,
            Orientation::Vertical => "vertical"@,
        }
    }

    /// Renders this filter in its wire form.
    pub fn to_string(&self) -> (r: String)
        ensures
            r@ == self.spec_str(),
    {
        match self {
            Orientation::All => "all".to_owned(),
            Orientation::Horizontal => "horizontal".to_owned(),
            Orientation::Vertical => "vertical".to_owned(),
        }
    }
}

/// The subject-category filter of a search.
#[derive(Debug, Clone, Copy, PartialEq, Eq, Structural)]
pub enum Category {
    Backgrounds,
    Fashion,
    Nature,
    Science,
    Education,
    Feelings,
    Health,
    People,
    Religion,
    Places,
    Animals,
    Industry,
    Computer,
    Food,
    Sports,
    Transportation,
    Travel,
    Buildings,
    Business,
    Music,
}

impl Category {
    /// The wire form of this filter.
    pub open spec fn spec_str(self) -> Seq<char> {
        match self {
            Category::Backgrounds => "backgrounds"@,
            Category::Fashion => "fashion"@,
            Category::Nature => "nature"@,
            Category::Science => "science"@,
            Category::Education => "education"@,
            Category::Feelings => "feelings"@,
            Category::Health => "health"@,
            Category::People => "people"@,
            Category::Religion => "religion"@,
            Category::Places => "places"@,
            Category::Animals => "animals"@,
            Category::Industry => "industry"@,
            Category::Computer => "computer"@,
            Category::Food => "food"@,
            Category::Sports => "sports"@,
            Category::Transportation => "transportation"@,
            Category::Travel => "travel"@,
            Category::Buildings => "buildings"@,
            Category::Business => "business"@,
            Category::Music => "music"@,
        }
    }

    /// Renders this filter in its wire form.
    pub fn to_string(&self) -> (r: String)
        ensures
            r@ == self.spec_str(),
    {
        match self {
            Category::Backgrounds => "backgrounds".to_owned(),
            Category::Fashion => "fashion".to_owned(),
            Category::Nature => "nature".to_owned(),
            Category::Science => "science".to_owned(),
            Category::Education => "education".to_owned(),
            Category::Feelings => "feelings".to_owned(),
            Category::Health => "health".to_owned(),
            Category::People => "people".to_owned(),
            Category::Religion => "religion".to_owned(),
            Category::Places => "places".to_owned(),
            Category::Animals => "animals".to_owned(),
            Category::Industry => "industry".to_owned(),
            Category::Computer => "computer".to_owned(),
            Category::Food => "food".to_owned(),
            Category::Sports => "sports".to_owned(),
            Category::Transportation => "transportation".to_owned(),
            Category::Travel => "travel".to_owned(),
            Category::Buildings => "buildings".to_owned(),
            Category::Business => "business".to_owned(),
            Category::Music => "music".to_owned(),
        }
    }
}

/// What a category name parses to: the lowercased input must equal one
/// wire form exactly.
pub open spec fn spec_parse_category(low: Seq<char>) -> Option<Category> {
    if low == "backgrounds"@ {
        Some(Category::Backgrounds)
    } else if low == "fashion"@ {
        Some(Category::Fashion)
    } else if low == "nature"@ {
        Some(Category::Nature)
    } else if low == "science"@ {
        Some(Category::Science)
    } else if low == "education"@ {
        Some(Category::Education)
    } else if low == "feelings"@ {
        Some(Category::Feelings)
    } else if low == "health"@ {
        Some(Category::Health)
    } else if low == "people"@ {
        Some(Category::People)
    } else if low == "religion"@ {
        Some(Category::Religion)
    } else if low == "places"@ {
        Some(Category::Places)
    } else if low == "animals"@ {
        Some(Category::Animals)
    } else if low == "industry"@ {
        Some(Category::Industry)
    } else if low == "computer"@ {
        Some(Category::Computer)
    } else if low == "food"@ {
        Some(Category::Food)
    } else if low == "sports"@ {
        Some(Category::Sports)
    } else if low == "transportation"@ {
        Some(Category::Transportation)
    } else if low == "travel"@ {
        Some(Category::Travel)
    } else if low == "buildings"@ {
        Some(Category::Buildings)
    } else if low == "business"@ {
        Some(Category::Business)
    } else if low == "music"@ {
        Some(Category::Music)
    } else {
        None
    }
}

/// Parses a category name, case-insensitively.
pub fn parse_category(s: &str) -> (r: Option<Category>)
    ensures
        r == spec_parse_category(lower_of(s@)),
{
    let low = lowercase(s);
    if string_eq_str(&low, "backgrounds") {
        Some(Category::Backgrounds)
    } else if string_eq_str(&low, "fashion") {
        Some(Category::Fashion)
    } else if string_eq_str(&low, "nature") {
        Some(Category::Nature)
    } else if string_eq_str(&low, "science") {
        Some(Category::Science)
    } else if string_eq_str(&low, "education") {
        Some(Category::Education)
    } else if string_eq_str(&low, "feelings") {
        Some(Category::Feelings)
    } else if string_eq_str(&low, "health") {
        Some(Category::Health)
    } else if string_eq_str(&low, "people") {
        Some(Category::People)
    } else if string_eq_str(&low, "religion") {
        Some(Category::Religion)
    } else if string_eq_str(&low, "places") {
        Some(Category::Places)
    } else if string_eq_str(&low, "animals") {
        Some(Category::Animals)
    } else if string_eq_str(&low, "industry") {
        Some(Category::Industry)
    } else if string_eq_str(&low, "computer") {
        Some(Category::Computer)
    } else if string_eq_str(&low, "food") {
        Some(Category::Food)
    } else if string_eq_str(&low, "sports") {
        Some(Category::Sports)
    } else if string_eq_str(&low, "transportation") {
        Some(Category::Transportation)
    } else if string_eq_str(&low, "travel") {
        Some(Category::Travel)
    } else if string_eq_str(&low, "buildings") {
        Some(Category::Buildings)
    } else if string_eq_str(&low, "business") {
        Some(Category::Business)
    } else if string_eq_str(&low, "music") {
        Some(Category::Music)
    } else {
        None
    }
}

/// The result-order setting of a search.
#[derive(Debug, Clone, Copy, PartialEq, Eq, Structural)]
pub enum Order {
    Popular,
    Latest,
}

impl Order {
    /// The wire form of this setting.
    pub open spec fn spec_str(self) -> Seq<char> {
        match self {
            Order::Popular => "popular"@,
            Order::Latest => "latest"@,
        }
    }

    /// Renders this setting in its wire form.
    pub fn to_string(&self) -> (r: String)
        ensures
            r@ == self.spec_str(),
    {
        match self {
            Order::Popular => "popular".to_owned(),
            Order::Latest => "latest".to_owned(),
        }
    }
}

/// The language setting of a search.
#[derive(Debug, Clone, Copy, PartialEq, Eq, Structural)]
pub enum Language {
    Cs,
    Da,
    De,
    En,
    Es,
    Fr,
    Id,
    It,
    Hu,
    Nl,
    No,
    Pl,
    Pt,
    Ro,
    Sk,
    Fi,
    Sv,
    Tr,
    Vi,
    Th,
    Bg,
    Ru,
    El,
    Ja,
    Ko,
    Zh,
}

impl Language {
    /// The wire form of this setting.
    pub open spec fn spec_str(self) -> Seq<char> {
        match self {
            Language::Cs => "cs"@,
            Language::Da => "da"@,
            Language::De => "de"@,
            Language::En => "en"@,
            Language::Es => "es"@,
            Language::Fr => "fr"@,
            Language::Id => "id"@,
            Language::It => "it"@,
            Language::Hu => "hu"@,
            Language::Nl => "nl"@,
            Language::No => "no"@,
            Language::Pl => "pl"@,
            Language::Pt => "pt"@,
            Language::Ro => "ro"@,
            Language::Sk => "sk"@,
            Language::Fi => "fi"@,
            Language::Sv => "sv"@,
            Language::Tr => "tr"@,
            Language::Vi => "vi"@,
            Language::Th => "th"@,
            Language::Bg => "bg"@,
            Language::Ru => "ru"@,
            Language::El => "el"@,
            Language::Ja => "ja"@,
            Language::Ko => "ko"@,
            Language::Zh => "zh"@,
        }
    }

    /// Renders this setting in its wire form.
    pub fn to_string(&self) -> (r: String)
        ensures
            r@ == self.spec_str(),
    {
        match self {
            Language::Cs => "cs".to_owned(),
            Language::Da => "da".to_owned(),
            Language::De => "de".to_owned(),
            Language::En => "en".to_owned(),
            Language::Es => "es".to_owned(),
            Language::Fr => "fr".to_owned(),
            Language::Id => "id".to_owned(),
            Language::It => "it".to_owned(),
            Language::Hu => "hu".to_owned(),
            Language::Nl => "nl".to_owned(),
            Language::No => "no".to_owned(),
            Language::Pl => "pl".to_owned(),
            Language::Pt => "pt".to_owned(),
            Language::Ro => "ro".to_owned(),
            Language::Sk => "sk".to_owned(),
            Language::Fi => "fi".to_owned(),
            Language::Sv => "sv".to_owned(),
            Language::Tr => "tr".to_owned(),
            Language::Vi => "vi".to_owned(),
            Language::Th => "th".to_owned(),
            Language::Bg => "bg".to_owned(),
            Language::Ru => "ru".to_owned(),
            Language::El => "el".to_owned(),
            Language::Ja => "ja".to_owned(),
            Language::Ko => "ko".to_owned(),
            Language::Zh => "zh".to_owned(),
        }
    }
}

} // verus!
