//! Pexels request enumerations, parse errors, and the client error type.

use crate::text::{lower_of, lowercase, string_eq_str};
use vstd::prelude::*;

verus! {

/// The photo or video orientation filter.
#[derive(PartialEq, Eq, Structural, Debug, Clone, Copy)]
pub enum Orientation {
    Landscape,
    Portrait,
    Square,
}

impl Orientation {
    /// The wire form of this filter.
    pub open spec fn spec_str(self) -> Seq<char> {
        match self {
            Orientation::Landscape => "landscape"@,
            Orientation::Portrait => "portrait"@,
            Orientation::Square => "square"@,
        }
    }

    /// The wire form of this filter.
    pub fn as_str(&self) -> (r: &str)
        ensures
            r@ == self.spec_str(),
    {
        match self {
            Orientation::Landscape => "landscape",
            Orientation::Portrait => "portrait",
            Orientation::Square => "square",
        }
    }
}

/// The order of items in a collection listing.
#[derive(PartialEq, Eq, Structural, Debug, Clone, Copy)]
pub enum MediaSort {
    Asc,
    Desc,
}

impl MediaSort {
    /// The wire form of this setting.
    pub open spec fn spec_str(self) -> Seq<char> {
        match self {
            MediaSort::Asc => "asc"@,
            MediaSort::Desc => "desc"@,
        }
    }

    /// The wire form of this setting.
    pub fn as_str(&self) -> (r: &str)
        ensures
            r@ == self.spec_str(),
    {
        match self {
            MediaSort::Asc => "asc",
            MediaSort::Desc => "desc",
        }
    }
}

/// The kind of media to request from a collection; an empty kind requests
/// everything.
#[derive(PartialEq, Eq, Structural, Debug, Clone, Copy)]
pub enum MediaType {
    Photo,
    Video,
    Empty,
}

impl MediaType {
    /// The wire form of this kind.
    pub open spec fn spec_str(self) -> Seq<char> {
        match self {
            MediaType::Photo => "photos"@,
            MediaType::Video => "videos"@,
            MediaType::Empty => Seq::<char>::empty(),
        }
    }

    /// The wire form of this kind.
    pub fn as_str(&self) -> (r: &str)
        ensures
            r@ == self.spec_str(),
    {
        proof {
            reveal_strlit("");
        }
        match self {
            MediaType::Photo => "photos",
            MediaType::Video => "videos",
            MediaType::Empty => "",
        }
    }
}

/// The locale of a search.
#[allow(non_camel_case_types)]
#[derive(PartialEq, Eq, Structural, Debug, Clone, Copy)]
pub enum Locale {
    en_US,
    pt_BR,
    es_ES,
    ca_ES,
    de_DE,
    it_IT,
    fr_FR,
    sv_SE,
    id_ID,
    pl_PL,
    ja_JP,
    zh_TW,
    zh_CN,
    ko_KR,
    th_TH,
    nl_NL,
    hu_HU,
    vi_VN,
    cs_CZ,
    da_DK,
    fi_FI,
    uk_UA,
    el_GR,
    ro_RO,
    nb_NO,
    sk_SK,
    tr_TR,
    ru_RU,
}

impl Locale {
    /// The wire form of this locale.
    pub open spec fn spec_str(self) -> Seq<char> {
        match self {
            Locale::en_US => "en-US"@,
            Locale::pt_BR => "pt-BR"@,
            Locale::es_ES => "es-ES"@,
            Locale::ca_ES => "ca-ES"@,
            Locale::de_DE => "de-DE"@,
            Locale::it_IT => "it-IT"@,
            Locale::fr_FR => "fr-FR"@,
            Locale::sv_SE => "sv-SE"@,
            Locale::id_ID => "id-ID"@,
            Locale::pl_PL => "pl-PL"@,
            Locale::ja_JP => "ja-JP"@,
            Locale::zh_TW => "zh-TW"@,
            Locale::zh_CN => "zh-CN"@,
            Locale::ko_KR => "ko-KR"@,
            Locale::th_TH => "th-TH"@,
            Locale::nl_NL => "nl-NL"@,
            Locale::hu_HU => "hu-HU"@,
            Locale::vi_VN => "vi-VN"@,
            Locale::cs_CZ => "cs-CZ"@,
            Locale::da_DK => "da-DK"@,
            Locale::fi_FI => "fi-FI"@,
            Locale::uk_UA => "uk-UA"@,
            Locale::el_GR => "el-GR"@,
            Locale::ro_RO => "ro-RO"@,
            Locale::nb_NO => "nb-NO"@,
            Locale::sk_SK => "sk-SK"@,
            Locale::tr_TR => "tr-TR"@,
            Locale::ru_RU => "-ES"@,
        }
    }

    /// The wire form of this locale.
    pub fn as_str(&self) -> (r: &str)
        ensures
            r@ == self.spec_str(),
    {
        match self {
            Locale::en_US => "en-US",
            Locale::pt_BR => "pt-BR",
            Locale::es_ES => "es-ES",
            Locale::ca_ES => "ca-ES",
            Locale::de_DE => "de-DE",
            Locale::it_IT => "it-IT",
            Locale::fr_FR => "fr-FR",
            Locale::sv_SE => "sv-SE",
            Locale::id_ID => "id-ID",
            Locale::pl_PL => "pl-PL",
            Locale::ja_JP => "ja-JP",
            Locale::zh_TW => "zh-TW",
            Locale::zh_CN => "zh-CN",
            Locale::ko_KR => "ko-KR",
            Locale::th_TH => "th-TH",
            Locale::nl_NL => "nl-NL",
            Locale::hu_HU => "hu-HU",
            Locale::vi_VN => "vi-VN",
            Locale::cs_CZ => "cs-CZ",
            Locale::da_DK => "da-DK",
            Locale::fi_FI => "fi-FI",
            Locale::uk_UA => "uk-UA",
            Locale::el_GR => "el-GR",
            Locale::ro_RO => "ro-RO",
            Locale::nb_NO => "nb-NO",
            Locale::sk_SK => "sk-SK",
            Locale::tr_TR => "tr-TR",
            Locale::ru_RU => "-ES",
        }
    }
}

/// The least size of a photo or video.
#[derive(PartialEq, Eq, Structural, Debug, Clone, Copy)]
pub enum Size {
    Large,
    Medium,
    Small,
}

impl Size {
    /// The wire form of this filter.
    pub open spec fn spec_str(self) -> Seq<char> {
        match self {
            Size::Large => "large"@,
            Size::Medium => "medium"@,
            Size::Small => "small"@,
        }
    }

    /// The wire form of this filter.
    pub fn as_str(&self) -> (r: &str)
        ensures
            r@ == self.spec_str(),
    {
        match self {
            Size::Large => "large",
            Size::Medium => "medium",
            Size::Small => "small",
        }
    }
}

/// What URL parsing can fail with; one kind for each way a URL is
/// malformed.
#[derive(PartialEq, Eq, Structural, Debug, Clone, Copy)]
pub enum ParseError {
    EmptyHost,
    IdnaError,
    InvalidPort,
    InvalidIpv4Address,
    InvalidIpv6Address,
    InvalidDomainCharacter,
    RelativeUrlWithoutBase,
    RelativeUrlWithCannotBeABaseBase,
    SetHostOnCannotBeABaseUrl,
    Overflow,
}

/// What a Pexels call can fail with. Payloads of outside error types are
/// kept as their rendered text.
#[derive(Debug, Clone)]
pub enum PexelsError {
    RequestError(String),
    JsonParseError(String),
    EnvVarError(String),
    ApiKeyNotFound,
    ParseError(ParseError),
    HexColorCodeError(String),
    ParseMediaTypeError,
    ParseMediaSortError,
    ParseOrientationError,
    ParseSizeError,
    ParseLocaleError,
    DownloadError(String),
    IoError(String),
    ApiError(String),
    RateLimitError,
    AuthError(String),
    InvalidParameter(String),
    NotFound(String),
    AsyncError,
    Unknown(String),
}

/// When two errors compare equal: only request, JSON-parse, missing-key,
/// URL-parse and hex-color errors compare by their content; every other
/// pairing compares unequal.
pub open spec fn spec_pexels_error_eq(a: PexelsError, b: PexelsError) -> bool {
    match (a, b) {
        (PexelsError::RequestError(x), PexelsError::RequestError(y)) => x@ == y@,
        (PexelsError::JsonParseError(x), PexelsError::JsonParseError(y)) => x@ == y@,
        (PexelsError::ApiKeyNotFound, PexelsError::ApiKeyNotFound) => true,
        (PexelsError::ParseError(x), PexelsError::ParseError(y)) => x == y,
        (PexelsError::HexColorCodeError(x), PexelsError::HexColorCodeError(y)) => x@ == y@,
        _ => false,
    }
}

impl PartialEq for PexelsError {
    fn eq(&self, other: &Self) -> (r: bool) {
        match (self, other) {
            (PexelsError::RequestError(x), PexelsError::RequestError(y)) => string_eq_str(
                x,
                y.as_str(),
            ),
            (PexelsError::JsonParseError(x), PexelsError::JsonParseError(y)) => string_eq_str(
                x,
                y.as_str(),
            ),
            (PexelsError::ApiKeyNotFound, PexelsError::ApiKeyNotFound) => true,
            (PexelsError::ParseError(x), PexelsError::ParseError(y)) => *x == *y,
            (PexelsError::HexColorCodeError(x), PexelsError::HexColorCodeError(y)) => string_eq_str(
                x,
                y.as_str(),
            ),
            _ => false,
        }
    }
}

impl vstd::std_specs::cmp::PartialEqSpecImpl for PexelsError {
    open spec fn obeys_eq_spec() -> bool {
        true
    }

    open spec fn eq_spec(&self, other: &PexelsError) -> bool {
        spec_pexels_error_eq(*self, *other)
    }
}

/// What builders hand back: a request URL, or the error met while
/// assembling it.
pub type BuilderResult = Result<String, PexelsError>;

impl core::str::FromStr for Orientation {
    type Err = PexelsError;

    fn from_str(s: &str) -> Result<Self, Self::Err> {
        let low = lowercase(s);
        if string_eq_str(&low, "landscape") {
            Ok(Orientation::Landscape)
        } else if string_eq_str(&low, "portrait") {
            Ok(Orientation::Portrait)
        } else if string_eq_str(&low, "square") {
            Ok(Orientation::Square)
        } else {
            Err(PexelsError::ParseMediaSortError)
        }
    }
}

impl core::str::FromStr for MediaSort {
    type Err = PexelsError;

    fn from_str(s: &str) -> Result<Self, Self::Err> {
        let low = lowercase(s);
        if string_eq_str(&low, "asc") {
            Ok(MediaSort::Asc)
        } else if string_eq_str(&low, "desc") {
            Ok(MediaSort::Desc)
        } else {
            Err(PexelsError::ParseMediaSortError)
        }
    }
}

impl core::str::FromStr for MediaType {
    type Err = PexelsError;

    fn from_str(s: &str) -> Result<Self, Self::Err> {
        let low = lowercase(s);
        if string_eq_str(&low, "photo") {
            Ok(MediaType::Photo)
        } else if string_eq_str(&low, "video") {
            Ok(MediaType::Video)
        } else if string_eq_str(&low, "") {
            Ok(MediaType::Empty)
        } else {
            Err(PexelsError::ParseMediaTypeError)
        }
    }
}

impl core::str::FromStr for Size {
    type Err = PexelsError;

    fn from_str(s: &str) -> Result<Self, Self::Err> {
        let low = lowercase(s);
        if string_eq_str(&low, "large") {
            Ok(Size::Large)
        } else if string_eq_str(&low, "medium") {
            Ok(Size::Medium)
        } else if string_eq_str(&low, "small") {
            Ok(Size::Small)
        } else {
            Err(PexelsError::ParseSizeError)
        }
    }
}

impl core::str::FromStr for Locale {
    type Err = PexelsError;

    fn from_str(s: &str) -> Result<Self, Self::Err> {
        let low = lowercase(s);
        if string_eq_str(&low, "en-us") {
            Ok(Locale::en_US)
        } else if string_eq_str(&low, "pt-br") {
            Ok(Locale::pt_BR)
        } else if string_eq_str(&low, "es-es") {
            Ok(Locale::es_ES)
        } else if string_eq_str(&low, "ca-es") {
            Ok(Locale::ca_ES)
        } else if string_eq_str(&low, "de-de") {
            Ok(Locale::de_DE)
        } else if string_eq_str(&low, "it-it") {
            Ok(Locale::it_IT)
        } else if string_eq_str(&low, "fr-fr") {
            Ok(Locale::fr_FR)
        } else if string_eq_str(&low, "sv-se") {
            Ok(Locale::sv_SE)
        } else if string_eq_str(&low, "id-id") {
            Ok(Locale::id_ID)
        } else if string_eq_str(&low, "pl-pl") {
            Ok(Locale::pl_PL)
        } else if string_eq_str(&low, "ja-jp") {
            Ok(Locale::ja_JP)
        } else if string_eq_str(&low, "zh-tw") {
            Ok(Locale::zh_TW)
        } else if string_eq_str(&low, "zh-cn") {
            Ok(Locale::zh_CN)
        } else if string_eq_str(&low, "ko-kr") {
            Ok(Locale::ko_KR)
        } else if string_eq_str(&low, "th-th") {
            Ok(Locale::th_TH)
        } else if string_eq_str(&low, "nl-nl") {
            Ok(Locale::nl_NL)
        } else if string_eq_str(&low, "hu-hu") {
            Ok(Locale::hu_HU)
        } else if string_eq_str(&low, "vi-vn") {
            Ok(Locale::vi_VN)
        } else if string_eq_str(&low, "cs-cz") {
            Ok(Locale::cs_CZ)
        } else if string_eq_str(&low, "da-dk") {
            Ok(Locale::da_DK)
        } else if string_eq_str(&low, "fi-fi") {
            Ok(Locale::fi_FI)
        } else if string_eq_str(&low, "uk-ua") {
            Ok(Locale::uk_UA)
        } else if string_eq_str(&low, "el-gr") {
            Ok(Locale::el_GR)
        } else if string_eq_str(&low, "ro-ro") {
            Ok(Locale::ro_RO)
        } else if string_eq_str(&low, "nb-no") {
            Ok(Locale::nb_NO)
        } else if string_eq_str(&low, "sk-sk") {
            Ok(Locale::sk_SK)
        } else if string_eq_str(&low, "tr-tr") {
            Ok(Locale::tr_TR)
        } else if string_eq_str(&low, "ru-ru") {
            Ok(Locale::ru_RU)
        } else {
            Err(PexelsError::ParseLocaleError)
        }
    }
}

} // verus!
