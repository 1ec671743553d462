//! The Pixabay client: request URLs are assembled and validated here; the
//! requests themselves are issued by the embedding program.

use crate::http::new_http_client;
use crate::pixabay::error::PixabayError;
use crate::pixabay::models::{Category, Image, ImageResponse, ImageType, Language, Order,
    Orientation, Video, VideoResponse, VideoType};
use crate::text::{byte_len, spec_decimal, u32_to_string, u64_to_string, utf8_len};
use crate::urlenc::{build_url, pairs_view, push_pair, spec_url_with_pairs, with_opt, with_pair};
use vstd::prelude::*;

verus! {

/// The Pixabay client: the key that authenticates every request, and the
/// HTTP handle the embedding program issues them with.
#[derive(Debug, Clone)]
pub struct Pixabay {
    pub api_key: String,
    pub client: reqwest::Client,
}

/// `v` forced into `lo ..= hi`.
pub open spec fn spec_clamp(v: int, lo: int, hi: int) -> int {
    if v < lo {
        lo
    } else if v > hi {
        hi
    } else {
        v
    }
}

/// The page size actually requested: the given one, defaulting to twenty,
/// forced into the API's accepted range of 3 to 200.
pub open spec fn spec_per_page(per_page: Option<u32>) -> int {
    spec_clamp(
        match per_page {
            Some(p) => p as int,
            None => 20,
        },
        3,
        200,
    )
}

/// The page actually requested: the given one, defaulting to the first.
pub open spec fn spec_page(page: Option<u32>) -> int {
    match page {
        Some(p) => p as int,
        None => 1,
    }
}

fn clamp_per_page(per_page: Option<u32>) -> (r: u32)
    ensures
        r == spec_per_page(per_page),
{
    let v: u32 = match per_page {
        Some(p) => p,
        None => 20,
    };
    if v < 3 {
        3
    } else if v > 200 {
        200
    } else {
        v
    }
}

impl Pixabay {
    /// A client for the given API key.
    pub fn new(api_key: String) -> (r: Pixabay)
        ensures
            r.api_key == api_key,
    {
        Pixabay { api_key, client: new_http_client() }
    }

    /// The URL of a simple image search: the key, the query, and the page
    /// geometry with the size clamped into the accepted range.
    pub fn search_images_url(&self, query: &str, per_page: Option<u32>, page: Option<u32>) -> (r:
        String)
        ensures
            r@ == spec_url_with_pairs(
                "https://pixabay.com/api/"@,
                seq![
                    ("key"@, self.api_key@),
                    ("q"@, query@),
                    ("per_page"@, spec_decimal(spec_per_page(per_page))),
                    ("page"@, spec_decimal(spec_page(page))),
                ],
            ),
    {
        let pp = clamp_per_page(per_page);
        let pg: u32 = match page {
            Some(p) => p,
            None => 1,
        };
        let mut pairs: Vec<(String, String)> = Vec::new();
        push_pair(&mut pairs, "key", self.api_key.clone());
        push_pair(&mut pairs, "q", query.to_owned());
        push_pair(&mut pairs, "per_page", u32_to_string(pp));
        push_pair(&mut pairs, "page", u32_to_string(pg));
        proof {
            assert(pairs_view(pairs@) =~= seq![
                ("key"@, self.api_key@),
                ("q"@, query@),
                ("per_page"@, spec_decimal(spec_per_page(per_page))),
                ("page"@, spec_decimal(spec_page(page))),
            ]);
        }
        build_url("https://pixabay.com/api/", &pairs)
    }

    /// The URL of a simple video search, shaped like the image one on the
    /// video endpoint.
    pub fn search_videos_url(&self, query: &str, per_page: Option<u32>, page: Option<u32>) -> (r:
        String)
        ensures
            r@ == spec_url_with_pairs(
                "https://pixabay.com/api/videos/"@,
                seq![
                    ("key"@, self.api_key@),
                    ("q"@, query@),
                    ("per_page"@, spec_decimal(spec_per_page(per_page))),
                    ("page"@, spec_decimal(spec_page(page))),
                ],
            ),
    {
        let pp = clamp_per_page(per_page);
        let pg: u32 = match page {
            Some(p) => p,
            None => 1,
        };
        let mut pairs: Vec<(String, String)> = Vec::new();
        push_pair(&mut pairs, "key", self.api_key.clone());
        push_pair(&mut pairs, "q", query.to_owned());
        push_pair(&mut pairs, "per_page", u32_to_string(pp));
        push_pair(&mut pairs, "page", u32_to_string(pg));
        proof {
            assert(pairs_view(pairs@) =~= seq![
                ("key"@, self.api_key@),
                ("q"@, query@),
                ("per_page"@, spec_decimal(spec_per_page(per_page))),
                ("page"@, spec_decimal(spec_page(page))),
            ]);
        }
        build_url("https://pixabay.com/api/videos/", &pairs)
    }

    /// The URL that fetches one image by its id.
    pub fn image_by_id_url(&self, id: u64) -> (r: String)
        ensures
            r@ == spec_url_with_pairs(
                "https://pixabay.com/api/"@,
                seq![("key"@, self.api_key@), ("id"@, spec_decimal(id as int))],
            ),
    {
        let mut pairs: Vec<(String, String)> = Vec::new();
        push_pair(&mut pairs, "key", self.api_key.clone());
        push_pair(&mut pairs, "id", u64_to_string(id));
        proof {
            assert(pairs_view(pairs@) =~= seq![
                ("key"@, self.api_key@),
                ("id"@, spec_decimal(id as int)),
            ]);
        }
        build_url("https://pixabay.com/api/", &pairs)
    }

    /// The URL that fetches one video by its id.
    pub fn video_by_id_url(&self, id: u64) -> (r: String)
        ensures
            r@ == spec_url_with_pairs(
                "https://pixabay.com/api/videos/"@,
                seq![("key"@, self.api_key@), ("id"@, spec_decimal(id as int))],
            ),
    {
        let mut pairs: Vec<(String, String)> = Vec::new();
        push_pair(&mut pairs, "key", self.api_key.clone());
        push_pair(&mut pairs, "id", u64_to_string(id));
        proof {
            assert(pairs_view(pairs@) =~= seq![
                ("key"@, self.api_key@),
                ("id"@, spec_decimal(id as int)),
            ]);
        }
        build_url("https://pixabay.com/api/videos/", &pairs)
    }
}

/// How a failed response decodes: rate limiting and key errors map to
/// their own kinds, a bad request carries the body, anything else carries
/// the status and the body.
pub open spec fn response_error_contract(status: u16, body: Seq<char>, r: PixabayError) -> bool {
    if status == 429 {
        r == PixabayError::RateLimitExceeded
    } else if status == 400 {
        r matches PixabayError::ApiError(m) && m@ == "Bad request: "@ + body
    } else if status == 401 || status == 403 {
        r == PixabayError::InvalidApiKey
    } else {
        r matches PixabayError::ApiError(m) && m@ == "HTTP "@ + spec_decimal(status as int) + ": "@
            + body
    }
}

/// Decodes a non-success response into the error it stands for.
pub fn response_error(status: u16, body: String) -> (r: PixabayError)
    requires
        !(200 <= status < 300),
    ensures
        response_error_contract(status, body@, r),
{
    if status == 429 {
        PixabayError::RateLimitExceeded
    } else if status == 400 {
        let mut m: String = "Bad request: ".to_owned();
        m.append(body.as_str());
        PixabayError::ApiError(m)
    } else if status == 401 || status == 403 {
        PixabayError::InvalidApiKey
    } else {
        let mut m: String = "HTTP ".to_owned();
        let digits = u64_to_string(status as u64);
        m.append(digits.as_str());
        m.append(": ");
        m.append(body.as_str());
        PixabayError::ApiError(m)
    }
}

/// Picks the one image of a by-id answer: the first hit, or an error naming
/// the id when the answer holds none.
pub fn first_image(response: ImageResponse, id: u64) -> (r: Result<Image, PixabayError>)
    ensures
        response.hits@.len() > 0 ==> (r matches Ok(img) && img == response.hits@[0]),
        response.hits@.len() == 0 ==> (r matches Err(PixabayError::ApiError(m)) && m@
            == "no image found for id "@ + spec_decimal(id as int)),
{
    let mut hits = response.hits;
    if hits.len() == 0 {
        let mut m: String = "no image found for id ".to_owned();
        let digits = u64_to_string(id);
        m.append(digits.as_str());
        Err(PixabayError::ApiError(m))
    } else {
        Ok(hits.remove(0))
    }
}

/// Picks the one video of a by-id answer: the first hit, or an error naming
/// the id when the answer holds none.
pub fn first_video(response: VideoResponse, id: u64) -> (r: Result<Video, PixabayError>)
    ensures
        response.hits@.len() > 0 ==> (r matches Ok(vid) && vid == response.hits@[0]),
        response.hits@.len() == 0 ==> (r matches Err(PixabayError::ApiError(m)) && m@
            == "no video found for id "@ + spec_decimal(id as int)),
{
    let mut hits = response.hits;
    if hits.len() == 0 {
        let mut m: String = "no video found for id ".to_owned();
        let digits = u64_to_string(id);
        m.append(digits.as_str());
        Err(PixabayError::ApiError(m))
    } else {
        Ok(hits.remove(0))
    }
}

/// Advanced image-search filters, assembled with the builder methods.
#[derive(Debug, Clone, Default)]
pub struct SearchImageParams {
    pub query: Option<String>,
    pub per_page: Option<u32>,
    pub page: Option<u32>,
    pub image_type: Option<ImageType>,
    pub orientation: Option<Orientation>,
    pub category: Option<Category>,
    pub min_width: Option<u32>,
    pub min_height: Option<u32>,
    pub colors: Option<String>,
    pub editors_choice: Option<bool>,
    pub safesearch: Option<bool>,
    pub order: Option<Order>,
    pub lang: Option<Language>,
}

impl SearchImageParams {
    /// Empty filters: every setting absent.
    pub fn new() -> (r: SearchImageParams)
        ensures
            r.query is None,
            r.per_page is None,
            r.page is None,
            r.image_type is None,
            r.orientation is None,
            r.category is None,
            r.min_width is None,
            r.min_height is None,
            r.colors is None,
            r.editors_choice is None,
            r.safesearch is None,
            r.order is None,
            r.lang is None,
    {
        SearchImageParams {
            query: None,
            per_page: None,
            page: None,
            image_type: None,
            orientation: None,
            category: None,
            min_width: None,
            min_height: None,
            colors: None,
            editors_choice: None,
            safesearch: None,
            order: None,
            lang: None,
        }
    }

    /// Sets the query.
    pub fn query(self, query: &str) -> (r: SearchImageParams)
        ensures
            r == (SearchImageParams { query: r.query, ..self }),
            r.query matches Some(q) && q@ == query@,
    {
        SearchImageParams { query: Some(query.to_owned()), ..self }
    }

    /// Sets the page size.
    pub fn per_page(self, per_page: u32) -> (r: SearchImageParams)
        ensures
            r == (SearchImageParams { per_page: Some(per_page), ..self }),
    {
        SearchImageParams { per_page: Some(per_page), ..self }
    }

    /// Sets the page number.
    pub fn page(self, page: u32) -> (r: SearchImageParams)
        ensures
            r == (SearchImageParams { page: Some(page), ..self }),
    {
        SearchImageParams { page: Some(page), ..self }
    }

    /// Sets the image-type filter.
    pub fn image_type(self, image_type: ImageType) -> (r: SearchImageParams)
        ensures
            r == (SearchImageParams { image_type: Some(image_type), ..self }),
    {
        SearchImageParams { image_type: Some(image_type), ..self }
    }

    /// Sets the orientation filter.
    pub fn orientation(self, orientation: Orientation) -> (r: SearchImageParams)
        ensures
            r == (SearchImageParams { orientation: Some(orientation), ..self }),
    {
        SearchImageParams { orientation: Some(orientation), ..self }
    }

    /// Sets the category filter.
    pub fn category(self, category: Category) -> (r: SearchImageParams)
        ensures
            r == (SearchImageParams { category: Some(category), ..self }),
    {
        SearchImageParams { category: Some(category), ..self }
    }

    /// Sets the least acceptable width.
    pub fn min_width(self, min_width: u32) -> (r: SearchImageParams)
        ensures
            r == (SearchImageParams { min_width: Some(min_width), ..self }),
    {
        SearchImageParams { min_width: Some(min_width), ..self }
    }

    /// Sets the least acceptable height.
    pub fn min_height(self, min_height: u32) -> (r: SearchImageParams)
        ensures
            r == (SearchImageParams { min_height: Some(min_height), ..self }),
    {
        SearchImageParams { min_height: Some(min_height), ..self }
    }

    /// Sets the color filter.
    pub fn colors(self, colors: &str) -> (r: SearchImageParams)
        ensures
            r == (SearchImageParams { colors: r.colors, ..self }),
            r.colors matches Some(c) && c@ == colors@,
    {
        SearchImageParams { colors: Some(colors.to_owned()), ..self }
    }

    /// Restricts results to editors' picks.
    pub fn editors_choice(self, editors_choice: bool) -> (r: SearchImageParams)
        ensures
            r == (SearchImageParams { editors_choice: Some(editors_choice), ..self }),
    {
        SearchImageParams { editors_choice: Some(editors_choice), ..self }
    }

    /// Restricts results to safe content.
    pub fn safesearch(self, safesearch: bool) -> (r: SearchImageParams)
        ensures
            r == (SearchImageParams { safesearch: Some(safesearch), ..self }),
    {
        SearchImageParams { safesearch: Some(safesearch), ..self }
    }

    /// Sets the result order.
    pub fn order(self, order: Order) -> (r: SearchImageParams)
        ensures
            r == (SearchImageParams { order: Some(order), ..self }),
    {
        SearchImageParams { order: Some(order), ..self }
    }

    /// Sets the search language.
    pub fn lang(self, lang: Language) -> (r: SearchImageParams)
        ensures
            r == (SearchImageParams { lang: Some(lang), ..self }),
    {
        SearchImageParams { lang: Some(lang), ..self }
    }
}

/// Advanced video-search filters, assembled with the builder methods.
#[derive(Debug, Clone, Default)]
pub struct SearchVideoParams {
    pub query: Option<String>,
    pub per_page: Option<u32>,
    pub page: Option<u32>,
    pub video_type: Option<VideoType>,
    pub category: Option<Category>,
    pub min_width: Option<u32>,
    pub min_height: Option<u32>,
    pub editors_choice: Option<bool>,
    pub safesearch: Option<bool>,
    pub order: Option<Order>,
    pub lang: Option<Language>,
}

impl SearchVideoParams {
    /// Empty filters: every setting absent.
    pub fn new() -> (r: SearchVideoParams)
        ensures
            r.query is None,
            r.per_page is None,
            r.page is None,
            r.video_type is None,
            r.category is None,
            r.min_width is None,
            r.min_height is None,
            r.editors_choice is None,
            r.safesearch is None,
            r.order is None,
            r.lang is None,
    {
        SearchVideoParams {
            query: None,
            per_page: None,
            page: None,
            video_type: None,
            category: None,
            min_width: None,
            min_height: None,
            editors_choice: None,
            safesearch: None,
            order: None,
            lang: None,
        }
    }

    /// Sets the query.
    pub fn query(self, query: &str) -> (r: SearchVideoParams)
        ensures
            r == (SearchVideoParams { query: r.query, ..self }),
            r.query matches Some(q) && q@ == query@,
    {
        SearchVideoParams { query: Some(query.to_owned()), ..self }
    }

    /// Sets the page size.
    pub fn per_page(self, per_page: u32) -> (r: SearchVideoParams)
        ensures
            r == (SearchVideoParams { per_page: Some(per_page), ..self }),
    {
        SearchVideoParams { per_page: Some(per_page), ..self }
    }

    /// Sets the page number.
    pub fn page(self, page: u32) -> (r: SearchVideoParams)
        ensures
            r == (SearchVideoParams { page: Some(page), ..self }),
    {
        SearchVideoParams { page: Some(page), ..self }
    }

    /// Sets the video-type filter.
    pub fn video_type(self, video_type: VideoType) -> (r: SearchVideoParams)
        ensures
            r == (SearchVideoParams { video_type: Some(video_type), ..self }),
    {
        SearchVideoParams { video_type: Some(video_type), ..self }
    }

    /// Sets the category filter.
    pub fn category(self, category: Category) -> (r: SearchVideoParams)
        ensures
            r == (SearchVideoParams { category: Some(category), ..self }),
    {
        SearchVideoParams { category: Some(category), ..self }
    }

    /// Sets the least acceptable width.
    pub fn min_width(self, min_width: u32) -> (r: SearchVideoParams)
        ensures
            r == (SearchVideoParams { min_width: Some(min_width), ..self }),
    {
        SearchVideoParams { min_width: Some(min_width), ..self }
    }

    /// Sets the least acceptable height.
    pub fn min_height(self, min_height: u32) -> (r: SearchVideoParams)
        ensures
            r == (SearchVideoParams { min_height: Some(min_height), ..self }),
    {
        SearchVideoParams { min_height: Some(min_height), ..self }
    }

    /// Restricts results to editors' picks.
    pub fn editors_choice(self, editors_choice: bool) -> (r: SearchVideoParams)
        ensures
            r == (SearchVideoParams { editors_choice: Some(editors_choice), ..self }),
    {
        SearchVideoParams { editors_choice: Some(editors_choice), ..self }
    }

    /// Restricts results to safe content.
    pub fn safesearch(self, safesearch: bool) -> (r: SearchVideoParams)
        ensures
            r == (SearchVideoParams { safesearch: Some(safesearch), ..self }),
    {
        SearchVideoParams { safesearch: Some(safesearch), ..self }
    }

    /// Sets the result order.
    pub fn order(self, order: Order) -> (r: SearchVideoParams)
        ensures
            r == (SearchVideoParams { order: Some(order), ..self }),
    {
        SearchVideoParams { order: Some(order), ..self }
    }

    /// Sets the search language.
    pub fn lang(self, lang: Language) -> (r: SearchVideoParams)
        ensures
            r == (SearchVideoParams { lang: Some(lang), ..self }),
    {
        SearchVideoParams { lang: Some(lang), ..self }
    }
}

/// The wire form of a boolean setting.
pub open spec fn spec_bool_str(b: bool) -> Seq<char> {
    if b {
        "true"@
    } else {
        "false"@
    }
}

fn bool_to_string(b: bool) -> (r: String)
    ensures
        r@ == spec_bool_str(b),
{
    if b {
        "true".to_owned()
    } else {
        "false".to_owned()
    }
}

/// The value of an optional string setting.
pub open spec fn opt_string_view(v: Option<String>) -> Option<Seq<char>> {
    match v {
        Some(s) => Some(s@),
        None => None,
    }
}

/// The wire form of an optional number.
pub open spec fn opt_decimal(v: Option<u32>) -> Option<Seq<char>> {
    match v {
        Some(n) => Some(spec_decimal(n as int)),
        None => None,
    }
}

/// The wire form of an optional boolean setting.
pub open spec fn opt_bool_str(v: Option<bool>) -> Option<Seq<char>> {
    match v {
        Some(b) => Some(spec_bool_str(b)),
        None => None,
    }
}

/// The first pairs of an advanced image search: the key, the query if
/// set, the clamped page geometry, and the type, orientation and category
/// filters.
pub open spec fn spec_image_head(p: SearchImageParams, api_key: Seq<char>) -> Seq<
    (Seq<char>, Seq<char>),
> {
    with_opt(
        with_opt(
            with_opt(
                with_pair(
                    with_pair(
                        with_opt(seq![("key"@, api_key)], "q"@, opt_string_view(p.query)),
                        "per_page"@,
                        spec_decimal(spec_per_page(p.per_page)),
                    ),
                    "page"@,
                    spec_decimal(spec_page(p.page)),
                ),
                "image_type"@,
                match p.image_type {
                    Some(t) => Some(t.spec_str()),
                    None => None,
                },
            ),
            "orientation"@,
            match p.orientation {
                Some(o) => Some(o.spec_str()),
                None => None,
            },
        ),
        "category"@,
        match p.category {
            Some(c) => Some(c.spec_str()),
            None => None,
        },
    )
}

/// The remaining pairs of an advanced image search: size bounds, colors,
/// the editorial and safety switches, the order, and the language.
pub open spec fn spec_image_tail(s: Seq<(Seq<char>, Seq<char>)>, p: SearchImageParams) -> Seq<
    (Seq<char>, Seq<char>),
> {
    with_opt(
        with_opt(
            with_opt(
                with_opt(
                    with_opt(
                        with_opt(s, "min_width"@, opt_decimal(p.min_width)),
                        "min_height"@,
                        opt_decimal(p.min_height),
                    ),
                    "colors"@,
                    opt_string_view(p.colors),
                ),
                "editors_choice"@,
                opt_bool_str(p.editors_choice),
            ),
            "safesearch"@,
            opt_bool_str(p.safesearch),
        ),
        "order"@,
        match p.order {
            Some(o) => Some(o.spec_str()),
            None => None,
        },
    ).add(
        match p.lang {
            Some(l) => seq![("lang"@, l.spec_str())],
            None => Seq::<(Seq<char>, Seq<char>)>::empty(),
        },
    )
}

/// The name/value pairs of an advanced image search, in the order they are
/// sent.
pub open spec fn spec_image_advanced_pairs(p: SearchImageParams, api_key: Seq<char>) -> Seq<
    (Seq<char>, Seq<char>),
> {
    spec_image_tail(spec_image_head(p, api_key), p)
}

/// The name/value pairs of an advanced video search, in the order they are
/// sent.
pub open spec fn spec_video_advanced_pairs(p: SearchVideoParams, api_key: Seq<char>) -> Seq<
    (Seq<char>, Seq<char>),
> {
    with_opt(
        with_opt(
            with_opt(
                with_opt(
                    with_opt(
                        with_opt(
                            with_opt(
                                with_pair(
                                    with_pair(
                                        with_opt(
                                            seq![("key"@, api_key)],
                                            "q"@,
                                            opt_string_view(p.query),
                                        ),
                                        "per_page"@,
                                        spec_decimal(spec_per_page(p.per_page)),
                                    ),
                                    "page"@,
                                    spec_decimal(spec_page(p.page)),
                                ),
                                "video_type"@,
                                match p.video_type {
                                    Some(t) => Some(t.spec_str()),
                                    None => None,
                                },
                            ),
                            "category"@,
                            match p.category {
                                Some(c) => Some(c.spec_str()),
                                None => None,
                            },
                        ),
                        "min_width"@,
                        opt_decimal(p.min_width),
                    ),
                    "min_height"@,
                    opt_decimal(p.min_height),
                ),
                "editors_choice"@,
                opt_bool_str(p.editors_choice),
            ),
            "safesearch"@,
            opt_bool_str(p.safesearch),
        ),
        "order"@,
        match p.order {
            Some(o) => Some(o.spec_str()),
            None => None,
        },
    ).add(
        match p.lang {
            Some(l) => seq![("lang"@, l.spec_str())],
            None => Seq::<(Seq<char>, Seq<char>)>::empty(),
        },
    )
}

/// Whether an advanced query is refused for its length: over one hundred
/// bytes.
pub open spec fn query_too_long(query: Option<String>) -> bool {
    query matches Some(q) && utf8_len(q@) > 100
}

/// Appends the trailing filters of an advanced image search.
fn push_image_tail(pairs: &mut Vec<(String, String)>, params: &SearchImageParams)
    ensures
        pairs_view(final(pairs)@) == spec_image_tail(pairs_view(old(pairs)@), *params),
{
    let ghost mut g: Seq<(Seq<char>, Seq<char>)> = pairs_view(pairs@);
    if let Some(w) = params.min_width {
        push_pair(pairs, "min_width", u32_to_string(w));
    }
    proof {
        g = with_opt(g, "min_width"@, opt_decimal(params.min_width));
        assert(pairs_view(pairs@) == g);
    }
    if let Some(h) = params.min_height {
        push_pair(pairs, "min_height", u32_to_string(h));
    }
    proof {
        g = with_opt(g, "min_height"@, opt_decimal(params.min_height));
        assert(pairs_view(pairs@) == g);
    }
    if let Some(c) = &params.colors {
        push_pair(pairs, "colors", c.clone());
    }
    proof {
        g = with_opt(g, "colors"@, opt_string_view(params.colors));
        assert(pairs_view(pairs@) == g);
    }
    if let Some(e) = params.editors_choice {
        push_pair(pairs, "editors_choice", bool_to_string(e));
    }
    proof {
        g = with_opt(g, "editors_choice"@, opt_bool_str(params.editors_choice));
        assert(pairs_view(pairs@) == g);
    }
    if let Some(s) = params.safesearch {
        push_pair(pairs, "safesearch", bool_to_string(s));
    }
    proof {
        g = with_opt(g, "safesearch"@, opt_bool_str(params.safesearch));
        assert(pairs_view(pairs@) == g);
    }
    if let Some(o) = &params.order {
        push_pair(pairs, "order", o.to_string());
    }
    proof {
        g = with_opt(g, "order"@, match params.order {
            Some(o) => Some(o.spec_str()),
            None => None,
        });
        assert(pairs_view(pairs@) == g);
    }
    if let Some(l) = &params.lang {
        push_pair(pairs, "lang", l.to_string());
    }
    proof {
        g = g.add(match params.lang {
            Some(l) => seq![("lang"@, l.spec_str())],
            None => Seq::<(Seq<char>, Seq<char>)>::empty(),
        });
        assert(pairs_view(pairs@) =~= g);
    }
}

impl Pixabay {
    /// The URL of an advanced image search, or the length error when the
    /// query exceeds one hundred bytes.
    #[verifier::rlimit(100)]
    #[verifier::spinoff_prover]
    pub fn search_images_advanced_url(&self, params: &SearchImageParams) -> (r: Result<
        String,
        PixabayError,
    >)
        ensures
            query_too_long(params.query) <==> r is Err,
            r matches Err(PixabayError::ApiError(m)) ==> m@
                == "query string must not exceed 100 characters"@,
            r matches Ok(u) ==> u@ == spec_url_with_pairs(
                "https://pixabay.com/api/"@,
                spec_image_advanced_pairs(*params, self.api_key@),
            ),
            r is Err ==> r matches Err(PixabayError::ApiError(m)),
    {
        let mut pairs: Vec<(String, String)> = Vec::new();
        push_pair(&mut pairs, "key", self.api_key.clone());
        let ghost mut g: Seq<(Seq<char>, Seq<char>)> = seq![("key"@, self.api_key@)];
        proof {
            assert(pairs_view(Seq::<(String, String)>::empty()) =~= Seq::<(Seq<char>, Seq<char>)>::empty());
            assert(pairs_view(pairs@) == g);
        }
        if let Some(q) = &params.query {
            if byte_len(q.as_str()) > 100 {
                return Err(
                    PixabayError::ApiError(
                        "query string must not exceed 100 characters".to_owned(),
                    ),
                );
            }
            push_pair(&mut pairs, "q", q.clone());
        }
        proof {
            g = with_opt(g, "q"@, opt_string_view(params.query));
            assert(pairs_view(pairs@) == g);
        }
        push_pair(&mut pairs, "per_page", u32_to_string(clamp_per_page(params.per_page)));
        let pg: u32 = match params.page {
            Some(p) => p,
            None => 1,
        };
        push_pair(&mut pairs, "page", u32_to_string(pg));
        proof {
            g = with_pair(
                with_pair(g, "per_page"@, spec_decimal(spec_per_page(params.per_page))),
                "page"@,
                spec_decimal(spec_page(params.page)),
            );
            assert(pairs_view(pairs@) == g);
        }
        if let Some(t) = &params.image_type {
            push_pair(&mut pairs, "image_type", t.to_string());
        }
        proof {
            g = with_opt(g, "image_type"@, match params.image_type {
                Some(t) => Some(t.spec_str()),
                None => None,
            });
            assert(pairs_view(pairs@) == g);
        }
        if let Some(o) = &params.orientation {
            push_pair(&mut pairs, "orientation", o.to_string());
        }
        proof {
            g = with_opt(g, "orientation"@, match params.orientation {
                Some(o) => Some(o.spec_str()),
                None => None,
            });
            assert(pairs_view(pairs@) == g);
        }
        if let Some(c) = &params.category {
            push_pair(&mut pairs, "category", c.to_string());
        }
        proof {
            g = with_opt(g, "category"@, match params.category {
                Some(c) => Some(c.spec_str()),
                None => None,
            });
            assert(pairs_view(pairs@) == g);
        }
        proof {
            assert(g == spec_image_head(*params, self.api_key@));
        }
        push_image_tail(&mut pairs, params);
        Ok(build_url("https://pixabay.com/api/", &pairs))
    }

    /// The URL of an advanced video search, or the length error when the
    /// query exceeds one hundred bytes.
    #[verifier::rlimit(100)]
    #[verifier::spinoff_prover]
    pub fn search_videos_advanced_url(&self, params: &SearchVideoParams) -> (r: Result<
        String,
        PixabayError,
    >)
        ensures
            query_too_long(params.query) <==> r is Err,
            r matches Err(PixabayError::ApiError(m)) ==> m@
                == "query string must not exceed 100 characters"@,
            r matches Ok(u) ==> u@ == spec_url_with_pairs(
                "https://pixabay.com/api/videos/"@,
                spec_video_advanced_pairs(*params, self.api_key@),
            ),
            r is Err ==> r matches Err(PixabayError::ApiError(m)),
    {
        let mut pairs: Vec<(String, String)> = Vec::new();
        push_pair(&mut pairs, "key", self.api_key.clone());
        let ghost mut g: Seq<(Seq<char>, Seq<char>)> = seq![("key"@, self.api_key@)];
        proof {
            assert(pairs_view(Seq::<(String, String)>::empty()) =~= Seq::<(Seq<char>, Seq<char>)>::empty());
            assert(pairs_view(pairs@) == g);
        }
        if let Some(q) = &params.query {
            if byte_len(q.as_str()) > 100 {
                return Err(
                    PixabayError::ApiError(
                        "query string must not exceed 100 characters".to_owned(),
                    ),
                );
            }
            push_pair(&mut pairs, "q", q.clone());
        }
        proof {
            g = with_opt(g, "q"@, opt_string_view(params.query));
            assert(pairs_view(pairs@) == g);
        }
        push_pair(&mut pairs, "per_page", u32_to_string(clamp_per_page(params.per_page)));
        let pg: u32 = match params.page {
            Some(p) => p,
            None => 1,
        };
        push_pair(&mut pairs, "page", u32_to_string(pg));
        proof {
            g = with_pair(
                with_pair(g, "per_page"@, spec_decimal(spec_per_page(params.per_page))),
                "page"@,
                spec_decimal(spec_page(params.page)),
            );
            assert(pairs_view(pairs@) == g);
        }
        if let Some(t) = &params.video_type {
            push_pair(&mut pairs, "video_type", t.to_string());
        }
        proof {
            g = with_opt(g, "video_type"@, match params.video_type {
                Some(t) => Some(t.spec_str()),
                None => None,
            });
            assert(pairs_view(pairs@) == g);
        }
        if let Some(c) = &params.category {
            push_pair(&mut pairs, "category", c.to_string());
        }
        proof {
            g = with_opt(g, "category"@, match params.category {
                Some(c) => Some(c.spec_str()),
                None => None,
            });
            assert(pairs_view(pairs@) == g);
        }
        if let Some(w) = params.min_width {
            push_pair(&mut pairs, "min_width", u32_to_string(w));
        }
        proof {
            g = with_opt(g, "min_width"@, opt_decimal(params.min_width));
            assert(pairs_view(pairs@) == g);
        }
        if let Some(h) = params.min_height {
            push_pair(&mut pairs, "min_height", u32_to_string(h));
        }
        proof {
            g = with_opt(g, "min_height"@, opt_decimal(params.min_height));
            assert(pairs_view(pairs@) == g);
        }
        if let Some(e) = params.editors_choice {
            push_pair(&mut pairs, "editors_choice", bool_to_string(e));
        }
        proof {
            g = with_opt(g, "editors_choice"@, opt_bool_str(params.editors_choice));
            assert(pairs_view(pairs@) == g);
        }
        if let Some(s) = params.safesearch {
            push_pair(&mut pairs, "safesearch", bool_to_string(s));
        }
        proof {
            g = with_opt(g, "safesearch"@, opt_bool_str(params.safesearch));
            assert(pairs_view(pairs@) == g);
        }
        if let Some(o) = &params.order {
            push_pair(&mut pairs, "order", o.to_string());
        }
        proof {
            g = with_opt(g, "order"@, match params.order {
                Some(o) => Some(o.spec_str()),
                None => None,
            });
            assert(pairs_view(pairs@) == g);
        }
        if let Some(l) = &params.lang {
            push_pair(&mut pairs, "lang", l.to_string());
        }
        proof {
            g = g.add(match params.lang {
                Some(l) => seq![("lang"@, l.spec_str())],
                None => Seq::<(Seq<char>, Seq<char>)>::empty(),
            });
            assert(pairs_view(pairs@) =~= g);
            assert(g == spec_video_advanced_pairs(*params, self.api_key@));
        }
        Ok(build_url("https://pixabay.com/api/videos/", &pairs))
    }
}

} // verus!
