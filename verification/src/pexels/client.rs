//! The Pexels clients: request URLs and response decoding rules; the
//! requests themselves are issued by the embedding program.

use crate::http::{new_http_client, new_http_client_with};
use crate::pexels::search::{spec_search_query_params, PaginationParams, SearchParams,
    VideoSearchParams};
use crate::pexels::types::PexelsError;
use crate::text::{spec_decimal, u32_to_string, u64_to_string};
use crate::urlenc::{build_url, pairs_view, push_pair, spec_url_with_pairs, with_opt};
use vstd::prelude::*;

verus! {

/// The URI-builder client: one key, one HTTP handle.
pub struct Pexels {
    pub client: reqwest::Client,
    pub api_key: String,
}

impl Pexels {
    /// A client for the given API key.
    pub fn new(api_key: String) -> (r: Pexels)
        ensures
            r.api_key == api_key,
    {
        Pexels { client: new_http_client(), api_key }
    }
}

/// The endpoint client: the key, the HTTP handle, and a configurable base
/// URL.
pub struct PexelsClient {
    pub api_key: String,
    pub client: reqwest::Client,
    pub base_url: String,
}

/// The name/value pairs of bare pagination.
pub open spec fn spec_pagination_pairs(p: PaginationParams) -> Seq<(Seq<char>, Seq<char>)> {
    with_opt(
        with_opt(Seq::<(Seq<char>, Seq<char>)>::empty(), "page"@, match p.page {
            Some(n) => Some(spec_decimal(n as int)),
            None => None,
        }),
        "per_page"@,
        match p.per_page {
            Some(n) => Some(spec_decimal(n as int)),
            None => None,
        },
    )
}

/// Appends the optional pagination as pairs.
fn push_pagination(pairs: &mut Vec<(String, String)>, params: &PaginationParams)
    ensures
        pairs_view(final(pairs)@) == pairs_view(old(pairs)@) + spec_pagination_pairs(*params),
{
    let ghost start = pairs_view(pairs@);
    let ghost mut g: Seq<(Seq<char>, Seq<char>)> = pairs_view(pairs@);
    if let Some(v) = params.page {
        push_pair(pairs, "page", u32_to_string(v));
    }
    proof {
        g = with_opt(g, "page"@, match params.page {
            Some(n) => Some(spec_decimal(n as int)),
            None => None,
        });
        assert(pairs_view(pairs@) == g);
    }
    if let Some(v) = params.per_page {
        push_pair(pairs, "per_page", u32_to_string(v));
    }
    proof {
        g = with_opt(g, "per_page"@, match params.per_page {
            Some(n) => Some(spec_decimal(n as int)),
            None => None,
        });
        assert(pairs_view(pairs@) == g);
        assert(pairs_view(pairs@) =~= start + spec_pagination_pairs(*params));
    }
}

impl PexelsClient {
    /// A client with the default timeout and pool size.
    pub fn new(api_key: &str) -> (r: PexelsClient)
        ensures
            r.api_key@ == api_key@,
            r.base_url@ == "https://api.pexels.com/v1"@,
    {
        PexelsClient {
            api_key: api_key.to_owned(),
            client: new_http_client_with(30, 10),
            base_url: "https://api.pexels.com/v1".to_owned(),
        }
    }

    /// A client with the given timeout and pool size.
    pub fn with_config(api_key: &str, timeout: u64, max_idle_connections: usize) -> (r:
        PexelsClient)
        ensures
            r.api_key@ == api_key@,
            r.base_url@ == "https://api.pexels.com/v1"@,
    {
        PexelsClient {
            api_key: api_key.to_owned(),
            client: new_http_client_with(timeout, max_idle_connections),
            base_url: "https://api.pexels.com/v1".to_owned(),
        }
    }

    /// Replaces the base URL.
    pub fn with_base_url(self, base_url: &str) -> (r: PexelsClient)
        ensures
            r.base_url@ == base_url@,
            r.api_key == self.api_key,
    {
        PexelsClient { base_url: base_url.to_owned(), ..self }
    }

    /// The URL of a photo search: the query, then the present settings.
    pub fn search_photos_url(&self, query: &str, params: &SearchParams) -> (r: String)
        ensures
            r@ == spec_url_with_pairs(
                self.base_url@ + "/search"@,
                seq![("query"@, query@)] + spec_search_query_params(*params),
            ),
    {
        let mut base: String = self.base_url.clone();
        base.append("/search");
        let mut pairs: Vec<(String, String)> = Vec::new();
        push_pair(&mut pairs, "query", query.to_owned());
        proof {
            assert(pairs_view(Seq::<(String, String)>::empty())
                =~= Seq::<(Seq<char>, Seq<char>)>::empty());
        }
        let mut more = params.to_query_params();
        let ghost more_view = pairs_view(more@);
        pairs.append(&mut more);
        proof {
            assert(pairs_view(pairs@) =~= seq![("query"@, query@)] + spec_search_query_params(
                *params,
            ));
        }
        build_url(base.as_str(), &pairs)
    }

    /// The URL of a curated-photos request.
    pub fn curated_photos_url(&self, params: &PaginationParams) -> (r: String)
        ensures
            r@ == spec_url_with_pairs(
                self.base_url@ + "/curated"@,
                spec_pagination_pairs(*params),
            ),
    {
        let mut base: String = self.base_url.clone();
        base.append("/curated");
        let mut pairs: Vec<(String, String)> = Vec::new();
        proof {
            assert(pairs_view(pairs@) =~= Seq::<(Seq<char>, Seq<char>)>::empty());
        }
        push_pagination(&mut pairs, params);
        proof {
            assert(pairs_view(pairs@) =~= spec_pagination_pairs(*params));
        }
        build_url(base.as_str(), &pairs)
    }

    /// The URL that fetches one photo by its id.
    pub fn get_photo_url(&self, id: u64) -> (r: String)
        ensures
            r@ == self.base_url@ + "/photos/"@ + spec_decimal(id as int),
    {
        let mut out: String = self.base_url.clone();
        out.append("/photos/");
        let digits = u64_to_string(id);
        out.append(digits.as_str());
        out
    }

    /// The name/value pairs of a video search: the query, then each
    /// present setting.
    pub open spec fn spec_video_params_pairs(query: Seq<char>, p: VideoSearchParams) -> Seq<
        (Seq<char>, Seq<char>),
    > {
        let s0 = seq![("query"@, query)];
        let s1 = with_opt(s0, "page"@, match p.page {
            Some(n) => Some(spec_decimal(n as int)),
            None => None,
        });
        let s2 = with_opt(s1, "per_page"@, match p.per_page {
            Some(n) => Some(spec_decimal(n as int)),
            None => None,
        });
        let s3 = with_opt(s2, "orientation"@, match p.orientation {
            Some(o) => Some(o@),
            None => None,
        });
        let s4 = with_opt(s3, "size"@, match p.size {
            Some(z) => Some(z@),
            None => None,
        });
        with_opt(s4, "locale"@, match p.locale {
            Some(l) => Some(l@),
            None => None,
        })
    }

    /// The URL of a video search.
    pub fn search_videos_url(&self, query: &str, params: &VideoSearchParams) -> (r: String)
        ensures
            r@ == spec_url_with_pairs(
                self.base_url@ + "/videos/search"@,
                PexelsClient::spec_video_params_pairs(query@, *params),
            ),
    {
        let mut base: String = self.base_url.clone();
        base.append("/videos/search");
        let mut pairs: Vec<(String, String)> = Vec::new();
        push_pair(&mut pairs, "query", query.to_owned());
        let ghost mut g: Seq<(Seq<char>, Seq<char>)> = seq![("query"@, query@)];
        proof {
            assert(pairs_view(Seq::<(String, String)>::empty())
                =~= Seq::<(Seq<char>, Seq<char>)>::empty());
            assert(pairs_view(pairs@) == g);
        }
        if let Some(v) = params.page {
            push_pair(&mut pairs, "page", u32_to_string(v));
        }
        proof {
            g = with_opt(g, "page"@, match params.page {
                Some(n) => Some(spec_decimal(n as int)),
                None => None,
            });
            assert(pairs_view(pairs@) == g);
        }
        if let Some(v) = params.per_page {
            push_pair(&mut pairs, "per_page", u32_to_string(v));
        }
        proof {
            g = with_opt(g, "per_page"@, match params.per_page {
                Some(n) => Some(spec_decimal(n as int)),
                None => None,
            });
            assert(pairs_view(pairs@) == g);
        }
        if let Some(o) = &params.orientation {
            push_pair(&mut pairs, "orientation", o.clone());
        }
        proof {
            g = with_opt(g, "orientation"@, match &params.orientation {
                Some(o) => Some(o@),
                None => None,
            });
            assert(pairs_view(pairs@) == g);
        }
        if let Some(z) = &params.size {
            push_pair(&mut pairs, "size", z.clone());
        }
        proof {
            g = with_opt(g, "size"@, match &params.size {
                Some(z) => Some(z@),
                None => None,
            });
            assert(pairs_view(pairs@) == g);
        }
        if let Some(l) = &params.locale {
            push_pair(&mut pairs, "locale", l.clone());
        }
        proof {
            g = with_opt(g, "locale"@, match &params.locale {
                Some(l) => Some(l@),
                None => None,
            });
            assert(pairs_view(pairs@) == g);
            assert(g == PexelsClient::spec_video_params_pairs(query@, *params));
        }
        build_url(base.as_str(), &pairs)
    }

    /// The URL of a popular-videos request.
    pub fn popular_videos_url(&self, params: &PaginationParams) -> (r: String)
        ensures
            r@ == spec_url_with_pairs(
                self.base_url@ + "/videos/popular"@,
                spec_pagination_pairs(*params),
            ),
    {
        let mut base: String = self.base_url.clone();
        base.append("/videos/popular");
        let mut pairs: Vec<(String, String)> = Vec::new();
        proof {
            assert(pairs_view(pairs@) =~= Seq::<(Seq<char>, Seq<char>)>::empty());
        }
        push_pagination(&mut pairs, params);
        proof {
            assert(pairs_view(pairs@) =~= spec_pagination_pairs(*params));
        }
        build_url(base.as_str(), &pairs)
    }

    /// The URL that fetches one video by its id.
    pub fn get_video_url(&self, id: u64) -> (r: String)
        ensures
            r@ == self.base_url@ + "/videos/videos/"@ + spec_decimal(id as int),
    {
        let mut out: String = self.base_url.clone();
        out.append("/videos/videos/");
        let digits = u64_to_string(id);
        out.append(digits.as_str());
        out
    }

    /// The URL of a collections listing.
    pub fn get_collections_url(&self, params: &PaginationParams) -> (r: String)
        ensures
            r@ == spec_url_with_pairs(
                self.base_url@ + "/collections"@,
                spec_pagination_pairs(*params),
            ),
    {
        let mut base: String = self.base_url.clone();
        base.append("/collections");
        let mut pairs: Vec<(String, String)> = Vec::new();
        proof {
            assert(pairs_view(pairs@) =~= Seq::<(Seq<char>, Seq<char>)>::empty());
        }
        push_pagination(&mut pairs, params);
        proof {
            assert(pairs_view(pairs@) =~= spec_pagination_pairs(*params));
        }
        build_url(base.as_str(), &pairs)
    }

    /// The URL of a collection's media.
    pub fn get_collection_media_url(&self, id: &str, params: &PaginationParams) -> (r: String)
        ensures
            r@ == spec_url_with_pairs(
                self.base_url@ + "/collections/"@ + id@,
                spec_pagination_pairs(*params),
            ),
    {
        let mut base: String = self.base_url.clone();
        base.append("/collections/");
        base.append(id);
        let mut pairs: Vec<(String, String)> = Vec::new();
        proof {
            assert(pairs_view(pairs@) =~= Seq::<(Seq<char>, Seq<char>)>::empty());
        }
        push_pagination(&mut pairs, params);
        proof {
            assert(pairs_view(pairs@) =~= spec_pagination_pairs(*params));
        }
        build_url(base.as_str(), &pairs)
    }
}

/// How a failed response decodes: an unauthorized answer names the key, a
/// rate limit maps to its own kind, anything else carries the action and
/// the status.
pub open spec fn request_error_contract(status: u16, action: Seq<char>, r: PexelsError) -> bool {
    if status == 401 {
        r matches PexelsError::AuthError(m) && m@ == "Invalid API key"@
    } else if status == 429 {
        r == PexelsError::RateLimitError
    } else {
        r matches PexelsError::ApiError(m) && m@ == action + " failed with status: "@
            + spec_decimal(status as int)
    }
}

/// Decodes a non-success, non-missing response into the error it stands
/// for; `action` names the request for the message.
pub fn request_error(status: u16, action: &str) -> (r: PexelsError)
    requires
        !(200 <= status < 300),
    ensures
        request_error_contract(status, action@, r),
{
    if status == 401 {
        return PexelsError::AuthError("Invalid API key".to_owned());
    }
    if status == 429 {
        return PexelsError::RateLimitError;
    }
    let mut m: String = action.to_owned();
    m.append(" failed with status: ");
    let digits = u64_to_string(status as u64);
    m.append(digits.as_str());
    PexelsError::ApiError(m)
}

/// The error for a resource the API does not know: the kind and the id,
/// named in the message.
pub fn not_found_error(kind: &str, id: &str) -> (r: PexelsError)
    ensures
        r matches PexelsError::NotFound(m) && m@ == kind@ + " with ID "@ + id@ + " not found"@,
{
    let mut m: String = kind.to_owned();
    m.append(" with ID ");
    m.append(id);
    m.append(" not found");
    PexelsError::NotFound(m)
}

} // verus!
