//! Video endpoints: search, popular, and fetch by id.

use crate::pexels::types::{BuilderResult, Locale, Orientation, Size};
use crate::text::{spec_decimal, usize_to_string};
use crate::urlenc::{build_url, pairs_view, push_pair, spec_url_with_pairs, with_opt};
use vstd::prelude::*;

verus! {

/// A video search request.
pub struct Search<'a> {
    pub query: &'a str,
    pub page: Option<usize>,
    pub per_page: Option<usize>,
    pub orientation: Option<Orientation>,
    pub size: Option<Size>,
    pub locale: Option<Locale>,
}

/// The name/value pairs of a video search: the query, then each present
/// filter.
pub open spec fn spec_video_search_pairs(s: Search) -> Seq<(Seq<char>, Seq<char>)> {
    let s0 = seq![("query"@, s.query@)];
    let s1 = with_opt(s0, "page"@, match s.page {
        Some(n) => Some(spec_decimal(n as int)),
        None => None,
    });
    let s2 = with_opt(s1, "per_page"@, match s.per_page {
        Some(n) => Some(spec_decimal(n as int)),
        None => None,
    });
    let s3 = with_opt(s2, "orientation"@, match s.orientation {
        Some(o) => Some(o.spec_str()),
        None => None,
    });
    let s4 = with_opt(s3, "size"@, match s.size {
        Some(z) => Some(z.spec_str()),
        None => None,
    });
    with_opt(s4, "locale"@, match s.locale {
        Some(l) => Some(l.spec_str()),
        None => None,
    })
}

impl<'a> Search<'a> {
    /// A builder for a video search.
    pub fn builder() -> (r: SearchBuilder<'a>)
        ensures
            r.query@ == Seq::<char>::empty(),
            r.page is None,
            r.per_page is None,
            r.orientation is None,
            r.size is None,
            r.locale is None,
    {
        SearchBuilder::new()
    }

    /// The URL of this search; never fails.
    pub fn create_uri(&self) -> (r: BuilderResult)
        ensures
            r is Ok,
            r->Ok_0@ == spec_url_with_pairs(
                "https://api.pexels.com/videos/search"@,
                spec_video_search_pairs(*self),
            ),
    {
        let mut pairs: Vec<(String, String)> = Vec::new();
        push_pair(&mut pairs, "query", self.query.to_owned());
        let ghost mut g: Seq<(Seq<char>, Seq<char>)> = seq![("query"@, self.query@)];
        proof {
            assert(pairs_view(Seq::<(String, String)>::empty())
                =~= Seq::<(Seq<char>, Seq<char>)>::empty());
            assert(pairs_view(pairs@) == g);
        }
        if let Some(page) = self.page {
            push_pair(&mut pairs, "page", usize_to_string(page));
        }
        proof {
            g = with_opt(g, "page"@, match self.page {
                Some(n) => Some(spec_decimal(n as int)),
                None => None,
            });
            assert(pairs_view(pairs@) == g);
        }
        if let Some(per_page) = self.per_page {
            push_pair(&mut pairs, "per_page", usize_to_string(per_page));
        }
        proof {
            g = with_opt(g, "per_page"@, match self.per_page {
                Some(n) => Some(spec_decimal(n as int)),
                None => None,
            });
            assert(pairs_view(pairs@) == g);
        }
        if let Some(orientation) = &self.orientation {
            push_pair(&mut pairs, "orientation", orientation.as_str().to_owned());
        }
        proof {
            g = with_opt(g, "orientation"@, match self.orientation {
                Some(o) => Some(o.spec_str()),
                None => None,
            });
            assert(pairs_view(pairs@) == g);
        }
        if let Some(size) = &self.size {
            push_pair(&mut pairs, "size", size.as_str().to_owned());
        }
        proof {
            g = with_opt(g, "size"@, match self.size {
                Some(z) => Some(z.spec_str()),
                None => None,
            });
            assert(pairs_view(pairs@) == g);
        }
        if let Some(locale) = &self.locale {
            push_pair(&mut pairs, "locale", locale.as_str().to_owned());
        }
        proof {
            g = with_opt(g, "locale"@, match self.locale {
                Some(l) => Some(l.spec_str()),
                None => None,
            });
            assert(pairs_view(pairs@) == g);
            assert(g == spec_video_search_pairs(*self));
        }
        Ok(build_url("https://api.pexels.com/videos/search", &pairs))
    }
}

/// Builder for a video search.
pub struct SearchBuilder<'a> {
    pub query: &'a str,
    pub page: Option<usize>,
    pub per_page: Option<usize>,
    pub orientation: Option<Orientation>,
    pub size: Option<Size>,
    pub locale: Option<Locale>,
}

impl<'a> SearchBuilder<'a> {
    /// An empty builder: no query, every filter absent.
    pub fn new() -> (r: SearchBuilder<'a>)
        ensures
            r.query@ == Seq::<char>::empty(),
            r.page is None,
            r.per_page is None,
            r.orientation is None,
            r.size is None,
            r.locale is None,
    {
        proof {
            reveal_strlit("");
        }
        SearchBuilder {
            query: "",
            page: None,
            per_page: None,
            orientation: None,
            size: None,
            locale: None,
        }
    }

    /// Sets the query.
    pub fn query(self, query: &'a str) -> (r: SearchBuilder<'a>)
        ensures
            r == (SearchBuilder { query, ..self }),
    {
        SearchBuilder { query, ..self }
    }

    /// Sets the page number.
    pub fn page(self, page: usize) -> (r: SearchBuilder<'a>)
        ensures
            r == (SearchBuilder { page: Some(page), ..self }),
    {
        SearchBuilder { page: Some(page), ..self }
    }

    /// Sets the page size.
    pub fn per_page(self, per_page: usize) -> (r: SearchBuilder<'a>)
        ensures
            r == (SearchBuilder { per_page: Some(per_page), ..self }),
    {
        SearchBuilder { per_page: Some(per_page), ..self }
    }

    /// Sets the orientation filter.
    pub fn orientation(self, orientation: Orientation) -> (r: SearchBuilder<'a>)
        ensures
            r == (SearchBuilder { orientation: Some(orientation), ..self }),
    {
        SearchBuilder { orientation: Some(orientation), ..self }
    }

    /// Sets the size filter.
    pub fn size(self, size: Size) -> (r: SearchBuilder<'a>)
        ensures
            r == (SearchBuilder { size: Some(size), ..self }),
    {
        SearchBuilder { size: Some(size), ..self }
    }

    /// Sets the locale.
    pub fn locale(self, locale: Locale) -> (r: SearchBuilder<'a>)
        ensures
            r == (SearchBuilder { locale: Some(locale), ..self }),
    {
        SearchBuilder { locale: Some(locale), ..self }
    }

    /// The search these settings describe.
    pub fn build(self) -> (r: Search<'a>)
        ensures
            r.query == self.query,
            r.page == self.page,
            r.per_page == self.per_page,
            r.orientation == self.orientation,
            r.size == self.size,
            r.locale == self.locale,
    {
        Search {
            query: self.query,
            page: self.page,
            per_page: self.per_page,
            orientation: self.orientation,
            size: self.size,
            locale: self.locale,
        }
    }
}

/// A popular-videos request.
pub struct Popular {
    pub min_width: Option<usize>,
    pub min_height: Option<usize>,
    pub min_duration: Option<usize>,
    pub max_duration: Option<usize>,
    pub page: Option<usize>,
    pub per_page: Option<usize>,
}

/// The name/value pairs of a popular request: each present bound, then the
/// page geometry.
pub open spec fn spec_popular_pairs(p: Popular) -> Seq<(Seq<char>, Seq<char>)> {
    let s0 = Seq::<(Seq<char>, Seq<char>)>::empty();
    let s1 = with_opt(s0, "min_width"@, match p.min_width {
        Some(n) => Some(spec_decimal(n as int)),
        None => None,
    });
    let s2 = with_opt(s1, "min_height"@, match p.min_height {
        Some(n) => Some(spec_decimal(n as int)),
        None => None,
    });
    let s3 = with_opt(s2, "min_duration"@, match p.min_duration {
        Some(n) => Some(spec_decimal(n as int)),
        None => None,
    });
    let s4 = with_opt(s3, "max_duration"@, match p.max_duration {
        Some(n) => Some(spec_decimal(n as int)),
        None => None,
    });
    let s5 = with_opt(s4, "page"@, match p.page {
        Some(n) => Some(spec_decimal(n as int)),
        None => None,
    });
    with_opt(s5, "per_page"@, match p.per_page {
        Some(n) => Some(spec_decimal(n as int)),
        None => None,
    })
}

impl Popular {
    /// A builder for a popular request.
    pub fn builder() -> (r: PopularBuilder)
        ensures
            r.min_width is None,
            r.min_height is None,
            r.min_duration is None,
            r.max_duration is None,
            r.page is None,
            r.per_page is None,
    {
        PopularBuilder::new()
    }

    /// The URL of this request; never fails.
    pub fn create_uri(&self) -> (r: BuilderResult)
        ensures
            r is Ok,
            r->Ok_0@ == spec_url_with_pairs(
                "https://api.pexels.com/videos/popular"@,
                spec_popular_pairs(*self),
            ),
    {
        let mut pairs: Vec<(String, String)> = Vec::new();
        let ghost mut g: Seq<(Seq<char>, Seq<char>)> = Seq::<(Seq<char>, Seq<char>)>::empty();
        proof {
            assert(pairs_view(pairs@) =~= g);
        }
        if let Some(v) = self.min_width {
            push_pair(&mut pairs, "min_width", usize_to_string(v));
        }
        proof {
            g = with_opt(g, "min_width"@, match self.min_width {
                Some(n) => Some(spec_decimal(n as int)),
                None => None,
            });
            assert(pairs_view(pairs@) == g);
        }
        if let Some(v) = self.min_height {
            push_pair(&mut pairs, "min_height", usize_to_string(v));
        }
        proof {
            g = with_opt(g, "min_height"@, match self.min_height {
                Some(n) => Some(spec_decimal(n as int)),
                None => None,
            });
            assert(pairs_view(pairs@) == g);
        }
        if let Some(v) = self.min_duration {
            push_pair(&mut pairs, "min_duration", usize_to_string(v));
        }
        proof {
            g = with_opt(g, "min_duration"@, match self.min_duration {
                Some(n) => Some(spec_decimal(n as int)),
                None => None,
            });
            assert(pairs_view(pairs@) == g);
        }
        if let Some(v) = self.max_duration {
            push_pair(&mut pairs, "max_duration", usize_to_string(v));
        }
        proof {
            g = with_opt(g, "max_duration"@, match self.max_duration {
                Some(n) => Some(spec_decimal(n as int)),
                None => None,
            });
            assert(pairs_view(pairs@) == g);
        }
        if let Some(v) = self.page {
            push_pair(&mut pairs, "page", usize_to_string(v));
        }
        proof {
            g = with_opt(g, "page"@, match self.page {
                Some(n) => Some(spec_decimal(n as int)),
                None => None,
            });
            assert(pairs_view(pairs@) == g);
        }
        if let Some(v) = self.per_page {
            push_pair(&mut pairs, "per_page", usize_to_string(v));
        }
        proof {
            g = with_opt(g, "per_page"@, match self.per_page {
                Some(n) => Some(spec_decimal(n as int)),
                None => None,
            });
            assert(pairs_view(pairs@) == g);
            assert(g == spec_popular_pairs(*self));
        }
        Ok(build_url("https://api.pexels.com/videos/popular", &pairs))
    }
}

/// Builder for a popular-videos request.
pub struct PopularBuilder {
    pub min_width: Option<usize>,
    pub min_height: Option<usize>,
    pub min_duration: Option<usize>,
    pub max_duration: Option<usize>,
    pub page: Option<usize>,
    pub per_page: Option<usize>,
}

impl PopularBuilder {
    /// An empty builder: every bound absent.
    pub fn new() -> (r: PopularBuilder)
        ensures
            r.min_width is None,
            r.min_height is None,
            r.min_duration is None,
            r.max_duration is None,
            r.page is None,
            r.per_page is None,
    {
        PopularBuilder {
            min_width: None,
            min_height: None,
            min_duration: None,
            max_duration: None,
            page: None,
            per_page: None,
        }
    }

    /// Sets the least acceptable width.
    pub fn min_width(self, min_width: usize) -> (r: PopularBuilder)
        ensures
            r == (PopularBuilder { min_width: Some(min_width), ..self }),
    {
        PopularBuilder { min_width: Some(min_width), ..self }
    }

    /// Sets the least acceptable height.
    pub fn min_height(self, min_height: usize) -> (r: PopularBuilder)
        ensures
            r == (PopularBuilder { min_height: Some(min_height), ..self }),
    {
        PopularBuilder { min_height: Some(min_height), ..self }
    }

    /// Sets the least acceptable duration.
    pub fn min_duration(self, min_duration: usize) -> (r: PopularBuilder)
        ensures
            r == (PopularBuilder { min_duration: Some(min_duration), ..self }),
    {
        PopularBuilder { min_duration: Some(min_duration), ..self }
    }

    /// Sets the greatest acceptable duration.
    pub fn max_duration(self, max_duration: usize) -> (r: PopularBuilder)
        ensures
            r == (PopularBuilder { max_duration: Some(max_duration), ..self }),
    {
        PopularBuilder { max_duration: Some(max_duration), ..self }
    }

    /// Sets the page number.
    pub fn page(self, page: usize) -> (r: PopularBuilder)
        ensures
            r == (PopularBuilder { page: Some(page), ..self }),
    {
        PopularBuilder { page: Some(page), ..self }
    }

    /// Sets the page size.
    pub fn per_page(self, per_page: usize) -> (r: PopularBuilder)
        ensures
            r == (PopularBuilder { per_page: Some(per_page), ..self }),
    {
        PopularBuilder { per_page: Some(per_page), ..self }
    }

    /// The request these settings describe.
    pub fn build(self) -> (r: Popular)
        ensures
            r.page == self.page,
            r.per_page == self.per_page,
            r.min_width == self.min_width,
            r.min_height == self.min_height,
            r.min_duration == self.min_duration,
            r.max_duration == self.max_duration,
    {
        Popular {
            min_width: self.min_width,
            min_height: self.min_height,
            min_duration: self.min_duration,
            max_duration: self.max_duration,
            page: self.page,
            per_page: self.per_page,
        }
    }
}

/// A fetch of one video by id.
pub struct FetchVideo {
    pub id: usize,
}

impl FetchVideo {
    /// A builder for a video fetch.
    pub fn builder() -> (r: FetchVideoBuilder)
        ensures
            r.id == 0,
    {
        FetchVideoBuilder::new()
    }

    /// The URL of this fetch; never fails.
    pub fn create_uri(&self) -> (r: BuilderResult)
        ensures
            r is Ok,
            r->Ok_0@ == "https://api.pexels.com/videos/videos/"@ + spec_decimal(self.id as int),
    {
        let mut out: String = "https://api.pexels.com/videos/videos/".to_owned();
        let digits = usize_to_string(self.id);
        out.append(digits.as_str());
        Ok(out)
    }
}

/// Builder for a video fetch.
pub struct FetchVideoBuilder {
    pub id: usize,
}

impl FetchVideoBuilder {
    /// A builder for video id zero.
    pub fn new() -> (r: FetchVideoBuilder)
        ensures
            r.id == 0,
    {
        FetchVideoBuilder { id: 0 }
    }

    /// Sets the video id.
    pub fn id(self, id: usize) -> (r: FetchVideoBuilder)
        ensures
            r.id == id,
    {
        FetchVideoBuilder { id }
    }

    /// The fetch these settings describe.
    pub fn build(self) -> (r: FetchVideo)
        ensures
            r.id == self.id,
    {
        FetchVideo { id: self.id }
    }
}

} // verus!
