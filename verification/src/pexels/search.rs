//! Search parameter sets of the Pexels client, and their query-pair form.

use crate::pexels::types::{Orientation, Size};
use crate::text::spec_decimal;
use crate::urlenc::with_opt;
use crate::text::u32_to_string;
use vstd::prelude::*;

verus! {

/// Photo-search parameters: page geometry and filters, each optional.
#[derive(Debug, Clone)]
pub struct SearchParams {
    pub page: Option<u32>,
    pub per_page: Option<u32>,
    pub orientation: Option<Orientation>,
    pub size: Option<Size>,
    pub color: Option<String>,
    pub locale: Option<String>,
}

/// The name/value pairs of a photo search, in the order they are sent:
/// each present setting in its wire form.
pub open spec fn spec_search_query_params(p: SearchParams) -> Seq<(Seq<char>, Seq<char>)> {
    let s0 = Seq::<(Seq<char>, Seq<char>)>::empty();
    let s1 = with_opt(s0, "page"@, match p.page {
        Some(n) => Some(spec_decimal(n as int)),
        None => None,
    });
    let s2 = with_opt(s1, "per_page"@, match p.per_page {
        Some(n) => Some(spec_decimal(n as int)),
        None => None,
    });
    let s3 = with_opt(s2, "orientation"@, match p.orientation {
        Some(o) => Some(o.spec_str()),
        None => None,
    });
    let s4 = with_opt(s3, "size"@, match p.size {
        Some(s) => Some(s.spec_str()),
        None => None,
    });
    let s5 = with_opt(s4, "color"@, match p.color {
        Some(c) => Some(c@),
        None => None,
    });
    with_opt(s5, "locale"@, match p.locale {
        Some(l) => Some(l@),
        None => None,
    })
}

impl SearchParams {
    /// Empty parameters: every setting absent.
    pub fn new() -> (r: SearchParams)
        ensures
            r.page is None,
            r.per_page is None,
            r.orientation is None,
            r.size is None,
            r.color is None,
            r.locale is None,
    {
        SearchParams {
            page: None,
            per_page: None,
            orientation: None,
            size: None,
            color: None,
            locale: None,
        }
    }

    /// Sets the page number.
    pub fn page(self, page: u32) -> (r: SearchParams)
        ensures
            r == (SearchParams { page: Some(page), ..self }),
    {
        SearchParams { page: Some(page), ..self }
    }

    /// Sets the page size.
    pub fn per_page(self, per_page: u32) -> (r: SearchParams)
        ensures
            r == (SearchParams { per_page: Some(per_page), ..self }),
    {
        SearchParams { per_page: Some(per_page), ..self }
    }

    /// Sets the orientation filter.
    pub fn orientation(self, orientation: Orientation) -> (r: SearchParams)
        ensures
            r == (SearchParams { orientation: Some(orientation), ..self }),
    {
        SearchParams { orientation: Some(orientation), ..self }
    }

    /// Sets the size filter.
    pub fn size(self, size: Size) -> (r: SearchParams)
        ensures
            r == (SearchParams { size: Some(size), ..self }),
    {
        SearchParams { size: Some(size), ..self }
    }

    /// Sets the color filter.
    pub fn color(self, color: &str) -> (r: SearchParams)
        ensures
            r == (SearchParams { color: r.color, ..self }),
            r.color matches Some(c) && c@ == color@,
    {
        SearchParams { color: Some(color.to_owned()), ..self }
    }

    /// Sets the locale.
    pub fn locale(self, locale: &str) -> (r: SearchParams)
        ensures
            r == (SearchParams { locale: r.locale, ..self }),
            r.locale matches Some(l) && l@ == locale@,
    {
        SearchParams { locale: Some(locale.to_owned()), ..self }
    }

    /// Renders the present settings as name/value pairs, in the order they
    /// are sent.
    pub fn to_query_params(&self) -> (r: Vec<(String, String)>)
        ensures
            crate::urlenc::pairs_view(r@) == spec_search_query_params(*self),
    {
        let mut params: Vec<(String, String)> = Vec::new();
        let ghost mut g: Seq<(Seq<char>, Seq<char>)> = Seq::<(Seq<char>, Seq<char>)>::empty();
        proof {
            assert(crate::urlenc::pairs_view(params@) =~= g);
        }
        if let Some(page) = self.page {
            crate::urlenc::push_pair(&mut params, "page", u32_to_string(page));
        }
        proof {
            g = with_opt(g, "page"@, match self.page {
                Some(n) => Some(spec_decimal(n as int)),
                None => None,
            });
            assert(crate::urlenc::pairs_view(params@) == g);
        }
        if let Some(per_page) = self.per_page {
            crate::urlenc::push_pair(&mut params, "per_page", u32_to_string(per_page));
        }
        proof {
            g = with_opt(g, "per_page"@, match self.per_page {
                Some(n) => Some(spec_decimal(n as int)),
                None => None,
            });
            assert(crate::urlenc::pairs_view(params@) == g);
        }
        if let Some(orientation) = &self.orientation {
            crate::urlenc::push_pair(&mut params, "orientation", orientation.as_str().to_owned());
        }
        proof {
            g = with_opt(g, "orientation"@, match self.orientation {
                Some(o) => Some(o.spec_str()),
                None => None,
            });
            assert(crate::urlenc::pairs_view(params@) == g);
        }
        if let Some(size) = &self.size {
            crate::urlenc::push_pair(&mut params, "size", size.as_str().to_owned());
        }
        proof {
            g = with_opt(g, "size"@, match self.size {
                Some(s) => Some(s.spec_str()),
                None => None,
            });
            assert(crate::urlenc::pairs_view(params@) == g);
        }
        if let Some(color) = &self.color {
            crate::urlenc::push_pair(&mut params, "color", color.clone());
        }
        proof {
            g = with_opt(g, "color"@, match &self.color {
                Some(c) => Some(c@),
                None => None,
            });
            assert(crate::urlenc::pairs_view(params@) == g);
        }
        if let Some(locale) = &self.locale {
            crate::urlenc::push_pair(&mut params, "locale", locale.clone());
        }
        proof {
            g = with_opt(g, "locale"@, match &self.locale {
                Some(l) => Some(l@),
                None => None,
            });
            assert(crate::urlenc::pairs_view(params@) == g);
            assert(g == spec_search_query_params(*self));
        }
        params
    }
}

/// Pagination alone: the page number and the page size.
#[derive(Debug, Clone)]
pub struct PaginationParams {
    pub page: Option<u32>,
    pub per_page: Option<u32>,
}

impl PaginationParams {
    /// Empty parameters: both settings absent.
    pub fn new() -> (r: PaginationParams)
        ensures
            r.page is None,
            r.per_page is None,
    {
        PaginationParams { page: None, per_page: None }
    }

    /// Sets the page number.
    pub fn page(self, page: u32) -> (r: PaginationParams)
        ensures
            r == (PaginationParams { page: Some(page), ..self }),
    {
        PaginationParams { page: Some(page), ..self }
    }

    /// Sets the page size.
    pub fn per_page(self, per_page: u32) -> (r: PaginationParams)
        ensures
            r == (PaginationParams { per_page: Some(per_page), ..self }),
    {
        PaginationParams { per_page: Some(per_page), ..self }
    }
}

/// Video-search parameters: page geometry and filters, each optional.
#[derive(Debug, Clone)]
pub struct VideoSearchParams {
    pub page: Option<u32>,
    pub per_page: Option<u32>,
    pub orientation: Option<String>,
    pub size: Option<String>,
    pub locale: Option<String>,
}

impl VideoSearchParams {
    /// Empty parameters: every setting absent.
    pub fn new() -> (r: VideoSearchParams)
        ensures
            r.page is None,
            r.per_page is None,
            r.orientation is None,
            r.size is None,
            r.locale is None,
    {
        VideoSearchParams { page: None, per_page: None, orientation: None, size: None, locale: None }
    }

    /// Sets the page number.
    pub fn page(self, page: u32) -> (r: VideoSearchParams)
        ensures
            r == (VideoSearchParams { page: Some(page), ..self }),
    {
        VideoSearchParams { page: Some(page), ..self }
    }

    /// Sets the page size.
    pub fn per_page(self, per_page: u32) -> (r: VideoSearchParams)
        ensures
            r == (VideoSearchParams { per_page: Some(per_page), ..self }),
    {
        VideoSearchParams { per_page: Some(per_page), ..self }
    }

    /// Sets the orientation filter.
    pub fn orientation(self, orientation: &str) -> (r: VideoSearchParams)
        ensures
            r == (VideoSearchParams { orientation: r.orientation, ..self }),
            r.orientation matches Some(o) && o@ == orientation@,
    {
        VideoSearchParams { orientation: Some(orientation.to_owned()), ..self }
    }

    /// Sets the size filter.
    pub fn size(self, size: &str) -> (r: VideoSearchParams)
        ensures
            r == (VideoSearchParams { size: r.size, ..self }),
            r.size matches Some(s) && s@ == size@,
    {
        VideoSearchParams { size: Some(size.to_owned()), ..self }
    }

    /// Sets the locale.
    pub fn locale(self, locale: &str) -> (r: VideoSearchParams)
        ensures
            r == (VideoSearchParams { locale: r.locale, ..self }),
            r.locale matches Some(l) && l@ == locale@,
    {
        VideoSearchParams { locale: Some(locale.to_owned()), ..self }
    }
}

} // verus!
