//! Photo endpoints: search, curated, and fetch by id.

use crate::pexels::types::{BuilderResult, Locale, Orientation, PexelsError, Size};
use crate::text::{byte_len, spec_decimal, str_chars, usize_to_string, utf8_len};
use crate::urlenc::{build_url, pairs_view, push_pair, spec_url_with_pairs, with_opt, with_pair};
use vstd::prelude::*;

verus! {

/// A hexadecimal color code: `#` followed by six hexadecimal digits.
#[derive(Debug, PartialEq)]
pub struct Hex<'a>(pub &'a str);

/// Whether a character is a hexadecimal digit.
pub open spec fn is_hex_digit_char(c: char) -> bool {
    ('0' <= c && c <= '9') || ('a' <= c && c <= 'f') || ('A' <= c && c <= 'F')
}

/// Whether every character after the first is a hexadecimal digit.
pub open spec fn hex_digits_after_first(s: Seq<char>) -> bool {
    forall|i: int| 1 <= i < s.len() ==> is_hex_digit_char(#[trigger] s[i])
}

impl<'a> Hex<'a> {
    /// Validates a color code: exactly seven bytes, starting with `#`,
    /// hexadecimal digits after it; each failure carries the offending
    /// input in its message.
    pub fn from_borrowed_str(v: &'a str) -> (r: Result<Self, PexelsError>)
        ensures
            utf8_len(v@) != 7 ==> (r matches Err(PexelsError::HexColorCodeError(m)) && m@ == v@
                + " is not 7 characters long."@),
            utf8_len(v@) == 7 && !(v@.len() > 0 && v@[0] == '#') ==> (r matches Err(
                PexelsError::HexColorCodeError(m),
            ) && m@ == v@ + " does not start with #."@),
            utf8_len(v@) == 7 && v@.len() > 0 && v@[0] == '#' && !hex_digits_after_first(v@) ==> (
            r matches Err(PexelsError::HexColorCodeError(m)) && m@ == v@
                + " have values that are not valid ASCII punctuation character."@),
            utf8_len(v@) == 7 && v@.len() > 0 && v@[0] == '#' && hex_digits_after_first(v@) ==> (
            r matches Ok(h) && h.0@ == v@),
    {
        if byte_len(v) != 7 {
            let mut m: String = v.to_owned();
            m.append(" is not 7 characters long.");
            return Err(PexelsError::HexColorCodeError(m));
        }
        let chars = str_chars(v);
        if !(chars.len() > 0 && chars[0] == '#') {
            let mut m: String = v.to_owned();
            m.append(" does not start with #.");
            return Err(PexelsError::HexColorCodeError(m));
        }
        let mut i: usize = 1;
        let n = chars.len();
        while i < n
            invariant
                1 <= i <= chars@.len(),
                n == chars@.len(),
                chars@ == v@,
                utf8_len(v@) == 7,
                v@.len() > 0,
                v@[0] == '#',
                forall|j: int| 1 <= j < i ==> is_hex_digit_char(#[trigger] v@[j]),
            decreases n - i,
        {
            let c = chars[i];
            let ok = (c >= '0' && c <= '9') || (c >= 'a' && c <= 'f') || (c >= 'A' && c <= 'F');
            if !ok {
                assert(!is_hex_digit_char(v@[i as int]));
                let mut m: String = v.to_owned();
                m.append(" have values that are not valid ASCII punctuation character.");
                return Err(PexelsError::HexColorCodeError(m));
            }
            i = i + 1;
        }
        Ok(Hex(v))
    }
}

/// The color filter of a photo search: a named color, or a hexadecimal
/// code.
#[derive(Debug)]
pub enum Color<'a> {
    Red,
    Orange,
    Yellow,
    Green,
    Turquoise,
    Blue,
    Violet,
    Pink,
    Brown,
    Black,
    Gray,
    White,
    Hex(Hex<'a>),
}

impl<'a> Color<'a> {
    /// The wire form of this color.
    pub open spec fn spec_str(self) -> Seq<char> {
        match self {
            Color::Red => "red"@,
            Color::Orange => "orange"@,
            Color::Yellow => "yellow"@,
            Color::Green => "green"@,
            Color::Turquoise => "turquoise"@,
            Color::Blue => "blue"@,
            Color::Violet => "violet"@,
            Color::Pink => "pink"@,
            Color::Brown => "brown"@,
            Color::Black => "black"@,
            Color::Gray => "gray"@,
            Color::White => "white"@,
            Color::Hex(v) => v.0@,
        }
    }

    /// The wire form of this color; never fails.
    pub fn as_str(&self) -> (r: Result<&str, PexelsError>)
        ensures
            r is Ok,
            r->Ok_0@ == self.spec_str(),
    {
        let value: &str = match self {
            Color::Red => "red",
            Color::Orange => "orange",
            Color::Yellow => "yellow",
            Color::Green => "green",
            Color::Turquoise => "turquoise",
            Color::Blue => "blue",
            Color::Violet => "violet",
            Color::Pink => "pink",
            Color::Brown => "brown",
            Color::Black => "black",
            Color::Gray => "gray",
            Color::White => "white",
            Color::Hex(v) => v.0,
        };
        Ok(value)
    }
}

/// A photo search request.
pub struct Search<'a> {
    pub query: &'a str,
    pub page: Option<usize>,
    pub per_page: Option<usize>,
    pub orientation: Option<Orientation>,
    pub size: Option<Size>,
    pub color: Option<Color<'a>>,
    pub locale: Option<Locale>,
}

/// The name/value pairs of a photo search: the query, then each present
/// filter.
pub open spec fn spec_photo_search_pairs(s: Search) -> Seq<(Seq<char>, Seq<char>)> {
    let s0 = seq![("query"@, s.query@)];
    let s1 = with_opt(s0, "page"@, match s.page {
        Some(n) => Some(spec_decimal(n as int)),
        None => None,
    });
    let s2 = with_opt(s1, "per_page"@, match s.per_page {
        Some(n) => Some(spec_decimal(n as int)),
        None => None,
    });
    let s3 = with_opt(s2, "orientation"@, match s.orientation {
        Some(o) => Some(o.spec_str()),
        None => None,
    });
    let s4 = with_opt(s3, "size"@, match s.size {
        Some(z) => Some(z.spec_str()),
        None => None,
    });
    let s5 = with_opt(s4, "color"@, match s.color {
        Some(c) => Some(c.spec_str()),
        None => None,
    });
    with_opt(s5, "locale"@, match s.locale {
        Some(l) => Some(l.spec_str()),
        None => None,
    })
}

impl<'a> Search<'a> {
    /// A builder for a photo search.
    pub fn builder() -> (r: SearchBuilder<'a>)
        ensures
            r.query@ == Seq::<char>::empty(),
            r.page is None,
            r.per_page is None,
            r.orientation is None,
            r.size is None,
            r.color is None,
            r.locale is None,
    {
        SearchBuilder::new()
    }

    /// The URL of this search; never fails.
    pub fn create_uri(&self) -> (r: BuilderResult)
        ensures
            r is Ok,
            r->Ok_0@ == spec_url_with_pairs(
                "https://api.pexels.com/v1/search"@,
                spec_photo_search_pairs(*self),
            ),
    {
        let mut pairs: Vec<(String, String)> = Vec::new();
        push_pair(&mut pairs, "query", self.query.to_owned());
        let ghost mut g: Seq<(Seq<char>, Seq<char>)> = seq![("query"@, self.query@)];
        proof {
            assert(pairs_view(Seq::<(String, String)>::empty())
                =~= Seq::<(Seq<char>, Seq<char>)>::empty());
            assert(pairs_view(pairs@) == g);
        }
        if let Some(page) = self.page {
            push_pair(&mut pairs, "page", usize_to_string(page));
        }
        proof {
            g = with_opt(g, "page"@, match self.page {
                Some(n) => Some(spec_decimal(n as int)),
                None => None,
            });
            assert(pairs_view(pairs@) == g);
        }
        if let Some(per_page) = self.per_page {
            push_pair(&mut pairs, "per_page", usize_to_string(per_page));
        }
        proof {
            g = with_opt(g, "per_page"@, match self.per_page {
                Some(n) => Some(spec_decimal(n as int)),
                None => None,
            });
            assert(pairs_view(pairs@) == g);
        }
        if let Some(orientation) = &self.orientation {
            push_pair(&mut pairs, "orientation", orientation.as_str().to_owned());
        }
        proof {
            g = with_opt(g, "orientation"@, match self.orientation {
                Some(o) => Some(o.spec_str()),
                None => None,
            });
            assert(pairs_view(pairs@) == g);
        }
        if let Some(size) = &self.size {
            push_pair(&mut pairs, "size", size.as_str().to_owned());
        }
        proof {
            g = with_opt(g, "size"@, match self.size {
                Some(z) => Some(z.spec_str()),
                None => None,
            });
            assert(pairs_view(pairs@) == g);
        }
        if let Some(color) = &self.color {
            let c = match color.as_str() {
                Ok(c) => c,
                Err(e) => {
                    return Err(e);
                },
            };
            push_pair(&mut pairs, "color", c.to_owned());
        }
        proof {
            g = with_opt(g, "color"@, match &self.color {
                Some(c) => Some(c.spec_str()),
                None => None,
            });
            assert(pairs_view(pairs@) == g);
        }
        if let Some(locale) = &self.locale {
            push_pair(&mut pairs, "locale", locale.as_str().to_owned());
        }
        proof {
            g = with_opt(g, "locale"@, match self.locale {
                Some(l) => Some(l.spec_str()),
                None => None,
            });
            assert(pairs_view(pairs@) == g);
            assert(g == spec_photo_search_pairs(*self));
        }
        Ok(build_url("https://api.pexels.com/v1/search", &pairs))
    }
}

/// Builder for a photo search.
pub struct SearchBuilder<'a> {
    pub query: &'a str,
    pub page: Option<usize>,
    pub per_page: Option<usize>,
    pub orientation: Option<Orientation>,
    pub size: Option<Size>,
    pub color: Option<Color<'a>>,
    pub locale: Option<Locale>,
}

impl<'a> SearchBuilder<'a> {
    /// An empty builder: no query, every filter absent.
    pub fn new() -> (r: SearchBuilder<'a>)
        ensures
            r.query@ == Seq::<char>::empty(),
            r.page is None,
            r.per_page is None,
            r.orientation is None,
            r.size is None,
            r.color is None,
            r.locale is None,
    {
        proof {
            reveal_strlit("");
        }
        SearchBuilder {
            query: "",
            page: None,
            per_page: None,
            orientation: None,
            size: None,
            color: None,
            locale: None,
        }
    }

    /// Sets the query.
    pub fn query(self, query: &'a str) -> (r: SearchBuilder<'a>)
        ensures
            r == (SearchBuilder { query, ..self }),
    {
        SearchBuilder { query, ..self }
    }

    /// Sets the page number.
    pub fn page(self, page: usize) -> (r: SearchBuilder<'a>)
        ensures
            r == (SearchBuilder { page: Some(page), ..self }),
    {
        SearchBuilder { page: Some(page), ..self }
    }

    /// Sets the page size.
    pub fn per_page(self, per_page: usize) -> (r: SearchBuilder<'a>)
        ensures
            r == (SearchBuilder { per_page: Some(per_page), ..self }),
    {
        SearchBuilder { per_page: Some(per_page), ..self }
    }

    /// Sets the orientation filter.
    pub fn orientation(self, orientation: Orientation) -> (r: SearchBuilder<'a>)
        ensures
            r == (SearchBuilder { orientation: Some(orientation), ..self }),
    {
        SearchBuilder { orientation: Some(orientation), ..self }
    }

    /// Sets the size filter.
    pub fn size(self, size: Size) -> (r: SearchBuilder<'a>)
        ensures
            r == (SearchBuilder { size: Some(size), ..self }),
    {
        SearchBuilder { size: Some(size), ..self }
    }

    /// Sets the color filter.
    pub fn color(self, color: Color<'a>) -> (r: SearchBuilder<'a>)
        ensures
            r == (SearchBuilder { color: Some(color), ..self }),
    {
        SearchBuilder { color: Some(color), ..self }
    }

    /// Sets the locale.
    pub fn locale(self, locale: Locale) -> (r: SearchBuilder<'a>)
        ensures
            r == (SearchBuilder { locale: Some(locale), ..self }),
    {
        SearchBuilder { locale: Some(locale), ..self }
    }

    /// The search these settings describe.
    pub fn build(self) -> (r: Search<'a>)
        ensures
            r.query == self.query,
            r.page == self.page,
            r.per_page == self.per_page,
            r.orientation == self.orientation,
            r.size == self.size,
            r.color == self.color,
            r.locale == self.locale,
    {
        Search {
            query: self.query,
            page: self.page,
            per_page: self.per_page,
            orientation: self.orientation,
            size: self.size,
            color: self.color,
            locale: self.locale,
        }
    }
}

/// A curated-photos request.
pub struct Curated {
    pub page: Option<usize>,
    pub per_page: Option<usize>,
}

/// The name/value pairs of a curated request.
pub open spec fn spec_curated_pairs(c: Curated) -> Seq<(Seq<char>, Seq<char>)> {
    with_opt(
        with_opt(Seq::<(Seq<char>, Seq<char>)>::empty(), "page"@, match c.page {
            Some(n) => Some(spec_decimal(n as int)),
            None => None,
        }),
        "per_page"@,
        match c.per_page {
            Some(n) => Some(spec_decimal(n as int)),
            None => None,
        },
    )
}

impl Curated {
    /// A builder for a curated request.
    pub fn builder() -> (r: CuratedBuilder)
        ensures
            r.page is None,
            r.per_page is None,
    {
        CuratedBuilder::new()
    }

    /// The URL of this request; never fails.
    pub fn create_uri(&self) -> (r: BuilderResult)
        ensures
            r is Ok,
            r->Ok_0@ == spec_url_with_pairs(
                "https://api.pexels.com/v1/curated"@,
                spec_curated_pairs(*self),
            ),
    {
        let mut pairs: Vec<(String, String)> = Vec::new();
        let ghost mut g: Seq<(Seq<char>, Seq<char>)> = Seq::<(Seq<char>, Seq<char>)>::empty();
        proof {
            assert(pairs_view(pairs@) =~= g);
        }
        if let Some(page) = self.page {
            push_pair(&mut pairs, "page", usize_to_string(page));
        }
        proof {
            g = with_opt(g, "page"@, match self.page {
                Some(n) => Some(spec_decimal(n as int)),
                None => None,
            });
            assert(pairs_view(pairs@) == g);
        }
        if let Some(per_page) = self.per_page {
            push_pair(&mut pairs, "per_page", usize_to_string(per_page));
        }
        proof {
            g = with_opt(g, "per_page"@, match self.per_page {
                Some(n) => Some(spec_decimal(n as int)),
                None => None,
            });
            assert(pairs_view(pairs@) == g);
            assert(g == spec_curated_pairs(*self));
        }
        Ok(build_url("https://api.pexels.com/v1/curated", &pairs))
    }
}

/// Builder for a curated-photos request.
pub struct CuratedBuilder {
    pub page: Option<usize>,
    pub per_page: Option<usize>,
}

impl CuratedBuilder {
    /// An empty builder.
    pub fn new() -> (r: CuratedBuilder)
        ensures
            r.page is None,
            r.per_page is None,
    {
        CuratedBuilder { page: None, per_page: None }
    }

    /// Sets the page number.
    pub fn page(self, page: usize) -> (r: CuratedBuilder)
        ensures
            r == (CuratedBuilder { page: Some(page), ..self }),
    {
        CuratedBuilder { page: Some(page), ..self }
    }

    /// Sets the page size.
    pub fn per_page(self, per_page: usize) -> (r: CuratedBuilder)
        ensures
            r == (CuratedBuilder { per_page: Some(per_page), ..self }),
    {
        CuratedBuilder { per_page: Some(per_page), ..self }
    }

    /// The request these settings describe.
    pub fn build(self) -> (r: Curated)
        ensures
            r.page == self.page,
            r.per_page == self.per_page,
    {
        Curated { page: self.page, per_page: self.per_page }
    }
}

/// A fetch of one photo by id.
pub struct FetchPhoto {
    pub id: usize,
}

impl FetchPhoto {
    /// A builder for a photo fetch.
    pub fn builder() -> (r: FetchPhotoBuilder)
        ensures
            r.id == 0,
    {
        FetchPhotoBuilder::new()
    }

    /// The URL of this fetch; never fails.
    pub fn create_uri(&self) -> (r: BuilderResult)
        ensures
            r is Ok,
            r->Ok_0@ == "https://api.pexels.com/v1/photos/"@ + spec_decimal(self.id as int),
    {
        let mut out: String = "https://api.pexels.com/v1/photos/".to_owned();
        let digits = usize_to_string(self.id);
        out.append(digits.as_str());
        Ok(out)
    }
}

/// Builder for a photo fetch.
pub struct FetchPhotoBuilder {
    pub id: usize,
}

impl FetchPhotoBuilder {
    /// A builder for photo id zero.
    pub fn new() -> (r: FetchPhotoBuilder)
        ensures
            r.id == 0,
    {
        FetchPhotoBuilder { id: 0 }
    }

    /// Sets the photo id.
    pub fn id(self, id: usize) -> (r: FetchPhotoBuilder)
        ensures
            r.id == id,
    {
        FetchPhotoBuilder { id }
    }

    /// The fetch these settings describe.
    pub fn build(self) -> (r: FetchPhoto)
        ensures
            r.id == self.id,
    {
        FetchPhoto { id: self.id }
    }
}

} // verus!
