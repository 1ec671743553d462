//! Collection endpoints: listing, featured, and the media of one
//! collection.

use crate::pexels::types::{BuilderResult, MediaSort, MediaType};
use crate::text::{spec_decimal, usize_to_string};
use crate::urlenc::{build_url, pairs_view, push_pair, spec_url_with_pairs, with_opt};
use vstd::prelude::*;

verus! {

/// A collections listing request.
pub struct Collections {
    pub page: Option<usize>,
    pub per_page: Option<usize>,
}

/// The name/value pairs of a page-geometry-only request.
pub open spec fn spec_page_pairs(page: Option<usize>, per_page: Option<usize>) -> Seq<
    (Seq<char>, Seq<char>),
> {
    with_opt(
        with_opt(Seq::<(Seq<char>, Seq<char>)>::empty(), "page"@, match page {
            Some(n) => Some(spec_decimal(n as int)),
            None => None,
        }),
        "per_page"@,
        match per_page {
            Some(n) => Some(spec_decimal(n as int)),
            None => None,
        },
    )
}

/// Appends the optional page geometry as pairs.
fn push_page_pairs(pairs: &mut Vec<(String, String)>, page: Option<usize>, per_page: Option<usize>)
    ensures
        pairs_view(final(pairs)@) == pairs_view(old(pairs)@) + spec_page_pairs(page, per_page),
{
    let ghost start = pairs_view(pairs@);
    let ghost mut g: Seq<(Seq<char>, Seq<char>)> = pairs_view(pairs@);
    if let Some(v) = page {
        push_pair(pairs, "page", usize_to_string(v));
    }
    proof {
        g = with_opt(g, "page"@, match page {
            Some(n) => Some(spec_decimal(n as int)),
            None => None,
        });
        assert(pairs_view(pairs@) == g);
    }
    if let Some(v) = per_page {
        push_pair(pairs, "per_page", usize_to_string(v));
    }
    proof {
        g = with_opt(g, "per_page"@, match per_page {
            Some(n) => Some(spec_decimal(n as int)),
            None => None,
        });
        assert(pairs_view(pairs@) == g);
        assert(pairs_view(pairs@) =~= start + spec_page_pairs(page, per_page));
    }
}

impl Collections {
    /// A builder for a collections listing.
    pub fn builder() -> (r: CollectionsBuilder)
        ensures
            r.page is None,
            r.per_page is None,
    {
        CollectionsBuilder::new()
    }

    /// The URL of this listing; never fails.
    pub fn create_uri(&self) -> (r: BuilderResult)
        ensures
            r is Ok,
            r->Ok_0@ == spec_url_with_pairs(
                "https://api.pexels.com/v1/collections"@,
                spec_page_pairs(self.page, self.per_page),
            ),
    {
        let mut pairs: Vec<(String, String)> = Vec::new();
        proof {
            assert(pairs_view(pairs@) =~= Seq::<(Seq<char>, Seq<char>)>::empty());
        }
        push_page_pairs(&mut pairs, self.page, self.per_page);
        proof {
            assert(pairs_view(pairs@) =~= spec_page_pairs(self.page, self.per_page));
        }
        Ok(build_url("https://api.pexels.com/v1/collections", &pairs))
    }
}

/// Builder for a collections listing.
pub struct CollectionsBuilder {
    pub page: Option<usize>,
    pub per_page: Option<usize>,
}

impl CollectionsBuilder {
    /// An empty builder.
    pub fn new() -> (r: CollectionsBuilder)
        ensures
            r.page is None,
            r.per_page is None,
    {
        CollectionsBuilder { page: None, per_page: None }
    }

    /// Sets the page number.
    pub fn page(self, page: usize) -> (r: CollectionsBuilder)
        ensures
            r == (CollectionsBuilder { page: Some(page), ..self }),
    {
        CollectionsBuilder { page: Some(page), ..self }
    }

    /// Sets the page size.
    pub fn per_page(self, per_page: usize) -> (r: CollectionsBuilder)
        ensures
            r == (CollectionsBuilder { per_page: Some(per_page), ..self }),
    {
        CollectionsBuilder { per_page: Some(per_page), ..self }
    }

    /// The listing these settings describe.
    pub fn build(self) -> (r: Collections)
        ensures
            r.page == self.page,
            r.per_page == self.per_page,
    {
        Collections { page: self.page, per_page: self.per_page }
    }
}

/// A featured-collections request.
pub struct Featured {
    pub page: Option<usize>,
    pub per_page: Option<usize>,
}

impl Featured {
    /// A builder for a featured request.
    pub fn builder() -> (r: FeaturedBuilder)
        ensures
            r.page is None,
            r.per_page is None,
    {
        FeaturedBuilder::new()
    }

    /// The URL of this request; never fails.
    pub fn create_uri(&self) -> (r: BuilderResult)
        ensures
            r is Ok,
            r->Ok_0@ == spec_url_with_pairs(
                "https://api.pexels.com/v1/collections/featured"@,
                spec_page_pairs(self.page, self.per_page),
            ),
    {
        let mut pairs: Vec<(String, String)> = Vec::new();
        proof {
            assert(pairs_view(pairs@) =~= Seq::<(Seq<char>, Seq<char>)>::empty());
        }
        push_page_pairs(&mut pairs, self.page, self.per_page);
        proof {
            assert(pairs_view(pairs@) =~= spec_page_pairs(self.page, self.per_page));
        }
        Ok(build_url("https://api.pexels.com/v1/collections/featured", &pairs))
    }
}

/// Builder for a featured-collections request.
pub struct FeaturedBuilder {
    pub page: Option<usize>,
    pub per_page: Option<usize>,
}

impl FeaturedBuilder {
    /// An empty builder.
    pub fn new() -> (r: FeaturedBuilder)
        ensures
            r.page is None,
            r.per_page is None,
    {
        FeaturedBuilder { page: None, per_page: None }
    }

    /// Sets the page number.
    pub fn page(self, page: usize) -> (r: FeaturedBuilder)
        ensures
            r == (FeaturedBuilder { page: Some(page), ..self }),
    {
        FeaturedBuilder { page: Some(page), ..self }
    }

    /// Sets the page size.
    pub fn per_page(self, per_page: usize) -> (r: FeaturedBuilder)
        ensures
            r == (FeaturedBuilder { per_page: Some(per_page), ..self }),
    {
        FeaturedBuilder { per_page: Some(per_page), ..self }
    }

    /// The request these settings describe.
    pub fn build(self) -> (r: Featured)
        ensures
            r.page == self.page,
            r.per_page == self.per_page,
    {
        Featured { page: self.page, per_page: self.per_page }
    }
}

/// A request for the media of one collection, optionally filtered by kind
/// and ordered.
pub struct Media {
    pub id: String,
    pub media_type: Option<MediaType>,
    pub sort: Option<MediaSort>,
    pub page: Option<usize>,
    pub per_page: Option<usize>,
}

/// The name/value pairs of a collection-media request: the kind unless it
/// is empty, the order, then the page geometry.
pub open spec fn spec_media_pairs(m: Media) -> Seq<(Seq<char>, Seq<char>)> {
    let s0 = Seq::<(Seq<char>, Seq<char>)>::empty();
    let s1 = match m.media_type {
        Some(MediaType::Empty) => s0,
        Some(t) => s0.push(("type"@, t.spec_str())),
        None => s0,
    };
    let s2 = with_opt(s1, "sort"@, match m.sort {
        Some(s) => Some(s.spec_str()),
        None => None,
    });
    s2 + spec_page_pairs(m.page, m.per_page)
}

impl Media {
    /// A builder for a collection-media request.
    pub fn builder() -> (r: MediaBuilder)
        ensures
            r.id@ == Seq::<char>::empty(),
            r.media_type is None,
            r.sort is None,
            r.page is None,
            r.per_page is None,
    {
        MediaBuilder::new()
    }

    /// The URL of this request; never fails.
    pub fn create_uri(&self) -> (r: BuilderResult)
        ensures
            r is Ok,
            r->Ok_0@ == spec_url_with_pairs(
                "https://api.pexels.com/v1/collections/"@ + self.id@,
                spec_media_pairs(*self),
            ),
    {
        let mut base: String = "https://api.pexels.com/v1/collections/".to_owned();
        base.append(self.id.as_str());
        let mut pairs: Vec<(String, String)> = Vec::new();
        let ghost mut g: Seq<(Seq<char>, Seq<char>)> = Seq::<(Seq<char>, Seq<char>)>::empty();
        proof {
            assert(pairs_view(pairs@) =~= g);
        }
        if let Some(t) = &self.media_type {
            if !matches!(t, MediaType::Empty) {
                push_pair(&mut pairs, "type", t.as_str().to_owned());
            }
        }
        proof {
            g = match self.media_type {
                Some(MediaType::Empty) => g,
                Some(t) => g.push(("type"@, t.spec_str())),
                None => g,
            };
            assert(pairs_view(pairs@) == g);
        }
        if let Some(s) = &self.sort {
            push_pair(&mut pairs, "sort", s.as_str().to_owned());
        }
        proof {
            g = with_opt(g, "sort"@, match self.sort {
                Some(s) => Some(s.spec_str()),
                None => None,
            });
            assert(pairs_view(pairs@) == g);
        }
        push_page_pairs(&mut pairs, self.page, self.per_page);
        proof {
            assert(pairs_view(pairs@) == spec_media_pairs(*self));
        }
        Ok(build_url(base.as_str(), &pairs))
    }
}

/// Builder for a collection-media request.
pub struct MediaBuilder {
    pub id: String,
    pub media_type: Option<MediaType>,
    pub sort: Option<MediaSort>,
    pub page: Option<usize>,
    pub per_page: Option<usize>,
}

impl MediaBuilder {
    /// An empty builder: no collection id, no filters.
    pub fn new() -> (r: MediaBuilder)
        ensures
            r.id@ == Seq::<char>::empty(),
            r.media_type is None,
            r.sort is None,
            r.page is None,
            r.per_page is None,
    {
        proof {
            reveal_strlit("");
        }
        MediaBuilder {
            id: "".to_owned(),
            media_type: None,
            sort: None,
            page: None,
            per_page: None,
        }
    }

    /// Sets the collection id.
    pub fn id(self, id: String) -> (r: MediaBuilder)
        ensures
            r == (MediaBuilder { id, ..self }),
    {
        MediaBuilder { id, ..self }
    }

    /// Sets the kind of media to request.
    pub fn media_type(self, media_type: MediaType) -> (r: MediaBuilder)
        ensures
            r == (MediaBuilder { media_type: Some(media_type), ..self }),
    {
        MediaBuilder { media_type: Some(media_type), ..self }
    }

    /// Sets the order of the items.
    pub fn sort(self, sort: MediaSort) -> (r: MediaBuilder)
        ensures
            r == (MediaBuilder { sort: Some(sort), ..self }),
    {
        MediaBuilder { sort: Some(sort), ..self }
    }

    /// Sets the page number.
    pub fn page(self, page: usize) -> (r: MediaBuilder)
        ensures
            r == (MediaBuilder { page: Some(page), ..self }),
    {
        MediaBuilder { page: Some(page), ..self }
    }

    /// Sets the page size.
    pub fn per_page(self, per_page: usize) -> (r: MediaBuilder)
        ensures
            r == (MediaBuilder { per_page: Some(per_page), ..self }),
    {
        MediaBuilder { per_page: Some(per_page), ..self }
    }

    /// The request these settings describe.
    pub fn build(self) -> (r: Media)
        ensures
            r.id == self.id,
            r.media_type == self.media_type,
            r.sort == self.sort,
            r.page == self.page,
            r.per_page == self.per_page,
    {
        Media {
            id: self.id,
            media_type: self.media_type,
            sort: self.sort,
            page: self.page,
            per_page: self.per_page,
        }
    }
}

} // verus!
