//! Job listings: fetching them by school or identifier, adding them, the
//! case-insensitive search over company and position, and reading a
//! listing's identifier from its page address.

use vstd::prelude::*;
use crate::text::{chars_of, contains_chars, is_substring, occurs_at, parse_i64, parsed_i64};

verus! {

/// The listing shown when a page address names none.
pub const DEFAULT_LISTING_ID: i64 = 1;

/// An internship or job listing of a company, posted for a school.
#[derive(Clone, Debug, PartialEq, Eq)]
pub struct Listing {
    pub company: String,
    pub position: String,
    pub description: String,
    pub url: String,
    pub id: i64,
    pub school: String,
}

/// The lowercase form of a text, as `str::to_lowercase` gives it.
pub uninterp spec fn lower_of(s: Seq<char>) -> Seq<char>;

/// Relies on str::to_lowercase: Unicode's lowercase mapping, which depends
/// on the characters alone and maps each character to one or more, so an
/// empty text stays empty.
#[verifier::external_body]
fn lowercase(s: &str) -> (r: String)
    ensures
        r@ == lower_of(s@),
        s@.len() == 0 ==> r@.len() == 0,
{
    s.to_lowercase()
}

/// The listings of `rows` posted for `school`, in order.
pub open spec fn listings_at_school(rows: Seq<Listing>, school: Seq<char>) -> Seq<Listing>
    decreases rows.len(),
{
    if rows.len() == 0 {
        seq![]
    } else {
        let rest = listings_at_school(rows.drop_last(), school);
        if rows.last().school@ == school {
            rest.push(rows.last())
        } else {
            rest
        }
    }
}

/// The position of the first listing of `rows` with identifier `id`.
pub open spec fn first_listing(rows: Seq<Listing>, id: i64) -> Option<int>
    decreases rows.len(),
{
    if rows.len() == 0 {
        None
    } else {
        match first_listing(rows.drop_last(), id) {
            Some(i) => Some(i),
            None => if rows.last().id == id {
                Some(rows.len() - 1)
            } else {
                None
            },
        }
    }
}

/// A listing matches a lowercase query when the query stands in its
/// lowercased company or position.
pub open spec fn listing_matches(listing: Listing, query_lower: Seq<char>) -> bool {
    is_substring(query_lower, lower_of(listing.company@)) || is_substring(
        query_lower,
        lower_of(listing.position@),
    )
}

/// The listings of `rows` that match the lowercase query, in order.
pub open spec fn matching_listings(rows: Seq<Listing>, query_lower: Seq<char>) -> Seq<Listing>
    decreases rows.len(),
{
    if rows.len() == 0 {
        seq![]
    } else {
        let rest = matching_listings(rows.drop_last(), query_lower);
        if listing_matches(rows.last(), query_lower) {
            rest.push(rows.last())
        } else {
            rest
        }
    }
}

/// The text after the last `/` of an address, or `None` when it holds no
/// `/`.
pub open spec fn last_segment(s: Seq<char>) -> Option<Seq<char>>
    decreases s.len(),
{
    if s.len() == 0 {
        None
    } else if s.last() == '/' {
        Some(seq![])
    } else {
        match last_segment(s.drop_last()) {
            None => None,
            Some(t) => Some(t.push(s.last())),
        }
    }
}

/// The identifier that a listing page's address names: its last segment
/// read as a signed decimal number.
pub open spec fn url_listing_id(href: Seq<char>) -> Option<int> {
    match last_segment(href) {
        None => None,
        Some(t) => parsed_i64(t),
    }
}

impl Listing {
    pub fn new(
        company: String,
        position: String,
        description: String,
        url: String,
        id: i64,
        school: String,
    ) -> (r: Listing)
        ensures
            r == (Listing { company, position, description, url, id, school }),
    {
        Listing { company, position, description, url, id, school }
    }

    pub fn get_company(&self) -> (r: &String)
        ensures
            r == self.company,
    {
        &self.company
    }

    pub fn get_position(&self) -> (r: &String)
        ensures
            r == self.position,
    {
        &self.position
    }

    pub fn get_description(&self) -> (r: &String)
        ensures
            r == self.description,
    {
        &self.description
    }

    pub fn get_url(&self) -> (r: &String)
        ensures
            r == self.url,
    {
        &self.url
    }

    pub fn get_id(&self) -> (r: i64)
        ensures
            r == self.id,
    {
        self.id
    }

    pub fn get_school(&self) -> (r: &String)
        ensures
            r == self.school,
    {
        &self.school
    }

    /// A field-by-field copy.
    pub fn duplicate(&self) -> (r: Listing)
        ensures
            r == *self,
    {
        Listing {
            company: self.company.clone(),
            position: self.position.clone(),
            description: self.description.clone(),
            url: self.url.clone(),
            id: self.id,
            school: self.school.clone(),
        }
    }
}

/// The listings of `rows` posted for `school`, in order.
pub fn get_listings(rows: &Vec<Listing>, school: &String) -> (r: Vec<Listing>)
    ensures
        r@ == listings_at_school(rows@, school@),
{
    let mut r: Vec<Listing> = Vec::new();
    let mut i: usize = 0;
    while i < rows.len()
        invariant
            i <= rows@.len(),
            r@ == listings_at_school(rows@.subrange(0, i as int), school@),
        decreases rows@.len() - i,
    {
        assert(rows@.subrange(0, i + 1).drop_last() =~= rows@.subrange(0, i as int));
        if rows[i].school.eq(school) {
            r.push(rows[i].duplicate());
        }
        i += 1;
    }
    assert(rows@.subrange(0, i as int) =~= rows@);
    r
}

/// Every listing of `rows`, in order.
pub fn get_all_listings(rows: &Vec<Listing>) -> (r: Vec<Listing>)
    ensures
        r@ == rows@,
{
    let mut r: Vec<Listing> = Vec::new();
    let mut i: usize = 0;
    while i < rows.len()
        invariant
            i <= rows@.len(),
            r@ == rows@.subrange(0, i as int),
        decreases rows@.len() - i,
    {
        r.push(rows[i].duplicate());
        i += 1;
        assert(r@ =~= rows@.subrange(0, i as int));
    }
    assert(r@ =~= rows@);
    r
}

proof fn lemma_first_listing_prefix(rows: Seq<Listing>, id: i64, k: int)
    requires
        0 <= k <= rows.len(),
        first_listing(rows.subrange(0, k), id) is Some,
    ensures
        first_listing(rows, id) == first_listing(rows.subrange(0, k), id),
    decreases rows.len() - k,
{
    if k < rows.len() {
        assert(rows.subrange(0, k + 1).drop_last() =~= rows.subrange(0, k));
        lemma_first_listing_prefix(rows, id, k + 1);
    } else {
        assert(rows.subrange(0, k) =~= rows);
    }
}

/// The first listing of `rows` with identifier `id`, or `None` when there is
/// none.
pub fn get_listing(rows: &Vec<Listing>, id: i64) -> (r: Option<Listing>)
    ensures
        r is None <==> first_listing(rows@, id) is None,
        r matches Some(l) ==> first_listing(rows@, id) matches Some(i) && l == rows@[i],
{
    let mut i: usize = 0;
    while i < rows.len()
        invariant
            i <= rows@.len(),
            first_listing(rows@.subrange(0, i as int), id) is None,
        decreases rows@.len() - i,
    {
        assert(rows@.subrange(0, i + 1).drop_last() =~= rows@.subrange(0, i as int));
        if rows[i].id == id {
            proof {
                lemma_first_listing_prefix(rows@, id, i + 1);
            }
            return Some(rows[i].duplicate());
        }
        i += 1;
    }
    assert(rows@.subrange(0, i as int) =~= rows@);
    None
}

/// Adds a listing after the others. Identifiers are not checked: a listing
/// whose identifier is taken is stored too, and `get_listing` finds the
/// earlier one.
pub fn add_listing(rows: &mut Vec<Listing>, listing: Listing)
    ensures
        final(rows)@ == old(rows)@.push(listing),
{
    rows.push(listing);
}

/// Whether the lowercase query stands in the lowercased company or position.
pub fn matches_query(company_lower: &str, position_lower: &str, query_lower: &str) -> (r: bool)
    ensures
        r == (is_substring(query_lower@, company_lower@) || is_substring(
            query_lower@,
            position_lower@,
        )),
{
    let query = chars_of(query_lower);
    contains_chars(&chars_of(company_lower), &query) || contains_chars(
        &chars_of(position_lower),
        &query,
    )
}

/// The listings whose company or position holds `query`, ignoring case, in
/// order. An empty query keeps every listing.
pub fn filter_listings(listings: &Vec<Listing>, query: &str) -> (r: Vec<Listing>)
    ensures
        r@ == matching_listings(listings@, lower_of(query@)),
        query@.len() == 0 ==> r@ == listings@,
{
    let query_lower = lowercase(query);
    let mut r: Vec<Listing> = Vec::new();
    let mut i: usize = 0;
    while i < listings.len()
        invariant
            i <= listings@.len(),
            query_lower@ == lower_of(query@),
            r@ == matching_listings(listings@.subrange(0, i as int), query_lower@),
            query@.len() == 0 ==> query_lower@.len() == 0 && r@ == listings@.subrange(0, i as int),
        decreases listings@.len() - i,
    {
        assert(listings@.subrange(0, i + 1).drop_last() =~= listings@.subrange(0, i as int));
        let listing = &listings[i];
        let company = lowercase(listing.company.as_str());
        let position = lowercase(listing.position.as_str());
        proof {
            if query_lower@.len() == 0 {
                assert(company@.subrange(0, 0) =~= query_lower@);
                assert(occurs_at(query_lower@, company@, 0));
            }
        }
        if matches_query(company.as_str(), position.as_str(), query_lower.as_str()) {
            r.push(listing.duplicate());
        }
        i += 1;
        assert(query@.len() == 0 ==> r@ =~= listings@.subrange(0, i as int));
    }
    assert(listings@.subrange(0, i as int) =~= listings@);
    r
}

/// The identifier that a listing page's address names in its last segment
/// ("https://host/listing/42" names 42), or `None` when the address holds no
/// `/` or the segment is not a number.
pub fn listing_id_from_url(href: &str) -> (r: Option<i64>)
    ensures
        r is Some <==> url_listing_id(href@) is Some,
        r is Some ==> r->0 as int == url_listing_id(href@)->0,
{
    let chars = chars_of(href);
    let mut segment: Vec<char> = Vec::new();
    let mut seen_slash = false;
    let mut i: usize = 0;
    while i < chars.len()
        invariant
            chars@ == href@,
            i <= chars@.len(),
            last_segment(chars@.subrange(0, i as int)) == (if seen_slash {
                Some(segment@)
            } else {
                None::<Seq<char>>
            }),
        decreases chars@.len() - i,
    {
        assert(chars@.subrange(0, i + 1).drop_last() =~= chars@.subrange(0, i as int));
        if chars[i] == '/' {
            segment = Vec::new();
            seen_slash = true;
            assert(segment@ =~= seq![]);
        } else {
            segment.push(chars[i]);
        }
        i += 1;
    }
    assert(chars@.subrange(0, i as int) =~= href@);
    if seen_slash {
        parse_i64(&segment)
    } else {
        None
    }
}

/// The identifier of the listing that a page shows: the one its address
/// names, else `DEFAULT_LISTING_ID`.
pub fn listing_page_id(href: &str) -> (r: i64)
    ensures
        url_listing_id(href@) matches Some(v) ==> r == v,
        url_listing_id(href@) is None ==> r == DEFAULT_LISTING_ID,
{
    match listing_id_from_url(href) {
        Some(id) => id,
        None => DEFAULT_LISTING_ID,
    }
}

} // verus!
