use vstd::prelude::*;

use crate::model::{ContentRating, Manga, MangaModel, MangaPageResult, MangaStatus, Viewer};
use crate::text::{chars_of, copy_text, occurs_at, occurs_here, string_of};
use crate::MangafireSource;

verus! {

/// What the listing extractor reads of one entry of a results page.
#[derive(Clone, Debug)]
pub struct ListingUnit {
    /// The `href` of the entry's poster link.
    pub poster_href: Option<String>,
    /// The text of the entry's title link.
    pub title: Option<String>,
    /// The `src` of the poster's image.
    pub cover: Option<String>,
}

/// What the listing extractor reads of a results page.
#[derive(Clone, Debug)]
pub struct ListingDocument {
    /// The entries, in document order.
    pub units: Vec<ListingUnit>,
    /// Whether the page has an active pagination item.
    pub has_active_page: bool,
}

/// The start of the path of a title's page.
pub open spec fn manga_path() -> Seq<char> {
    "/manga/"@
}

/// Whether an entry names a title: its poster links under the title path.
pub open spec fn is_listed(u: ListingUnit) -> bool {
    match u.poster_href {
        Some(h) => occurs_at(h@, manga_path(), 0),
        None => false,
    }
}

/// A title known by its summary alone.
pub open spec fn summary(key: Seq<char>, title: Seq<char>, cover: Option<Seq<char>>) -> MangaModel {
    MangaModel {
        key,
        title,
        cover,
        description: None,
        authors: None,
        tags: None,
        status: MangaStatus::Unknown,
        content_rating: ContentRating::Unknown,
        viewer: Viewer::Unknown,
        chapters: None,
    }
}

/// The summary of a listed entry: the poster path after the title path as
/// key, the title text or nothing, the poster image.
pub open spec fn summary_of(u: ListingUnit) -> MangaModel {
    let h = u.poster_href.unwrap()@;
    summary(
        h.subrange(manga_path().len() as int, h.len() as int),
        match u.title {
            Some(t) => t@,
            None => Seq::empty(),
        },
        u.cover.deep_view(),
    )
}

/// The summaries of the listed entries, in order.
pub open spec fn listing_entries(units: Seq<ListingUnit>) -> Seq<MangaModel>
    decreases units.len(),
{
    if units.len() == 0 {
        Seq::empty()
    } else {
        let rest = listing_entries(units.drop_last());
        if is_listed(units.last()) {
            rest.push(summary_of(units.last()))
        } else {
            rest
        }
    }
}

/// A results page yields one summary for each entry that names a title, in
/// document order, and none for the others: of N such entries among M others,
/// exactly N.
pub proof fn listing_keeps_listed_units_in_order(units: Seq<ListingUnit>)
    ensures
        listing_entries(units) == units.filter(|u: ListingUnit| is_listed(u)).map_values(
            |u: ListingUnit| summary_of(u),
        ),
        listing_entries(units).len() + units.filter(|u: ListingUnit| !is_listed(u)).len()
            == units.len(),
    decreases units.len(),
{
    reveal_with_fuel(Seq::filter, 1);
    if units.len() > 0 {
        listing_keeps_listed_units_in_order(units.drop_last());
        assert(listing_entries(units) =~= units.filter(|u: ListingUnit| is_listed(u)).map_values(
            |u: ListingUnit| summary_of(u),
        ));
    }
}

impl Manga {
    /// A title known by its key, title and cover alone.
    pub fn summary(key: String, title: String, cover: Option<String>) -> (r: Manga)
        ensures
            r@ == summary(key@, title@, cover.deep_view()),
    {
        Manga {
            key,
            title,
            cover,
            description: None,
            authors: None,
            tags: None,
            status: MangaStatus::Unknown,
            content_rating: ContentRating::Unknown,
            viewer: Viewer::Unknown,
            chapters: None,
        }
    }
}

fn entry_of(u: &ListingUnit) -> (r: Option<Manga>)
    ensures
        r matches Some(m) ==> is_listed(*u) && m@ == summary_of(*u),
        r is None ==> !is_listed(*u),
{
    match &u.poster_href {
        Some(h) => {
            let chars = chars_of(h.as_str());
            let path = chars_of("/manga/");
            if occurs_here(&chars, &path, 0) {
                let key = string_of(&chars, path.len(), chars.len());
                let title = match &u.title {
                    Some(t) => t.clone(),
                    None => String::new(),
                };
                Some(Manga::summary(key, title, copy_text(&u.cover)))
            } else {
                None
            }
        },
        None => None,
    }
}

/// The results of one page of a search, and whether more pages follow.
pub open spec fn search_results(doc: ListingDocument) -> (Seq<MangaModel>, bool) {
    (listing_entries(doc.units@), doc.has_active_page)
}

impl MangafireSource {
    /// The titles that a results page lists, in document order, entries that
    /// name no title left out; more pages follow where the page has an active
    /// pagination item.
    pub fn get_search_manga_list(&self, doc: &ListingDocument) -> (r: MangaPageResult)
        ensures
            (r.entries@.map_values(|m: Manga| m@), r.has_next_page) == search_results(*doc),
    {
        let units = &doc.units;
        let mut entries: Vec<Manga> = Vec::new();
        let mut i: usize = 0;
        while i < units.len()
            invariant
                i <= units@.len(),
                entries@.map_values(|m: Manga| m@) == listing_entries(units@.take(i as int)),
            decreases units@.len() - i,
        {
            assert(units@.take(i as int + 1).drop_last() =~= units@.take(i as int));
            match entry_of(&units[i]) {
                Some(m) => {
                    entries.push(m);
                },
                None => {},
            }
            i = i + 1;
            assert(entries@.map_values(|m: Manga| m@) =~= listing_entries(units@.take(i as int)));
        }
        assert(units@.take(i as int) =~= units@);
        MangaPageResult { entries, has_next_page: doc.has_active_page }
    }
}

} // verus!
