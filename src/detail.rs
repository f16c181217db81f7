use vstd::prelude::*;

use crate::model::{Chapter, ChapterModel, ContentRating, Manga, MangaModel, MangaStatus, Viewer};
use crate::text::{
    chars_of, concat_chars, copy_text, copy_texts, occurs_at, occurs_here, same_text, string_of,
};
use crate::MangafireSource;

verus! {

/// What `DateTime::parse_from_rfc3339` makes of a text, as seconds since the
/// Unix epoch; none where the text is not an RFC 3339 timestamp.
pub uninterp spec fn rfc3339_seconds(s: Seq<char>) -> Option<i64>;

/// Relies on chrono's `DateTime::parse_from_rfc3339`, whose result depends on
/// the text alone, read as seconds through `DateTime::timestamp`; a parse
/// error gives none.
#[verifier::external_body]
fn parse_rfc3339_seconds(s: &str) -> (r: Option<i64>)
    ensures
        r == rfc3339_seconds(s@),
{
    chrono::DateTime::parse_from_rfc3339(s).ok().map(|d| d.timestamp())
}

/// One entry of a title's chapter list.
#[derive(Clone, Debug)]
pub struct ChapterItem {
    /// The `href` of the entry's link; none where it has no link or the link
    /// no `href`.
    pub href: Option<String>,
    /// The text of the link.
    pub title: Option<String>,
    /// The `datetime` of the entry's `time` element.
    pub datetime: Option<String>,
}

/// What the detail extractor reads of a title's page.
#[derive(Clone, Debug)]
pub struct DetailDocument {
    pub title: Option<String>,
    pub cover: Option<String>,
    pub description: Option<String>,
    /// The text of the status label.
    pub status_label: Option<String>,
    /// The texts of the author links; none where there are no such elements.
    pub authors: Option<Vec<String>>,
    /// The texts of the genre links; none where there are no such elements.
    pub genres: Option<Vec<String>>,
    /// The chapter list's entries; none where there is no list.
    pub chapters: Option<Vec<ChapterItem>>,
}

/// The status that a label stands for, by exact match.
pub open spec fn status_of(label: Option<Seq<char>>) -> MangaStatus {
    match label {
        Some(l) => if l == "Completed"@ {
            MangaStatus::Completed
        } else if l == "Releasing"@ {
            MangaStatus::Ongoing
        } else if l == "On Hiatus"@ {
            MangaStatus::Hiatus
        } else if l == "Discontinued"@ {
            MangaStatus::Cancelled
        } else {
            MangaStatus::Unknown
        },
        None => MangaStatus::Unknown,
    }
}

/// Whether `tags` holds the tag `t`.
pub open spec fn has_tag(tags: Seq<Seq<char>>, t: Seq<char>) -> bool {
    exists|i: int| 0 <= i < tags.len() && tags[i] == t
}

/// The rating that the tags call for: an adult tag first, then `Ecchi`.
pub open spec fn rating_of(tags: Seq<Seq<char>>) -> ContentRating {
    if has_tag(tags, "Adult"@) || has_tag(tags, "Mature"@) || has_tag(tags, "Smut"@) {
        ContentRating::NSFW
    } else if has_tag(tags, "Ecchi"@) {
        ContentRating::Suggestive
    } else {
        ContentRating::Safe
    }
}

/// The reading direction that the tags call for: `Manga` first, then the
/// long-strip formats.
pub open spec fn viewer_of(tags: Seq<Seq<char>>) -> Viewer {
    if has_tag(tags, "Manga"@) {
        Viewer::RightToLeft
    } else if has_tag(tags, "Manhwa"@) || has_tag(tags, "Manhua"@) {
        Viewer::Webtoon
    } else {
        Viewer::Unknown
    }
}

/// The start of the links to a title's chapters.
pub open spec fn chapter_prefix(manga_key: Seq<char>) -> Seq<char> {
    "/read/"@ + manga_key + "/"@
}

/// The key of the chapter behind `href`: what follows the title's chapter
/// prefix, or the whole `href` where it does not start with it.
pub open spec fn chapter_key(href: Seq<char>, manga_key: Seq<char>) -> Seq<char> {
    let p = chapter_prefix(manga_key);
    if occurs_at(href, p, 0) {
        href.subrange(p.len() as int, href.len() as int)
    } else {
        href
    }
}

/// The chapter that an entry stands for; none for an entry without a link.
pub open spec fn chapter_of(item: ChapterItem, manga_key: Seq<char>) -> Option<ChapterModel> {
    match item.href {
        Some(h) => Some(
            ChapterModel {
                key: chapter_key(h@, manga_key),
                title: item.title.deep_view(),
                date_uploaded: match item.datetime {
                    Some(d) => rfc3339_seconds(d@),
                    None => None,
                },
                url: Some(h@),
            },
        ),
        None => None,
    }
}

/// The chapters of the entries, in order, entries without a link left out.
pub open spec fn chapters_of(items: Seq<ChapterItem>, manga_key: Seq<char>) -> Seq<ChapterModel>
    decreases items.len(),
{
    if items.len() == 0 {
        Seq::empty()
    } else {
        let rest = chapters_of(items.drop_last(), manga_key);
        match chapter_of(items.last(), manga_key) {
            Some(c) => rest.push(c),
            None => rest,
        }
    }
}

/// The tags as a list, none read as no tags.
pub open spec fn tag_list(tags: Option<Seq<Seq<char>>>) -> Seq<Seq<char>> {
    match tags {
        Some(t) => t,
        None => Seq::empty(),
    }
}

/// `m` with its details read from `doc`.
pub open spec fn with_details(m: MangaModel, doc: DetailDocument) -> MangaModel {
    let tags = doc.genres.deep_view();
    MangaModel {
        title: match doc.title {
            Some(t) => t@,
            None => Seq::empty(),
        },
        cover: doc.cover.deep_view(),
        description: doc.description.deep_view(),
        status: status_of(doc.status_label.deep_view()),
        authors: doc.authors.deep_view(),
        tags: tags,
        content_rating: rating_of(tag_list(tags)),
        viewer: viewer_of(tag_list(tags)),
        ..m
    }
}

/// `m` with its chapters read from `doc`.
pub open spec fn with_chapters(m: MangaModel, doc: DetailDocument) -> MangaModel {
    MangaModel {
        chapters: match doc.chapters {
            Some(items) => Some(chapters_of(items@, m.key)),
            None => None,
        },
        ..m
    }
}

/// `m` refreshed from its page `doc`: details where asked for, then chapters
/// where asked for; unchanged where neither is.
pub open spec fn refreshed(m: MangaModel, doc: DetailDocument, needs_details: bool, needs_chapters: bool) -> MangaModel {
    let d = if needs_details {
        with_details(m, doc)
    } else {
        m
    };
    if needs_chapters {
        with_chapters(d, doc)
    } else {
        d
    }
}

/// Refreshing a second time from the same page, with the same flags, changes
/// nothing.
pub proof fn refresh_is_idempotent(m: MangaModel, doc: DetailDocument, needs_details: bool, needs_chapters: bool)
    ensures
        refreshed(refreshed(m, doc, needs_details, needs_chapters), doc, needs_details, needs_chapters)
            == refreshed(m, doc, needs_details, needs_chapters),
{
}

/// The status that a label stands for: `Completed`, `Releasing`, `On Hiatus`
/// and `Discontinued`, matched exactly; anything else is unknown.
pub fn status_from_label(label: &Option<String>) -> (r: MangaStatus)
    ensures
        r == status_of(label.deep_view()),
{
    match label {
        Some(l) => {
            if same_text(l.as_str(), "Completed") {
                MangaStatus::Completed
            } else if same_text(l.as_str(), "Releasing") {
                MangaStatus::Ongoing
            } else if same_text(l.as_str(), "On Hiatus") {
                MangaStatus::Hiatus
            } else if same_text(l.as_str(), "Discontinued") {
                MangaStatus::Cancelled
            } else {
                MangaStatus::Unknown
            }
        },
        None => MangaStatus::Unknown,
    }
}

/// Whether `tags` holds the tag `t`.
pub fn has_tag_in(tags: &Vec<String>, t: &str) -> (r: bool)
    ensures
        r == has_tag(tags.deep_view(), t@),
{
    let mut i: usize = 0;
    while i < tags.len()
        invariant
            i <= tags@.len(),
            forall|j: int| 0 <= j < i ==> tags.deep_view()[j] != t@,
        decreases tags@.len() - i,
    {
        if same_text(tags[i].as_str(), t) {
            assert(tags.deep_view()[i as int] == t@);
            return true;
        }
        i = i + 1;
    }
    false
}

/// The rating that the tags call for: `NSFW` where one of `Adult`, `Mature`,
/// `Smut` is there, else `Suggestive` where `Ecchi` is, else `Safe`.
pub fn content_rating_for(tags: &Vec<String>) -> (r: ContentRating)
    ensures
        r == rating_of(tags.deep_view()),
{
    if has_tag_in(tags, "Adult") || has_tag_in(tags, "Mature") || has_tag_in(tags, "Smut") {
        ContentRating::NSFW
    } else if has_tag_in(tags, "Ecchi") {
        ContentRating::Suggestive
    } else {
        ContentRating::Safe
    }
}

/// The reading direction that the tags call for: right to left where `Manga`
/// is there, else a long strip where `Manhwa` or `Manhua` is, else unknown.
pub fn viewer_for(tags: &Vec<String>) -> (r: Viewer)
    ensures
        r == viewer_of(tags.deep_view()),
{
    if has_tag_in(tags, "Manga") {
        Viewer::RightToLeft
    } else if has_tag_in(tags, "Manhwa") || has_tag_in(tags, "Manhua") {
        Viewer::Webtoon
    } else {
        Viewer::Unknown
    }
}

/// The key of the chapter behind `href`, relative to the title `manga_key`.
pub fn chapter_key_of(href: &str, manga_key: &str) -> (r: String)
    ensures
        r@ == chapter_key(href@, manga_key@),
{
    let h = chars_of(href);
    let p = concat_chars(&concat_chars(&chars_of("/read/"), &chars_of(manga_key)), &chars_of("/"));
    if occurs_here(&h, &p, 0) {
        string_of(&h, p.len(), h.len())
    } else {
        assert(h@.subrange(0, h@.len() as int) =~= h@);
        string_of(&h, 0, h.len())
    }
}

fn chapter_from(item: &ChapterItem, manga_key: &str) -> (r: Option<Chapter>)
    ensures
        r matches Some(c) ==> chapter_of(*item, manga_key@) == Some(c@),
        r is None ==> chapter_of(*item, manga_key@) is None,
{
    match &item.href {
        Some(h) => {
            let date_uploaded = match &item.datetime {
                Some(d) => parse_rfc3339_seconds(d.as_str()),
                None => None,
            };
            Some(
                Chapter {
                    key: chapter_key_of(h.as_str(), manga_key),
                    title: copy_text(&item.title),
                    date_uploaded,
                    url: Some(h.clone()),
                },
            )
        },
        None => None,
    }
}

/// The chapters of a title's chapter list, in list order; entries without a
/// link are left out.
pub fn chapters_from(items: &Vec<ChapterItem>, manga_key: &str) -> (r: Vec<Chapter>)
    ensures
        r@.map_values(|c: Chapter| c@) == chapters_of(items@, manga_key@),
{
    let mut r: Vec<Chapter> = Vec::new();
    let mut i: usize = 0;
    while i < items.len()
        invariant
            i <= items@.len(),
            r@.map_values(|c: Chapter| c@) == chapters_of(items@.take(i as int), manga_key@),
        decreases items@.len() - i,
    {
        assert(items@.take(i as int + 1).drop_last() =~= items@.take(i as int));
        match chapter_from(&items[i], manga_key) {
            Some(c) => {
                r.push(c);
            },
            None => {},
        }
        i = i + 1;
        assert(r@.map_values(|c: Chapter| c@) =~= chapters_of(items@.take(i as int), manga_key@));
    }
    assert(items@.take(i as int) =~= items@);
    r
}

fn read_details(manga: &mut Manga, doc: &DetailDocument)
    ensures
        final(manga)@ == with_details(old(manga)@, *doc),
{
    manga.title = match &doc.title {
        Some(t) => t.clone(),
        None => String::new(),
    };
    manga.cover = copy_text(&doc.cover);
    manga.description = copy_text(&doc.description);
    manga.status = status_from_label(&doc.status_label);
    manga.authors = match &doc.authors {
        Some(v) => Some(copy_texts(v)),
        None => None,
    };
    let (rating, viewer) = match &doc.genres {
        Some(v) => (content_rating_for(v), viewer_for(v)),
        None => {
            let none: Vec<String> = Vec::new();
            assert(none.deep_view() =~= Seq::<Seq<char>>::empty());
            (content_rating_for(&none), viewer_for(&none))
        },
    };
    manga.tags = match &doc.genres {
        Some(v) => Some(copy_texts(v)),
        None => None,
    };
    manga.content_rating = rating;
    manga.viewer = viewer;
}

impl MangafireSource {
    /// `manga` refreshed from its page `doc`: where `needs_details` is set
    /// its title, cover, description, status, authors and tags are read from
    /// the page and its rating and reading direction derived from the tags;
    /// where `needs_chapters` is set its chapter list is read from the page.
    /// Nothing else changes, and with neither flag nothing does.
    pub fn get_manga_update(
        &self,
        manga: Manga,
        doc: &DetailDocument,
        needs_details: bool,
        needs_chapters: bool,
    ) -> (r: Manga)
        ensures
            r@ == refreshed(manga@, *doc, needs_details, needs_chapters),
    {
        let mut manga = manga;
        if needs_details {
            read_details(&mut manga, doc);
        }
        if needs_chapters {
            manga.chapters = match &doc.chapters {
                Some(items) => Some(chapters_from(items, manga.key.as_str())),
                None => None,
            };
        }
        manga
    }
}

} // verus!
