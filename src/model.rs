use vstd::prelude::*;

verus! {

/// Publication state of a title.
#[derive(Clone, Copy, Debug, PartialEq, Eq, Structural)]
pub enum MangaStatus {
    Unknown,
    Ongoing,
    Completed,
    Cancelled,
    Hiatus,
}

/// Audience rating of a title; `Unknown` until its details are read.
#[derive(Clone, Copy, Debug, PartialEq, Eq, Structural)]
pub enum ContentRating {
    Unknown,
    Safe,
    Suggestive,
    NSFW,
}

/// How a title's pages are meant to be read.
#[derive(Clone, Copy, Debug, PartialEq, Eq, Structural)]
pub enum Viewer {
    Unknown,
    RightToLeft,
    Webtoon,
}

/// One chapter of a title.
#[derive(Clone, Debug)]
pub struct Chapter {
    /// Identifier relative to the owning title's reader path.
    pub key: String,
    pub title: Option<String>,
    /// Seconds since the Unix epoch.
    pub date_uploaded: Option<i64>,
    /// The link the chapter was found under.
    pub url: Option<String>,
}

/// A title: its summary fields and, once read, its details and chapters.
#[derive(Clone, Debug)]
pub struct Manga {
    /// Site-relative identifier, the last part of the title's path.
    pub key: String,
    pub title: String,
    pub cover: Option<String>,
    pub description: Option<String>,
    pub authors: Option<Vec<String>>,
    pub tags: Option<Vec<String>>,
    pub status: MangaStatus,
    pub content_rating: ContentRating,
    pub viewer: Viewer,
    pub chapters: Option<Vec<Chapter>>,
}

/// One page image of a chapter.
#[derive(Clone, Debug)]
pub struct Page {
    pub url: String,
}

/// One page of search results.
#[derive(Clone, Debug)]
pub struct MangaPageResult {
    pub entries: Vec<Manga>,
    pub has_next_page: bool,
}

/// A chapter as plain values.
pub struct ChapterModel {
    pub key: Seq<char>,
    pub title: Option<Seq<char>>,
    pub date_uploaded: Option<i64>,
    pub url: Option<Seq<char>>,
}

/// A title as plain values.
pub struct MangaModel {
    pub key: Seq<char>,
    pub title: Seq<char>,
    pub cover: Option<Seq<char>>,
    pub description: Option<Seq<char>>,
    pub authors: Option<Seq<Seq<char>>>,
    pub tags: Option<Seq<Seq<char>>>,
    pub status: MangaStatus,
    pub content_rating: ContentRating,
    pub viewer: Viewer,
    pub chapters: Option<Seq<ChapterModel>>,
}

impl View for Chapter {
    type V = ChapterModel;

    open spec fn view(&self) -> ChapterModel {
        ChapterModel {
            key: self.key@,
            title: self.title.deep_view(),
            date_uploaded: self.date_uploaded,
            url: self.url.deep_view(),
        }
    }
}

/// The plain values of a list of chapters.
pub open spec fn chapters_view(cs: Option<Vec<Chapter>>) -> Option<Seq<ChapterModel>> {
    match cs {
        Some(v) => Some(v@.map_values(|c: Chapter| c@)),
        None => None,
    }
}

impl View for Manga {
    type V = MangaModel;

    open spec fn view(&self) -> MangaModel {
        MangaModel {
            key: self.key@,
            title: self.title@,
            cover: self.cover.deep_view(),
            description: self.description.deep_view(),
            authors: self.authors.deep_view(),
            tags: self.tags.deep_view(),
            status: self.status,
            content_rating: self.content_rating,
            viewer: self.viewer,
            chapters: chapters_view(self.chapters),
        }
    }
}

impl View for Page {
    type V = Seq<char>;

    open spec fn view(&self) -> Seq<char> {
        self.url@
    }
}

/// The image addresses of a list of pages.
pub open spec fn page_urls_view(ps: Seq<Page>) -> Seq<Seq<char>> {
    ps.map_values(|p: Page| p@)
}

} // verus!
