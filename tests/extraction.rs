use mangafire::detail::{chapter_key_of, ChapterItem, DetailDocument};
use mangafire::listing::{ListingDocument, ListingUnit};
use mangafire::model::{ContentRating, Manga, MangaStatus, Viewer};
use mangafire::pages::{ImageAttrs, ReaderDocument};
use mangafire::search::{sort_token, FilterValue};
use mangafire::MangafireSource;

fn s(x: &str) -> String {
    x.to_string()
}

fn strings(xs: &[&str]) -> Vec<String> {
    xs.iter().map(|x| x.to_string()).collect()
}

fn unit(href: Option<&str>, title: Option<&str>, cover: Option<&str>) -> ListingUnit {
    ListingUnit {
        poster_href: href.map(s),
        title: title.map(s),
        cover: cover.map(s),
    }
}

fn detail_with_genres(genres: &[&str]) -> DetailDocument {
    DetailDocument {
        title: Some(s("One Piece")),
        cover: Some(s("https://img/cover.jpg")),
        description: Some(s("Pirates.")),
        status_label: Some(s("Releasing")),
        authors: Some(strings(&["Oda Eiichiro"])),
        genres: Some(strings(genres)),
        chapters: None,
    }
}

fn empty_detail() -> DetailDocument {
    DetailDocument {
        title: None,
        cover: None,
        description: None,
        status_label: None,
        authors: None,
        genres: None,
        chapters: None,
    }
}

fn item(href: Option<&str>, title: Option<&str>, datetime: Option<&str>) -> ChapterItem {
    ChapterItem {
        href: href.map(s),
        title: title.map(s),
        datetime: datetime.map(s),
    }
}

fn img(data_src: Option<&str>, src: Option<&str>, data_url: Option<&str>) -> ImageAttrs {
    ImageAttrs {
        data_src: data_src.map(s),
        src: src.map(s),
        data_url: data_url.map(s),
    }
}

fn reader(scripts: &[&str], images: Vec<ImageAttrs>) -> ReaderDocument {
    ReaderDocument {
        scripts: strings(scripts),
        images,
    }
}

fn page_urls(doc: &ReaderDocument) -> Vec<String> {
    MangafireSource::new()
        .get_page_list(doc)
        .into_iter()
        .map(|p| p.url)
        .collect()
}

fn refresh(manga: Manga, doc: &DetailDocument, details: bool, chapters: bool) -> Manga {
    MangafireSource::new().get_manga_update(manga, doc, details, chapters)
}

#[test]
fn search_url_plain_page() {
    let src = MangafireSource::new();
    assert_eq!(src.search_url(&None, 1, &vec![]), "https://mangafire.to/filter?page=1");
    assert_eq!(src.search_url(&None, 120, &vec![]), "https://mangafire.to/filter?page=120");
    assert_eq!(src.search_url(&None, 0, &vec![]), "https://mangafire.to/filter?page=0");
    assert_eq!(src.search_url(&None, -7, &vec![]), "https://mangafire.to/filter?page=-7");
    assert_eq!(
        src.search_url(&None, i32::MIN, &vec![]),
        "https://mangafire.to/filter?page=-2147483648"
    );
}

#[test]
fn search_url_one_parameter_per_selection_in_order() {
    let src = MangafireSource::new();
    let filters = vec![
        FilterValue::Select { id: s("type"), value: s("manhwa") },
        FilterValue::Select { id: s("status"), value: s("") },
        FilterValue::MultiSelect { id: s("genre"), included: strings(&["1", "7"]) },
        FilterValue::MultiSelect { id: s("language"), included: vec![] },
        FilterValue::Other,
        FilterValue::Sort { id: s("sort"), index: 2 },
        FilterValue::Select { id: s("year"), value: s("2023") },
    ];
    assert_eq!(
        src.search_url(&Some(s("one piece")), 3, &filters),
        "https://mangafire.to/filter?page=3&keyword=one piece&type=manhwa&genre[]=1&genre[]=7&sort=name_az&year=2023"
    );
}

#[test]
fn search_url_empty_selections_add_nothing() {
    let src = MangafireSource::new();
    let filters = vec![
        FilterValue::Select { id: s("type"), value: s("") },
        FilterValue::MultiSelect { id: s("genre"), included: vec![] },
        FilterValue::Sort { id: s("sort"), index: 6 },
        FilterValue::Sort { id: s("sort"), index: -1 },
    ];
    assert_eq!(src.search_url(&None, 2, &filters), "https://mangafire.to/filter?page=2");
}

#[test]
fn sort_tokens_by_index() {
    let expected = [
        "recently_updated",
        "recently_added",
        "name_az",
        "release_date",
        "most_viewed",
        "score",
    ];
    for (i, t) in expected.iter().enumerate() {
        assert_eq!(sort_token(i as i32), Some(*t));
    }
    assert_eq!(sort_token(6), None);
    assert_eq!(sort_token(-1), None);
}

#[test]
fn listing_skips_units_without_poster_link() {
    let doc = ListingDocument {
        units: vec![
            unit(Some("/manga/one-piece.dkw"), Some("One Piece"), Some("https://img/op.jpg")),
            unit(None, Some("No poster"), Some("https://img/x.jpg")),
            unit(Some("/manga/berserk.xyz"), None, None),
            unit(Some("/read/other/ch-1"), Some("Wrong path"), None),
            unit(Some("/manga/vagabond.abc"), Some("Vagabond"), Some("https://img/v.jpg")),
        ],
        has_active_page: true,
    };
    let r = MangafireSource::new().get_search_manga_list(&doc);
    assert!(r.has_next_page);
    assert_eq!(r.entries.len(), 3);
    assert_eq!(r.entries[0].key, "one-piece.dkw");
    assert_eq!(r.entries[0].title, "One Piece");
    assert_eq!(r.entries[0].cover.as_deref(), Some("https://img/op.jpg"));
    assert_eq!(r.entries[1].key, "berserk.xyz");
    assert_eq!(r.entries[1].title, "");
    assert_eq!(r.entries[1].cover, None);
    assert_eq!(r.entries[2].key, "vagabond.abc");
    assert_eq!(r.entries[2].status, MangaStatus::Unknown);
    assert_eq!(r.entries[2].content_rating, ContentRating::Unknown);
    assert!(r.entries[2].chapters.is_none());
}

#[test]
fn listing_empty_page() {
    let doc = ListingDocument { units: vec![], has_active_page: false };
    let r = MangafireSource::new().get_search_manga_list(&doc);
    assert!(r.entries.is_empty());
    assert!(!r.has_next_page);
}

#[test]
fn details_manhwa_horror_is_safe_webtoon() {
    let doc = detail_with_genres(&["Manhwa", "Horror"]);
    let m = refresh(Manga::summary(s("op"), s(""), None), &doc, true, false);
    assert_eq!(m.content_rating, ContentRating::Safe);
    assert_eq!(m.viewer, Viewer::Webtoon);
}

#[test]
fn details_manga_ecchi_is_suggestive_right_to_left() {
    let doc = detail_with_genres(&["Manga", "Ecchi"]);
    let m = refresh(Manga::summary(s("op"), s(""), None), &doc, true, false);
    assert_eq!(m.content_rating, ContentRating::Suggestive);
    assert_eq!(m.viewer, Viewer::RightToLeft);
}

#[test]
fn details_adult_tags_win_over_ecchi() {
    for adult in ["Adult", "Mature", "Smut"] {
        let doc = detail_with_genres(&["Ecchi", adult, "Manhua"]);
        let m = refresh(Manga::summary(s("op"), s(""), None), &doc, true, false);
        assert_eq!(m.content_rating, ContentRating::NSFW);
        assert_eq!(m.viewer, Viewer::Webtoon);
    }
    let doc = detail_with_genres(&["Manhwa", "Manga"]);
    let m = refresh(Manga::summary(s("op"), s(""), None), &doc, true, false);
    assert_eq!(m.viewer, Viewer::RightToLeft);
}

#[test]
fn details_fields_are_read() {
    let doc = detail_with_genres(&["Action"]);
    let m = refresh(Manga::summary(s("op"), s("old"), None), &doc, true, false);
    assert_eq!(m.key, "op");
    assert_eq!(m.title, "One Piece");
    assert_eq!(m.cover.as_deref(), Some("https://img/cover.jpg"));
    assert_eq!(m.description.as_deref(), Some("Pirates."));
    assert_eq!(m.status, MangaStatus::Ongoing);
    assert_eq!(m.authors, Some(strings(&["Oda Eiichiro"])));
    assert_eq!(m.tags, Some(strings(&["Action"])));
    assert_eq!(m.content_rating, ContentRating::Safe);
    assert_eq!(m.viewer, Viewer::Unknown);
    assert!(m.chapters.is_none());
}

#[test]
fn details_missing_elements_take_defaults() {
    let m = refresh(Manga::summary(s("op"), s("old"), Some(s("c"))), &empty_detail(), true, false);
    assert_eq!(m.title, "");
    assert_eq!(m.cover, None);
    assert_eq!(m.description, None);
    assert_eq!(m.status, MangaStatus::Unknown);
    assert_eq!(m.authors, None);
    assert_eq!(m.tags, None);
    assert_eq!(m.content_rating, ContentRating::Safe);
    assert_eq!(m.viewer, Viewer::Unknown);
}

#[test]
fn status_labels_match_exactly() {
    let cases = [
        ("Completed", MangaStatus::Completed),
        ("Releasing", MangaStatus::Ongoing),
        ("On Hiatus", MangaStatus::Hiatus),
        ("Discontinued", MangaStatus::Cancelled),
        ("completed", MangaStatus::Unknown),
        ("Completed ", MangaStatus::Unknown),
        ("", MangaStatus::Unknown),
    ];
    for (label, status) in cases {
        let mut doc = empty_detail();
        doc.status_label = Some(s(label));
        let m = refresh(Manga::summary(s("k"), s(""), None), &doc, true, false);
        assert_eq!(m.status, status, "label {:?}", label);
    }
}

#[test]
fn chapter_key_strips_reader_prefix() {
    assert_eq!(chapter_key_of("/read/abc/ch-1", "abc"), "ch-1");
    assert_eq!(chapter_key_of("/read/xyz/ch-1", "abc"), "/read/xyz/ch-1");
    assert_eq!(chapter_key_of("https://mangafire.to/read/abc/ch-1", "abc"), "https://mangafire.to/read/abc/ch-1");
    assert_eq!(chapter_key_of("/read/abc/", "abc"), "");
    assert_eq!(chapter_key_of("/read/abc", "abc"), "/read/abc");
}

#[test]
fn chapters_are_read_in_list_order() {
    let mut doc = empty_detail();
    doc.chapters = Some(vec![
        item(Some("/read/abc/en/chapter-2"), Some("Chapter 2"), Some("2024-01-02T03:04:05Z")),
        item(None, Some("No link"), Some("2024-01-02T03:04:05Z")),
        item(Some("/read/abc/en/chapter-1"), None, Some("2024-01-02T03:04:05+01:00")),
        item(Some("/other/path"), Some("Odd"), Some("yesterday")),
        item(Some("/read/abc/en/chapter-0"), Some("Chapter 0"), None),
    ]);
    let m = refresh(Manga::summary(s("abc"), s("Title"), None), &doc, false, true);
    assert_eq!(m.title, "Title");
    let cs = m.chapters.expect("chapters are read");
    assert_eq!(cs.len(), 4);
    assert_eq!(cs[0].key, "en/chapter-2");
    assert_eq!(cs[0].title.as_deref(), Some("Chapter 2"));
    assert_eq!(cs[0].date_uploaded, Some(1704164645));
    assert_eq!(cs[0].url.as_deref(), Some("/read/abc/en/chapter-2"));
    assert_eq!(cs[1].key, "en/chapter-1");
    assert_eq!(cs[1].title, None);
    assert_eq!(cs[1].date_uploaded, Some(1704161045));
    assert_eq!(cs[2].key, "/other/path");
    assert_eq!(cs[2].date_uploaded, None);
    assert_eq!(cs[2].url.as_deref(), Some("/other/path"));
    assert_eq!(cs[3].key, "en/chapter-0");
    assert_eq!(cs[3].date_uploaded, None);
}

#[test]
fn chapters_absent_without_list() {
    let m = refresh(Manga::summary(s("abc"), s(""), None), &empty_detail(), false, true);
    assert!(m.chapters.is_none());
}

#[test]
fn refresh_without_flags_changes_nothing() {
    let mut doc = detail_with_genres(&["Manga"]);
    doc.chapters = Some(vec![item(Some("/read/abc/c1"), Some("C1"), None)]);
    let before = Manga::summary(s("abc"), s("Kept"), Some(s("cover")));
    let after = refresh(before.clone(), &doc, false, false);
    assert_eq!(format!("{:?}", after), format!("{:?}", before));
}

#[test]
fn refresh_twice_gives_identical_records() {
    let mut doc = detail_with_genres(&["Manhwa", "Smut"]);
    doc.chapters = Some(vec![
        item(Some("/read/abc/c2"), Some("C2"), Some("2023-05-06T07:08:09Z")),
        item(Some("/read/abc/c1"), Some("C1"), None),
    ]);
    let start = Manga::summary(s("abc"), s(""), None);
    let once = refresh(start.clone(), &doc, true, true);
    let again = refresh(start, &doc, true, true);
    let twice = refresh(once.clone(), &doc, true, true);
    assert_eq!(format!("{:?}", once), format!("{:?}", again));
    assert_eq!(format!("{:?}", once), format!("{:?}", twice));
}

#[test]
fn pages_from_images_array_ignore_markup() {
    let doc = reader(
        &["var x = 1;", "var images = [\"a.jpg\",\"b.jpg\"];"],
        vec![img(Some("x.jpg"), None, None)],
    );
    assert_eq!(page_urls(&doc), strings(&["a.jpg", "b.jpg"]));
}

#[test]
fn pages_from_markup_prefer_data_src() {
    let doc = reader(
        &["console.log('no arrays here');"],
        vec![
            img(Some("x.jpg"), Some("placeholder.gif"), None),
            img(None, None, None),
            img(Some("y.jpg"), None, Some("z.jpg")),
            img(None, Some("s.jpg"), Some("u.jpg")),
            img(None, None, Some("u2.jpg")),
        ],
    );
    assert_eq!(page_urls(&doc), strings(&["x.jpg", "y.jpg", "s.jpg", "u2.jpg"]));
}

#[test]
fn pages_from_markup_without_scripts() {
    let doc = reader(&[], vec![img(Some("x.jpg"), None, None), img(Some("x.jpg"), None, None)]);
    assert_eq!(page_urls(&doc), strings(&["x.jpg", "x.jpg"]));
}

#[test]
fn pages_nothing_found() {
    let doc = reader(&["let a = 1;"], vec![img(None, None, None)]);
    assert!(page_urls(&doc).is_empty());
}

#[test]
fn pages_array_items_are_unquoted_and_unescaped() {
    let doc = reader(
        &["images=[ 'https:\\/\\/cdn\\/1.png' , \"2.png\",, plain\\/3.png , \"\" ]"],
        vec![],
    );
    assert_eq!(
        page_urls(&doc),
        strings(&["https://cdn/1.png", "2.png", "plain/3.png", ""])
    );
}

#[test]
fn pages_spacing_variants_of_assignment() {
    let doc = reader(&["images =[\"a\"]"], vec![]);
    assert_eq!(page_urls(&doc), strings(&["a"]));
    let doc = reader(&["images= [\"b\"]"], vec![]);
    assert_eq!(page_urls(&doc), strings(&["b"]));
    let doc = reader(&["images  =  [\"c\"]"], vec![img(Some("m.jpg"), None, None)]);
    assert_eq!(page_urls(&doc), strings(&["m.jpg"]));
}

#[test]
fn pages_empty_images_array_falls_through() {
    let doc = reader(&["images = [];", "pageImages = [\"p1\", \"p2\"]"], vec![]);
    assert_eq!(page_urls(&doc), strings(&["p1", "p2"]));
}

#[test]
fn pages_chapter_images_under_first_cdn() {
    let doc = reader(
        &["chapterImages = [\"c/1.jpg\",\"c/2.jpg\"]", "cdns = [\"https://cdn.one\", \"https://cdn.two\"]"],
        vec![img(Some("m.jpg"), None, None)],
    );
    assert_eq!(
        page_urls(&doc),
        strings(&["https://cdn.one/c/1.jpg", "https://cdn.one/c/2.jpg"])
    );
}

#[test]
fn pages_chapter_images_without_cdn() {
    let doc = reader(&["chapterImages = [\"https://a/1.jpg\"]"], vec![]);
    assert_eq!(page_urls(&doc), strings(&["https://a/1.jpg"]));
}

#[test]
fn pages_scripts_are_joined_by_line_breaks() {
    let doc = reader(&["var images = [\"a\",", "\"b\"]"], vec![]);
    assert_eq!(page_urls(&doc), strings(&["a", "b"]));
}

#[test]
fn pages_unclosed_array_tries_next_spelling() {
    let doc = reader(&["images=[\"x\"]; images = [\"a\""], vec![]);
    assert_eq!(page_urls(&doc), strings(&["x"]));
    let doc = reader(&["images = [\"a\", images=[\"b\"]"], vec![]);
    assert_eq!(page_urls(&doc), strings(&["a", "images=[\"b\""]));
    let doc = reader(&["images = [\"a\""], vec![img(None, Some("m.jpg"), None)]);
    assert_eq!(page_urls(&doc), strings(&["m.jpg"]));
}

#[test]
fn addresses_of_pages() {
    let src = MangafireSource::new();
    assert_eq!(src.manga_url("one-piece.dkw"), "https://mangafire.to/manga/one-piece.dkw");
    assert_eq!(
        src.page_list_url("one-piece.dkw", "en/chapter-1"),
        "https://mangafire.to/read/one-piece.dkw/en/chapter-1"
    );
}
