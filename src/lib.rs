//! Extraction of listings, title details, chapter lists and page images from
//! the pages of one manga site, with the addresses those pages are fetched
//! from. Fetching is left to the caller: each step takes what was read of a
//! page as plain values.
use vstd::prelude::*;

pub mod detail;
pub mod listing;
pub mod model;
pub mod pages;
pub mod search;
pub mod text;

use crate::text::{append_chars, string_of};

verus! {

/// The site's origin.
pub const BASE_URL: &'static str = "https://mangafire.to";

/// The browser identity the site expects on every request.
pub const USER_AGENT: &'static str = "Mozilla/5.0 (Windows NT 10.0; Win64; x64) AppleWebKit/537.36 (KHTML, like Gecko) Chrome/120.0.0.0 Safari/537.36";

/// The content source for the site.
pub struct MangafireSource;

/// The address of a title's page.
pub open spec fn manga_url_of(key: Seq<char>) -> Seq<char> {
    BASE_URL@ + "/manga/"@ + key
}

/// The address of a chapter's reader page.
pub open spec fn reader_url_of(manga_key: Seq<char>, chapter_key: Seq<char>) -> Seq<char> {
    BASE_URL@ + "/read/"@ + manga_key + "/"@ + chapter_key
}

impl MangafireSource {
    pub fn new() -> Self {
        MangafireSource
    }

    /// The address of the page of the title `key`; it is also the referrer
    /// of that title's reader pages.
    pub fn manga_url(&self, key: &str) -> (r: String)
        ensures
            r@ == manga_url_of(key@),
    {
        let mut v: Vec<char> = Vec::new();
        append_chars(&mut v, BASE_URL);
        append_chars(&mut v, "/manga/");
        append_chars(&mut v, key);
        string_of(&v, 0, v.len())
    }

    /// The address of the reader page of chapter `chapter_key` of the title
    /// `manga_key`.
    pub fn page_list_url(&self, manga_key: &str, chapter_key: &str) -> (r: String)
        ensures
            r@ == reader_url_of(manga_key@, chapter_key@),
    {
        let mut v: Vec<char> = Vec::new();
        append_chars(&mut v, BASE_URL);
        append_chars(&mut v, "/read/");
        append_chars(&mut v, manga_key);
        append_chars(&mut v, "/");
        append_chars(&mut v, chapter_key);
        string_of(&v, 0, v.len())
    }
}

} // verus!
