use vstd::prelude::*;

use crate::model::{page_urls_view, Page};
use crate::MangafireSource;
use crate::text::{
    append_chars, chars_of, concat_chars, find_from, find_in, trim, trimmed, unescape, unescaped,
};
use vstd::string::StringExecFns;

verus! {

/// The parts of `s` between commas; one more than there are commas.
pub open spec fn split_commas(s: Seq<char>) -> Seq<Seq<char>>
    decreases s.len(),
{
    if s.len() == 0 {
        seq![Seq::empty()]
    } else {
        let parts = split_commas(s.drop_last());
        if s.last() == ',' {
            parts.push(Seq::empty())
        } else {
            parts.update(parts.len() - 1, parts.last().push(s.last()))
        }
    }
}

/// Whether `t` starts and ends with the same quote mark, single or double.
pub open spec fn is_quoted(t: Seq<char>) -> bool {
    t.len() >= 2 && ((t[0] == '"' && t.last() == '"') || (t[0] == '\'' && t.last() == '\''))
}

/// The value that one comma-separated part of an array literal stands for:
/// trimmed, unquoted and unescaped; none for a blank part.
pub open spec fn array_item(part: Seq<char>) -> Option<Seq<char>> {
    let t = trim(part);
    if is_quoted(t) {
        Some(unescape(t.subrange(1, t.len() - 1)))
    } else if t.len() > 0 {
        Some(unescape(t))
    } else {
        None
    }
}

/// The values of the parts, in order, blank parts left out.
pub open spec fn array_items(parts: Seq<Seq<char>>) -> Seq<Seq<char>>
    decreases parts.len(),
{
    if parts.len() == 0 {
        Seq::empty()
    } else {
        let rest = array_items(parts.drop_last());
        match array_item(parts.last()) {
            Some(t) => rest.push(t),
            None => rest,
        }
    }
}

/// The ways an assignment to `name` is accepted, in the order they are tried.
pub open spec fn assignment_patterns(name: Seq<char>) -> Seq<Seq<char>> {
    seq![name + " = ["@, name + "=["@, name + " =["@, name + "= ["@]
}

/// The array assigned by the first of `pats`, from `k` on, that occurs in
/// `content` with a `]` after it.
pub open spec fn array_after(content: Seq<char>, pats: Seq<Seq<char>>, k: int) -> Seq<Seq<char>>
    decreases pats.len() - k,
{
    if k < 0 || k >= pats.len() {
        Seq::empty()
    } else {
        match find_from(content, pats[k], 0) {
            Some(i) => {
                let open = i + pats[k].len();
                match find_from(content, seq![']'], open) {
                    Some(j) => array_items(split_commas(content.subrange(open, j))),
                    None => array_after(content, pats, k + 1),
                }
            },
            None => array_after(content, pats, k + 1),
        }
    }
}

/// The values of the array that `content` assigns to the variable `name`.
pub open spec fn script_array(content: Seq<char>, name: Seq<char>) -> Seq<Seq<char>> {
    array_after(content, assignment_patterns(name), 0)
}

proof fn lemma_split_nonempty(s: Seq<char>)
    ensures
        split_commas(s).len() >= 1,
    decreases s.len(),
{
    if s.len() > 0 {
        lemma_split_nonempty(s.drop_last());
    }
}

fn item_of(v: &Vec<char>, lo: usize, hi: usize) -> (r: Option<String>)
    requires
        lo <= hi <= v@.len(),
    ensures
        r.deep_view() == array_item(v@.subrange(lo as int, hi as int)),
{
    let t = trimmed(v, lo, hi);
    let n = t.len();
    if n >= 2 && ((t[0] == '"' && t[n - 1] == '"') || (t[0] == '\'' && t[n - 1] == '\'')) {
        Some(unescaped(&t, 1, n - 1))
    } else if n > 0 {
        assert(t@.subrange(0, n as int) =~= t@);
        Some(unescaped(&t, 0, n))
    } else {
        None
    }
}

/// The values of the comma-separated parts of `v` from `lo` up to `hi`.
fn items_between(v: &Vec<char>, lo: usize, hi: usize) -> (r: Vec<String>)
    requires
        lo <= hi <= v@.len(),
    ensures
        r.deep_view() == array_items(split_commas(v@.subrange(lo as int, hi as int))),
{
    let mut r: Vec<String> = Vec::new();
    let mut start = lo;
    let mut i = lo;
    while i < hi
        invariant
            lo <= start <= i <= hi <= v@.len(),
            r.deep_view() == array_items(split_commas(v@.subrange(lo as int, i as int)).drop_last()),
            split_commas(v@.subrange(lo as int, i as int)).last() == v@.subrange(start as int, i as int),
        decreases hi - i,
    {
        let ghost before = split_commas(v@.subrange(lo as int, i as int));
        let ghost seen = v@.subrange(lo as int, i as int + 1);
        proof {
            lemma_split_nonempty(v@.subrange(lo as int, i as int));
            assert(seen.drop_last() =~= v@.subrange(lo as int, i as int));
        }
        if v[i] == ',' {
            let item = item_of(v, start, i);
            assert(before =~= before.drop_last().push(before.last()));
            match item {
                Some(t) => {
                    r.push(t);
                    assert(r.deep_view() =~= array_items(before));
                },
                None => {},
            }
            assert(split_commas(seen).drop_last() =~= before);
            start = i + 1;
            assert(split_commas(seen).last() =~= v@.subrange(start as int, i as int + 1));
        } else {
            assert(split_commas(seen).drop_last() =~= before.drop_last());
            assert(split_commas(seen).last() =~= v@.subrange(start as int, i as int + 1));
        }
        i = i + 1;
    }
    proof {
        lemma_split_nonempty(v@.subrange(lo as int, hi as int));
    }
    let ghost all = split_commas(v@.subrange(lo as int, hi as int));
    assert(all =~= all.drop_last().push(all.last()));
    let item = item_of(v, start, hi);
    match item {
        Some(t) => {
            r.push(t);
            assert(r.deep_view() =~= array_items(all));
        },
        None => {},
    }
    r
}

/// The values of the array that `content` assigns to the variable `name`:
/// the first accepted spelling of the assignment that is followed by a `]`
/// decides, and nothing is found where none is.
pub fn script_array_of(content: &Vec<char>, name: &str) -> (r: Vec<String>)
    ensures
        r.deep_view() == script_array(content@, name@),
{
    let ghost pats = assignment_patterns(name@);
    let stem = chars_of(name);
    let mut spellings: Vec<Vec<char>> = Vec::new();
    spellings.push(concat_chars(&stem, &chars_of(" = [")));
    spellings.push(concat_chars(&stem, &chars_of("=[")));
    spellings.push(concat_chars(&stem, &chars_of(" =[")));
    spellings.push(concat_chars(&stem, &chars_of("= [")));
    assert(pats.len() == 4);
    let close: Vec<char> = vec![']'];
    assert(close@ =~= seq![']']);
    let mut k: usize = 0;
    while k < spellings.len()
        invariant
            spellings@.len() == 4,
            pats == assignment_patterns(name@),
            pats.len() == 4,
            forall|m: int| 0 <= m < 4 ==> #[trigger] spellings@[m]@ == pats[m],
            close@ == seq![']'],
            k <= 4,
            array_after(content@, pats, 0) == array_after(content@, pats, k as int),
        decreases 4 - k,
    {
        match find_in(content, &spellings[k], 0) {
            Some(i) => {
                assert(i + spellings@[k as int]@.len() <= content.len());
                let open = i + spellings[k].len();
                match find_in(content, &close, open) {
                    Some(j) => {
                        return items_between(content, open, j);
                    },
                    None => {},
                }
            },
            None => {},
        }
        k = k + 1;
    }
    Vec::new()
}

/// Where one image element of the reader points: `data-src`, else `src`,
/// else `data-url`.
#[derive(Clone, Debug)]
pub struct ImageAttrs {
    pub data_src: Option<String>,
    pub src: Option<String>,
    pub data_url: Option<String>,
}

/// What the page resolver reads of a chapter's reader page.
#[derive(Clone, Debug)]
pub struct ReaderDocument {
    /// The text of each inline script that has any, in document order.
    pub scripts: Vec<String>,
    /// The image elements inside the reader containers, in document order.
    pub images: Vec<ImageAttrs>,
}

/// The scripts' texts, one line break between each two.
pub open spec fn joined(scripts: Seq<Seq<char>>) -> Seq<char>
    decreases scripts.len(),
{
    if scripts.len() == 0 {
        Seq::empty()
    } else if scripts.len() == 1 {
        scripts[0]
    } else {
        joined(scripts.drop_last()) + seq!['\n'] + scripts.last()
    }
}

/// The address an image element gives, if any.
pub open spec fn image_url(img: ImageAttrs) -> Option<Seq<char>> {
    match img.data_src {
        Some(s) => Some(s@),
        None => match img.src {
            Some(s) => Some(s@),
            None => match img.data_url {
                Some(s) => Some(s@),
                None => None,
            },
        },
    }
}

/// The addresses of the image elements, in order, those without one left out.
pub open spec fn markup_urls(imgs: Seq<ImageAttrs>) -> Seq<Seq<char>>
    decreases imgs.len(),
{
    if imgs.len() == 0 {
        Seq::empty()
    } else {
        let rest = markup_urls(imgs.drop_last());
        match image_url(imgs.last()) {
            Some(u) => rest.push(u),
            None => rest,
        }
    }
}

/// Each path placed under the host `cdn`.
pub open spec fn under_cdn(cdn: Seq<char>, paths: Seq<Seq<char>>) -> Seq<Seq<char>> {
    paths.map_values(|p: Seq<char>| cdn + "/"@ + p)
}

/// The page images of a reader page. The script arrays `images`,
/// `pageImages` and `chapterImages` are tried in that order and the first
/// that holds anything is taken alone; `chapterImages` entries are placed
/// under the first `cdns` entry where there is one. Only where no script
/// array holds anything are the reader's image elements read.
pub open spec fn page_urls(doc: ReaderDocument) -> Seq<Seq<char>> {
    let script = joined(doc.scripts.deep_view());
    let images = script_array(script, "images"@);
    let paged = script_array(script, "pageImages"@);
    let chapter = script_array(script, "chapterImages"@);
    let cdns = script_array(script, "cdns"@);
    if script.len() > 0 && images.len() > 0 {
        images
    } else if script.len() > 0 && paged.len() > 0 {
        paged
    } else if script.len() > 0 && chapter.len() > 0 {
        if cdns.len() > 0 {
            under_cdn(cdns[0], chapter)
        } else {
            chapter
        }
    } else {
        markup_urls(doc.images@)
    }
}

fn joined_scripts(scripts: &Vec<String>) -> (r: Vec<char>)
    ensures
        r@ == joined(scripts.deep_view()),
{
    let mut r: Vec<char> = Vec::new();
    let mut i: usize = 0;
    while i < scripts.len()
        invariant
            i <= scripts@.len(),
            r@ == joined(scripts.deep_view().take(i as int)),
        decreases scripts@.len() - i,
    {
        let ghost done = scripts.deep_view().take(i as int + 1);
        assert(done.drop_last() =~= scripts.deep_view().take(i as int));
        if i > 0 {
            r.push('\n');
        } else {
            assert(joined(scripts.deep_view().take(0)) =~= Seq::<char>::empty());
        }
        append_chars(&mut r, scripts[i].as_str());
        i = i + 1;
        assert(r@ =~= joined(done));
    }
    assert(scripts.deep_view().take(i as int) =~= scripts.deep_view());
    r
}

fn pages_from(urls: Vec<String>) -> (r: Vec<Page>)
    ensures
        page_urls_view(r@) == urls.deep_view(),
{
    let mut r: Vec<Page> = Vec::new();
    let mut i: usize = 0;
    while i < urls.len()
        invariant
            i <= urls@.len(),
            r@.len() == i,
            page_urls_view(r@) == urls.deep_view().take(i as int),
        decreases urls@.len() - i,
    {
        let url = urls[i].clone();
        assert(url@ == urls.deep_view()[i as int]);
        r.push(Page { url });
        assert(page_urls_view(r@)[i as int] == urls.deep_view()[i as int]);
        i = i + 1;
        assert(page_urls_view(r@) =~= urls.deep_view().take(i as int));
    }
    assert(urls.deep_view().take(i as int) =~= urls.deep_view());
    r
}

fn pages_under(cdn: &String, paths: &Vec<String>) -> (r: Vec<Page>)
    ensures
        page_urls_view(r@) == under_cdn(cdn@, paths.deep_view()),
{
    let mut r: Vec<Page> = Vec::new();
    let mut i: usize = 0;
    while i < paths.len()
        invariant
            i <= paths@.len(),
            r@.len() == i,
            page_urls_view(r@) == under_cdn(cdn@, paths.deep_view()).take(i as int),
        decreases paths@.len() - i,
    {
        let mut url = cdn.clone();
        url.append("/");
        url.append(paths[i].as_str());
        r.push(Page { url });
        i = i + 1;
        assert(page_urls_view(r@) =~= under_cdn(cdn@, paths.deep_view()).take(i as int));
    }
    assert(under_cdn(cdn@, paths.deep_view()).take(i as int) =~= under_cdn(cdn@, paths.deep_view()));
    r
}

fn pages_from_markup(imgs: &Vec<ImageAttrs>) -> (r: Vec<Page>)
    ensures
        page_urls_view(r@) == markup_urls(imgs@),
{
    let mut r: Vec<Page> = Vec::new();
    let mut i: usize = 0;
    while i < imgs.len()
        invariant
            i <= imgs@.len(),
            page_urls_view(r@) == markup_urls(imgs@.take(i as int)),
        decreases imgs@.len() - i,
    {
        assert(imgs@.take(i as int + 1).drop_last() =~= imgs@.take(i as int));
        let img = &imgs[i];
        let found = match &img.data_src {
            Some(s) => Some(s.clone()),
            None => match &img.src {
                Some(s) => Some(s.clone()),
                None => match &img.data_url {
                    Some(s) => Some(s.clone()),
                    None => None,
                },
            },
        };
        match found {
            Some(url) => {
                r.push(Page { url });
            },
            None => {},
        }
        i = i + 1;
        assert(page_urls_view(r@) =~= markup_urls(imgs@.take(i as int)));
    }
    assert(imgs@.take(i as int) =~= imgs@);
    r
}

impl MangafireSource {
    /// The page images of a chapter's reader page, in reading order.
    pub fn get_page_list(&self, doc: &ReaderDocument) -> (r: Vec<Page>)
        ensures
            page_urls_view(r@) == page_urls(*doc),
    {
        let script = joined_scripts(&doc.scripts);
        if script.len() > 0 {
            let images = script_array_of(&script, "images");
            if images.len() > 0 {
                return pages_from(images);
            }
            let paged = script_array_of(&script, "pageImages");
            if paged.len() > 0 {
                return pages_from(paged);
            }
            let chapter = script_array_of(&script, "chapterImages");
            if chapter.len() > 0 {
                let cdns = script_array_of(&script, "cdns");
                if cdns.len() > 0 {
                    return pages_under(&cdns[0], &chapter);
                }
                return pages_from(chapter);
            }
        }
        pages_from_markup(&doc.images)
    }
}

} // verus!
