use vstd::prelude::*;

use crate::text::{append_chars, string_of};
use crate::{MangafireSource, BASE_URL};

verus! {

/// One filter setting of a search.
#[derive(Clone, Debug)]
pub enum FilterValue {
    /// A sort order, by its place in the list of sort orders.
    Sort { id: String, index: i32 },
    /// A single choice; empty for any.
    Select { id: String, value: String },
    /// Any number of choices.
    MultiSelect { id: String, included: Vec<String> },
    /// A kind of filter the site does not take.
    Other,
}

/// The site's sort orders, in the order they are offered.
pub open spec fn sort_tokens() -> Seq<Seq<char>> {
    seq![
        "recently_updated"@,
        "recently_added"@,
        "name_az"@,
        "release_date"@,
        "most_viewed"@,
        "score"@,
    ]
}

/// The sort order at `index`, if there is one.
pub fn sort_token(index: i32) -> (r: Option<&'static str>)
    ensures
        r matches Some(t) ==> 0 <= index < 6 && t@ == sort_tokens()[index as int],
        r is None ==> !(0 <= index < 6),
{
    if index == 0 {
        Some("recently_updated")
    } else if index == 1 {
        Some("recently_added")
    } else if index == 2 {
        Some("name_az")
    } else if index == 3 {
        Some("release_date")
    } else if index == 4 {
        Some("most_viewed")
    } else if index == 5 {
        Some("score")
    } else {
        None
    }
}

/// The decimal digit for `d`.
pub open spec fn digit(d: nat) -> char {
    (d + 48) as char
}

/// The decimal digits of `n`.
pub open spec fn digits(n: nat) -> Seq<char>
    decreases n,
{
    if n < 10 {
        seq![digit(n)]
    } else {
        digits(n / 10) + seq![digit(n % 10)]
    }
}

/// `n` in decimal, with a minus sign where it is negative.
pub open spec fn decimal(n: int) -> Seq<char> {
    if n < 0 {
        seq!['-'] + digits((-n) as nat)
    } else {
        digits(n as nat)
    }
}

fn digit_char(d: u64) -> (c: char)
    requires
        d < 10,
    ensures
        c == digit(d as nat),
{
    if d == 0 {
        '0'
    } else if d == 1 {
        '1'
    } else if d == 2 {
        '2'
    } else if d == 3 {
        '3'
    } else if d == 4 {
        '4'
    } else if d == 5 {
        '5'
    } else if d == 6 {
        '6'
    } else if d == 7 {
        '7'
    } else if d == 8 {
        '8'
    } else {
        '9'
    }
}

fn push_digits(r: &mut Vec<char>, n: u64)
    ensures
        final(r)@ == old(r)@ + digits(n as nat),
    decreases n,
{
    if n >= 10 {
        push_digits(r, n / 10);
    }
    r.push(digit_char(n % 10));
    assert(final(r)@ =~= old(r)@ + digits(n as nat));
}

/// The query parameters that one filter setting adds: a single choice one
/// unless it is empty, a multiple choice one per chosen value, a sort order
/// one where its index names one.
pub open spec fn filter_params(f: FilterValue) -> Seq<Seq<char>> {
    match f {
        FilterValue::Sort { id, index } => if 0 <= index < 6 {
            seq!["&"@ + id@ + "="@ + sort_tokens()[index as int]]
        } else {
            Seq::empty()
        },
        FilterValue::Select { id, value } => if value@.len() > 0 {
            seq!["&"@ + id@ + "="@ + value@]
        } else {
            Seq::empty()
        },
        FilterValue::MultiSelect { id, included } => included.deep_view().map_values(
            |v: Seq<char>| "&"@ + id@ + "[]="@ + v,
        ),
        FilterValue::Other => Seq::empty(),
    }
}

/// The query parameters of all the settings, in the order of the settings.
pub open spec fn query_params(fs: Seq<FilterValue>) -> Seq<Seq<char>>
    decreases fs.len(),
{
    if fs.len() == 0 {
        Seq::empty()
    } else {
        query_params(fs.drop_last()) + filter_params(fs.last())
    }
}

/// The parameters written one after another.
pub open spec fn concat(ps: Seq<Seq<char>>) -> Seq<char>
    decreases ps.len(),
{
    if ps.len() == 0 {
        Seq::empty()
    } else {
        concat(ps.drop_last()) + ps.last()
    }
}

/// The address of a page of search results.
pub open spec fn search_url_of(query: Option<Seq<char>>, page: int, fs: Seq<FilterValue>) -> Seq<char> {
    BASE_URL@ + "/filter?page="@ + decimal(page) + match query {
        Some(q) => "&keyword="@ + q,
        None => Seq::empty(),
    } + concat(query_params(fs))
}

/// How many parameters the settings call for.
pub open spec fn selection_count(fs: Seq<FilterValue>) -> nat
    decreases fs.len(),
{
    if fs.len() == 0 {
        0
    } else {
        selection_count(fs.drop_last()) + match fs.last() {
            FilterValue::Sort { index, .. } => if 0 <= index < 6 {
                1nat
            } else {
                0nat
            },
            FilterValue::Select { value, .. } => if value@.len() > 0 {
                1nat
            } else {
                0nat
            },
            FilterValue::MultiSelect { included, .. } => included@.len(),
            FilterValue::Other => 0nat,
        }
    }
}

proof fn lemma_concat_append(a: Seq<Seq<char>>, b: Seq<Seq<char>>)
    ensures
        concat(a + b) == concat(a) + concat(b),
    decreases b.len(),
{
    if b.len() == 0 {
        assert(a + b =~= a);
        assert(concat(a) + concat(b) =~= concat(a));
    } else {
        assert((a + b).drop_last() =~= a + b.drop_last());
        lemma_concat_append(a, b.drop_last());
        assert(concat(a + b) =~= concat(a) + concat(b));
    }
}

/// A search asks for one parameter per non-empty single choice, one per
/// chosen value of a multiple choice and one per valid sort order, each
/// setting's in the order of the settings and nothing for an empty one;
/// the address is the listing's with the page, the keyword and those
/// parameters.
pub proof fn one_parameter_per_selection(query: Option<Seq<char>>, page: int, fs: Seq<FilterValue>)
    ensures
        query_params(fs).len() == selection_count(fs),
        forall|i: int| 0 <= i < fs.len() ==> query_params(fs.take(i + 1)) == query_params(fs.take(i))
            + filter_params(#[trigger] fs[i]),
        forall|i: int| 0 <= i < fs.len() ==> match #[trigger] fs[i] {
            FilterValue::Select { value, .. } => value@.len() == 0 ==> filter_params(fs[i]).len() == 0,
            FilterValue::MultiSelect { included, .. } => filter_params(fs[i]).len() == included@.len(),
            _ => true,
        },
        search_url_of(query, page, fs) == search_url_of(query, page, Seq::empty()) + concat(query_params(fs)),
    decreases fs.len(),
{
    if fs.len() > 0 {
        one_parameter_per_selection(query, page, fs.drop_last());
    }
    assert forall|i: int| 0 <= i < fs.len() implies query_params(fs.take(i + 1)) == query_params(fs.take(i))
        + filter_params(#[trigger] fs[i]) by {
        assert(fs.take(i + 1).drop_last() =~= fs.take(i));
    }
    assert(query_params(Seq::<FilterValue>::empty()) =~= Seq::<Seq<char>>::empty());
    assert(concat(Seq::<Seq<char>>::empty()) =~= Seq::<char>::empty());
    assert(search_url_of(query, page, Seq::empty()) + concat(query_params(fs)) =~= search_url_of(query, page, fs));
}

fn append_param(r: &mut Vec<char>, id: &str, sep: &str, value: &str)
    ensures
        final(r)@ == old(r)@ + ("&"@ + id@ + sep@ + value@),
{
    append_chars(r, "&");
    append_chars(r, id);
    append_chars(r, sep);
    append_chars(r, value);
    assert(final(r)@ =~= old(r)@ + ("&"@ + id@ + sep@ + value@));
}

fn append_filter(r: &mut Vec<char>, f: &FilterValue)
    ensures
        final(r)@ == old(r)@ + concat(filter_params(*f)),
{
    match f {
        FilterValue::Sort { id, index } => {
            match sort_token(*index) {
                Some(t) => {
                    append_param(r, id.as_str(), "=", t);
                },
                None => {},
            }
        },
        FilterValue::Select { id, value } => {
            if value.as_str().unicode_len() > 0 {
                append_param(r, id.as_str(), "=", value.as_str());
            }
        },
        FilterValue::MultiSelect { id, included } => {
            let ghost ps = filter_params(*f);
            let mut i: usize = 0;
            while i < included.len()
                invariant
                    i <= included@.len(),
                    ps == filter_params(*f),
                    ps.len() == included@.len(),
                    *f == (FilterValue::MultiSelect { id: *id, included: *included }),
                    r@ == old(r)@ + concat(ps.take(i as int)),
                decreases included@.len() - i,
            {
                append_param(r, id.as_str(), "[]=", included[i].as_str());
                assert(ps.take(i + 1).drop_last() =~= ps.take(i as int));
                i = i + 1;
            }
            assert(ps.take(i as int) =~= ps);
        },
        FilterValue::Other => {},
    }
    proof {
        let ps = filter_params(*f);
        if ps.len() == 0 {
            assert(concat(ps) =~= Seq::<char>::empty());
            assert(r@ =~= old(r)@ + concat(ps));
        } else if ps.len() == 1 && !(f is MultiSelect) {
            assert(ps.drop_last() =~= Seq::<Seq<char>>::empty());
            assert(concat(ps.drop_last()) =~= Seq::<char>::empty());
            assert(concat(ps) =~= ps[0]);
            assert(r@ =~= old(r)@ + concat(ps));
        }
    }
}

impl MangafireSource {
    /// The address of page `page` of the results for the keyword `query`
    /// and the filter settings `filters`.
    pub fn search_url(&self, query: &Option<String>, page: i32, filters: &Vec<FilterValue>) -> (r: String)
        ensures
            r@ == search_url_of(query.deep_view(), page as int, filters@),
    {
        let mut v: Vec<char> = Vec::new();
        append_chars(&mut v, BASE_URL);
        append_chars(&mut v, "/filter?page=");
        let ghost head = v@;
        if page < 0 {
            v.push('-');
            let n: i64 = page as i64;
            push_digits(&mut v, (-n) as u64);
        } else {
            push_digits(&mut v, page as u64);
        }
        assert(v@ =~= head + decimal(page as int));
        match query {
            Some(q) => {
                append_chars(&mut v, "&keyword=");
                append_chars(&mut v, q.as_str());
            },
            None => {},
        }
        let ghost start = v@;
        let mut i: usize = 0;
        while i < filters.len()
            invariant
                i <= filters@.len(),
                v@ == start + concat(query_params(filters@.take(i as int))),
            decreases filters@.len() - i,
        {
            let ghost before = v@;
            append_filter(&mut v, &filters[i]);
            proof {
                let fs = filters@.take(i + 1);
                assert(fs.drop_last() =~= filters@.take(i as int));
                lemma_concat_append(query_params(filters@.take(i as int)), filter_params(filters@[i as int]));
            }
            i = i + 1;
            assert(v@ =~= start + concat(query_params(filters@.take(i as int))));
        }
        assert(filters@.take(i as int) =~= filters@);
        assert(v@ =~= search_url_of(query.deep_view(), page as int, filters@));
        string_of(&v, 0, v.len())
    }
}

} // verus!
