//! URL assembly: parsing through the `url` crate, and merging an encoded
//! parameter string into the query component of a parsed URL's serialization.
//!
//! In a serialized URL the query runs from the first `?` to the fragment,
//! which runs from the first `#`; the parser percent-encodes both characters
//! everywhere else, so splicing by their first occurrence is exact.

use vstd::prelude::*;

verus! {

/// What `url::Url::parse` returns for a given string: `Some` of the parsed
/// URL's serialization when the string is a valid URL, `None` when it is not.
pub uninterp spec fn url_parse_of(s: Seq<char>) -> Option<Seq<char>>;

/// Relies on `url::Url::parse`, which parses per the URL standard and keeps
/// the serialization of the parsed URL; `String::from(Url)` hands that
/// serialization out.  On failure the parser's message is returned instead.
#[verifier::external_body]
pub(crate) fn parse_url(s: &str) -> (r: Result<String, String>)
    ensures
        r is Ok <==> url_parse_of(s@) is Some,
        r matches Ok(u) ==> u@ == url_parse_of(s@).unwrap(),
{
    match url::Url::parse(s) {
        Ok(u) => Ok(String::from(u)),
        Err(e) => Err(format!("{}", e)),
    }
}

/// The index of the first occurrence of `c` in `s`, or `s.len()` when `c`
/// does not occur.
pub open spec fn find_char(s: Seq<char>, c: char) -> int
    decreases s.len(),
{
    if s.len() == 0 {
        0
    } else if s[0] == c {
        0
    } else {
        1 + find_char(s.drop_first(), c)
    }
}

pub proof fn lemma_find_char(s: Seq<char>, c: char)
    ensures
        0 <= find_char(s, c) <= s.len(),
        find_char(s, c) < s.len() ==> s[find_char(s, c)] == c,
        forall|i: int| 0 <= i < find_char(s, c) ==> s[i] != c,
    decreases s.len(),
{
    if s.len() == 0 {
    } else if s[0] == c {
    } else {
        lemma_find_char(s.drop_first(), c);
        assert forall|i: int| 0 <= i < find_char(s, c) implies s[i] != c by {
            if i > 0 {
                assert(s.drop_first()[i - 1] == s[i]);
            }
        }
    }
}

/// `find_char` is pinned down by its first-occurrence description.
pub proof fn lemma_find_char_is(s: Seq<char>, c: char, i: int)
    requires
        0 <= i <= s.len(),
        forall|j: int| 0 <= j < i ==> s[j] != c,
        i < s.len() ==> s[i] == c,
    ensures
        find_char(s, c) == i,
    decreases s.len(),
{
    if s.len() == 0 {
    } else if s[0] == c {
        assert(i == 0);
    } else {
        assert(s[0] != c);
        assert(i >= 1);
        assert forall|j: int| 0 <= j < i - 1 implies s.drop_first()[j] != c by {
            assert(s.drop_first()[j] == s[j + 1]);
        }
        if i - 1 < s.drop_first().len() {
            assert(s.drop_first()[i - 1] == s[i]);
        }
        lemma_find_char_is(s.drop_first(), c, i - 1);
    }
}

/// How `find_char` traverses a concatenation: the hit in the left part if
/// there is one, else the left length plus the hit in the right part.
pub proof fn lemma_find_char_concat(x: Seq<char>, y: Seq<char>, c: char)
    ensures
        find_char(x + y, c) == if find_char(x, c) < x.len() {
            find_char(x, c)
        } else {
            x.len() + find_char(y, c)
        },
    decreases x.len(),
{
    if x.len() == 0 {
        assert(x + y =~= y);
    } else if x[0] == c {
        assert((x + y)[0] == c);
    } else {
        assert((x + y)[0] == x[0]);
        lemma_find_char_concat(x.drop_first(), y, c);
        assert((x + y).drop_first() =~= x.drop_first() + y);
    }
}

/// Where the fragment of a serialized URL begins: at the first `#`, or at
/// the end when there is none.
pub open spec fn fragment_start(u: Seq<char>) -> int {
    find_char(u, '#')
}

/// Where a query would be inserted: at the first `?` if one comes before the
/// fragment, else right before the fragment.
pub open spec fn query_insert_at(u: Seq<char>) -> int {
    if find_char(u, '?') < fragment_start(u) {
        find_char(u, '?')
    } else {
        fragment_start(u)
    }
}

/// The serialization with its query component replaced by `q`: everything up
/// to the old query (or to the fragment, when there was no query), then `?`,
/// then `q`, then the fragment as it was.
pub open spec fn spec_with_query(u: Seq<char>, q: Seq<char>) -> Seq<char> {
    u.subrange(0, query_insert_at(u)) + seq!['?'] + q + u.subrange(
        fragment_start(u),
        u.len() as int,
    )
}

/// The query component of a serialized URL: the characters strictly between
/// the first `?` and the fragment, or `None` when no `?` comes before the
/// fragment.
pub open spec fn query_of(s: Seq<char>) -> Option<Seq<char>> {
    if query_insert_at(s) < fragment_start(s) {
        Some(s.subrange(query_insert_at(s) + 1, fragment_start(s)))
    } else {
        None
    }
}

/// Replacing the query with text that contains no `?` and no `#` yields a
/// URL whose query component is exactly that text.
pub proof fn lemma_query_of_with_query(u: Seq<char>, q: Seq<char>)
    requires
        forall|i: int| 0 <= i < q.len() ==> q[i] != '?' && q[i] != '#',
    ensures
        query_of(spec_with_query(u, q)) == Some(q),
{
    let f = fragment_start(u);
    let b = query_insert_at(u);
    lemma_find_char(u, '#');
    lemma_find_char(u, '?');
    let a = u.subrange(0, b);
    let t = u.subrange(f, u.len() as int);
    let qt = q + t;
    let mid = seq!['?'] + qt;
    let r = a + mid;
    assert(spec_with_query(u, q) =~= r);
    assert(forall|i: int| 0 <= i < a.len() ==> a[i] != '#' && a[i] != '?');
    lemma_find_char_is(a, '#', a.len() as int);
    lemma_find_char_is(a, '?', a.len() as int);
    lemma_find_char_is(mid, '?', 0);
    if t.len() > 0 {
        assert(t[0] == u[f]);
        lemma_find_char_is(t, '#', 0);
    } else {
        lemma_find_char_is(t, '#', 0);
    }
    lemma_find_char_is(q, '#', q.len() as int);
    lemma_find_char_concat(q, t, '#');
    lemma_find_char_is(seq!['?'], '#', 1);
    lemma_find_char_concat(seq!['?'], qt, '#');
    assert(find_char(mid, '#') == 1 + q.len());
    lemma_find_char_concat(a, mid, '#');
    lemma_find_char_concat(a, mid, '?');
    assert(find_char(r, '#') == a.len() + 1 + q.len());
    assert(find_char(r, '?') == a.len());
    assert(query_insert_at(r) == a.len());
    assert(r.subrange(a.len() as int + 1, a.len() + 1 + q.len() as int) =~= q);
    assert(query_of(spec_with_query(u, q)) == Some(q));
}

/// The index of the first occurrence of `c` in `s`, or the length when `c`
/// does not occur.
fn find_char_at(s: &str, c: char) -> (i: usize)
    ensures
        i == find_char(s@, c),
{
    let n = s.unicode_len();
    let mut i: usize = 0;
    loop
        invariant
            0 <= i <= n,
            n == s@.len(),
            forall|j: int| 0 <= j < i ==> s@[j] != c,
        decreases n - i,
    {
        if i == n {
            proof {
                lemma_find_char_is(s@, c, i as int);
            }
            return i;
        }
        if s.get_char(i) == c {
            proof {
                lemma_find_char_is(s@, c, i as int);
            }
            return i;
        }
        i += 1;
    }
}

/// Replace the query component of the serialized URL `u` with `q`, keeping
/// everything before the query and the fragment after it.
pub fn with_query(u: &str, q: &str) -> (r: String)
    ensures
        r@ == spec_with_query(u@, q@),
{
    proof {
        lemma_find_char(u@, '#');
        lemma_find_char(u@, '?');
    }
    let f = find_char_at(u, '#');
    let qm = find_char_at(u, '?');
    let b = if qm < f {
        qm
    } else {
        f
    };
    let n = u.unicode_len();
    let mut r = String::from_str(u.substring_char(0, b));
    r.append("?");
    r.append(q);
    r.append(u.substring_char(f, n));
    proof {
        reveal_strlit("?");
        assert(r@ =~= spec_with_query(u@, q@));
    }
    r
}

} // verus!
