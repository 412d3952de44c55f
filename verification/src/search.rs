use vstd::prelude::*;

use crate::text::{ascii_lower, ascii_lower_char, to_ascii_lowercase};

verus! {

/// SQLite's `LIKE` without an escape character: whether `t[i..]` matches `p[j..]`. In the
/// pattern `%` stands for any run of characters, `_` for any one character, and other
/// characters match themselves, ASCII letters without regard to case.
pub open spec fn like_from(t: Seq<char>, p: Seq<char>, i: nat, j: nat) -> bool
    decreases p.len() - j, t.len() - i,
{
    if j >= p.len() {
        i >= t.len()
    } else if p[j as int] == '%' {
        like_from(t, p, i, j + 1) || (i < t.len() && like_from(t, p, i + 1, j))
    } else if i >= t.len() {
        false
    } else if p[j as int] == '_' || ascii_lower_char(p[j as int]) == ascii_lower_char(t[i as int]) {
        like_from(t, p, i + 1, j + 1)
    } else {
        false
    }
}

/// Whether the text matches the pattern, as `text LIKE pattern` in SQLite.
pub open spec fn like(t: Seq<char>, p: Seq<char>) -> bool {
    like_from(t, p, 0, 0)
}

/// The characters of a text, one by one.
fn chars_of(s: &str) -> (r: Vec<char>)
    ensures
        r@ == s@,
{
    let n = s.unicode_len();
    let mut r: Vec<char> = Vec::new();
    for i in 0..n
        invariant
            n == s@.len(),
            r@ == s@.take(i as int),
    {
        r.push(s.get_char(i));
        proof {
            assert(s@.take(i + 1) =~= s@.take(i as int).push(s@[i as int]));
        }
    }
    proof {
        assert(s@.take(n as int) =~= s@);
    }
    r
}

/// Whether `text LIKE pattern` holds in SQLite (no escape character).
pub fn like_matches(text: &str, pattern: &str) -> (r: bool)
    requires
        text@.len() < usize::MAX,
    ensures
        r == like(text@, pattern@),
{
    let t = chars_of(text);
    let p = chars_of(pattern);
    let n = t.len();
    let m = p.len();
    // `next[i]` holds `like_from(t, p, i, j + 1)` while column `j` is computed.
    let mut next: Vec<bool> = Vec::new();
    for i in 0..n + 1
        invariant
            n == t@.len(),
            m == p@.len(),
            next@.len() == i,
            forall|k: int| 0 <= k < i ==> #[trigger] next@[k] == like_from(t@, p@, k as nat, m as nat),
    {
        next.push(i == n);
    }
    let mut j: usize = m;
    while j > 0
        invariant
            n == t@.len(),
            m == p@.len(),
            j <= m,
            n < usize::MAX,
            next@.len() == n + 1,
            forall|k: int| 0 <= k <= n ==> #[trigger] next@[k] == like_from(t@, p@, k as nat, j as nat),
        decreases j,
    {
        let jj = j - 1;
        let pc = p[jj];
        let mut col: Vec<bool> = Vec::new();
        for k in 0..n + 1
            invariant
                col@.len() == k,
        {
            col.push(false);
        }
        let mut i: usize = n + 1;
        while i > 0
            invariant
                n == t@.len(),
                m == p@.len(),
                jj < m,
                pc == p@[jj as int],
                i <= n + 1,
                col@.len() == n + 1,
                next@.len() == n + 1,
                forall|k: int| 0 <= k <= n ==> #[trigger] next@[k] == like_from(t@, p@, k as nat, (jj + 1) as nat),
                forall|k: int| i <= k <= n ==> #[trigger] col@[k] == like_from(t@, p@, k as nat, jj as nat),
            decreases i,
        {
            let ii = i - 1;
            let v = if pc == '%' {
                next[ii] || (ii < n && col[ii + 1])
            } else if ii >= n {
                false
            } else {
                let tc = t[ii];
                let lp = if 'A' <= pc && pc <= 'Z' { ((pc as u8) + 32) as char } else { pc };
                let lt = if 'A' <= tc && tc <= 'Z' { ((tc as u8) + 32) as char } else { tc };
                if pc == '_' || lp == lt {
                    next[ii + 1]
                } else {
                    false
                }
            };
            proof {
                assert(v == like_from(t@, p@, ii as nat, jj as nat));
            }
            col.set(ii, v);
            i = ii;
        }
        next = col;
        j = jj;
    }
    next[0]
}

/// Whether a saved repository turns up for a search: the query, lower-cased and wrapped in
/// `%`, matches the lower-cased full name or the lower-cased description (an absent
/// description counts as empty).
pub open spec fn saved_search_matches(full_name: Seq<char>, description: Option<Seq<char>>, query: Seq<char>) -> bool {
    let pattern = seq!['%'] + ascii_lower(query) + seq!['%'];
    let desc = match description {
        Some(d) => d,
        None => Seq::empty(),
    };
    like(ascii_lower(full_name), pattern) || like(ascii_lower(desc), pattern)
}

/// Whether a saved repository turns up for the search `query`.
pub fn saved_matches(full_name: &str, description: &Option<String>, query: &str) -> (r: bool)
    requires
        full_name@.len() < usize::MAX,
        description matches Some(d) ==> d@.len() < usize::MAX,
    ensures
        r == saved_search_matches(
            full_name@,
            match description {
                Some(d) => Some(d@),
                None => None,
            },
            query@,
        ),
{
    let mut pattern = String::from_str("%");
    let lowered = to_ascii_lowercase(query);
    pattern.append(lowered.as_str());
    pattern.append("%");
    proof {
        reveal_strlit("%");
        assert(pattern@ =~= seq!['%'] + ascii_lower(query@) + seq!['%']);
    }
    let name = to_ascii_lowercase(full_name);
    if like_matches(name.as_str(), pattern.as_str()) {
        return true;
    }
    let desc = match description {
        Some(d) => to_ascii_lowercase(d.as_str()),
        None => String::new(),
    };
    proof {
        if description is None {
            assert(desc@ =~= ascii_lower(Seq::empty()));
        }
    }
    like_matches(desc.as_str(), pattern.as_str())
}

/// A pattern made only of `%` matches every text from any start.
proof fn lemma_percent_tail_matches(t: Seq<char>, p: Seq<char>, i: nat, j: nat)
    requires
        i <= t.len(),
        j <= p.len(),
        j < p.len() || i == t.len(),
        forall|k: int| j <= k < p.len() ==> p[k] == '%',
    ensures
        like_from(t, p, i, j),
    decreases p.len() - j, t.len() - i,
{
    if j < p.len() {
        assert(p[j as int] == '%');
        if i < t.len() {
            lemma_percent_tail_matches(t, p, i + 1, j);
        } else {
            lemma_percent_tail_matches(t, p, i, j + 1);
        }
    }
}

/// A pattern without wildcards that equals `t[i..i + (p.len() - j)]` (ASCII case aside)
/// matches there, followed by a `%` tail.
proof fn lemma_literal_then_tail(t: Seq<char>, p: Seq<char>, i: nat, j: nat, lit_end: nat)
    requires
        j <= lit_end <= p.len(),
        i + (lit_end - j) <= t.len(),
        forall|k: int| j <= k < lit_end ==> p[k] != '%' && p[k] != '_' && ascii_lower_char(p[k])
            == ascii_lower_char(t[i + (k - j)]),
        lit_end < p.len(),
        forall|k: int| lit_end <= k < p.len() ==> p[k] == '%',
    ensures
        like_from(t, p, i, j),
    decreases lit_end - j,
{
    if j < lit_end {
        assert(p[j as int] != '%' && p[j as int] != '_');
        assert(ascii_lower_char(p[j as int]) == ascii_lower_char(t[i as int]));
        lemma_literal_then_tail(t, p, i + 1, j + 1, lit_end);
    } else {
        lemma_percent_tail_matches(t, p, i, j);
    }
}

/// A leading `%` lets the rest of the pattern start at any later position.
proof fn lemma_percent_skips(t: Seq<char>, p: Seq<char>, i: nat, start: nat)
    requires
        p.len() > 0,
        p[0] == '%',
        i <= start <= t.len(),
        like_from(t, p, start, 1),
    ensures
        like_from(t, p, i, 0),
    decreases start - i,
{
    if i < start {
        lemma_percent_skips(t, p, i + 1, start);
    }
}

/// Every text is matched by the `%`-wrapped form of a wildcard-free query that it
/// contains, ASCII case aside.
pub proof fn law_contained_query_matches(t: Seq<char>, q: Seq<char>, at: int)
    requires
        0 <= at,
        at + q.len() <= t.len(),
        forall|k: int| 0 <= k < q.len() ==> q[k] != '%' && q[k] != '_',
        forall|k: int| 0 <= k < q.len() ==> ascii_lower_char(#[trigger] q[k]) == ascii_lower_char(t[at + k]),
    ensures
        like(t, seq!['%'] + q + seq!['%']),
{
    let p = seq!['%'] + q + seq!['%'];
    assert forall|k: int| 1 <= k < 1 + q.len() implies p[k] != '%' && p[k] != '_' && ascii_lower_char(p[k])
        == ascii_lower_char(t[at + (k - 1)]) by {
        assert(p[k] == q[k - 1]);
    }
    assert(p[1 + q.len() as int] == '%');
    lemma_literal_then_tail(t, p, at as nat, 1, (1 + q.len()) as nat);
    lemma_percent_skips(t, p, 0, at as nat);
}

/// `text` holds `query` from position `at` on, ASCII case aside.
pub open spec fn holds_at(text: Seq<char>, query: Seq<char>, at: int) -> bool {
    &&& 0 <= at
    &&& at + query.len() <= text.len()
    &&& forall|k: int| 0 <= k < query.len() ==> ascii_lower_char(#[trigger] query[k]) == ascii_lower_char(text[at + k])
}

/// `text` holds `query` somewhere, ASCII case aside.
pub open spec fn contains_ignoring_case(text: Seq<char>, query: Seq<char>) -> bool {
    exists|at: int| #[trigger] holds_at(text, query, at)
}

/// The query holds no `%` and no `_`.
pub open spec fn is_literal(query: Seq<char>) -> bool {
    forall|k: int| 0 <= k < query.len() ==> query[k] != '%' && query[k] != '_'
}

/// Lower-casing both sides does not change whether a text holds a query.
proof fn lemma_contains_lowered(text: Seq<char>, query: Seq<char>)
    ensures
        contains_ignoring_case(text, query) == contains_ignoring_case(ascii_lower(text), ascii_lower(query)),
        is_literal(query) == is_literal(ascii_lower(query)),
{
    let t = ascii_lower(text);
    let q = ascii_lower(query);
    if contains_ignoring_case(text, query) {
        let at = choose|at: int| #[trigger] holds_at(text, query, at);
        assert forall|k: int| 0 <= k < q.len() implies ascii_lower_char(#[trigger] q[k]) == ascii_lower_char(t[at + k]) by {
            lemma_ascii_lower_idempotent(query[k]);
            lemma_ascii_lower_idempotent(text[at + k]);
        }
        assert(holds_at(t, q, at));
    }
    if contains_ignoring_case(t, q) {
        let at = choose|at: int| #[trigger] holds_at(t, q, at);
        assert forall|k: int| 0 <= k < query.len() implies ascii_lower_char(#[trigger] query[k]) == ascii_lower_char(text[at + k]) by {
            assert(ascii_lower_char(q[k]) == ascii_lower_char(t[at + k]));
            lemma_ascii_lower_idempotent(query[k]);
            lemma_ascii_lower_idempotent(text[at + k]);
        }
        assert(holds_at(text, query, at));
    }
    assert(is_literal(query) == is_literal(q)) by {
        if is_literal(query) {
            assert forall|k: int| 0 <= k < q.len() implies q[k] != '%' && q[k] != '_' by {
                assert(q[k] == ascii_lower_char(query[k]));
            }
        }
        if is_literal(q) {
            assert forall|k: int| 0 <= k < query.len() implies query[k] != '%' && query[k] != '_' by {
                assert(q[k] == ascii_lower_char(query[k]));
            }
        }
    }
}

/// Matching the literal middle of a pattern from `j` on means the text holds it at `i`.
proof fn lemma_literal_matched(t: Seq<char>, p: Seq<char>, i: nat, j: nat, lit_end: nat)
    requires
        1 <= j <= lit_end,
        lit_end + 1 == p.len(),
        i <= t.len(),
        forall|k: int| 1 <= k < lit_end ==> p[k] != '%' && p[k] != '_',
        like_from(t, p, i, j),
    ensures
        i + (lit_end - j) <= t.len(),
        forall|k: int| j <= k < lit_end ==> ascii_lower_char(#[trigger] p[k]) == ascii_lower_char(t[i + (k - j)]),
    decreases lit_end - j,
{
    if j < lit_end {
        assert(p[j as int] != '%' && p[j as int] != '_');
        lemma_literal_matched(t, p, i + 1, j + 1, lit_end);
    }
}

/// A leading `%` matched from `i` means the rest of the pattern matches from some later
/// position.
proof fn lemma_leading_percent(t: Seq<char>, p: Seq<char>, i: nat)
    requires
        p.len() > 1,
        p[0] == '%',
        i <= t.len(),
        like_from(t, p, i, 0),
    ensures
        exists|k: nat| i <= k <= t.len() && #[trigger] like_from(t, p, k, 1),
    decreases t.len() - i,
{
    if !like_from(t, p, i, 1) {
        lemma_leading_percent(t, p, i + 1);
        let k = choose|k: nat| i + 1 <= k <= t.len() && #[trigger] like_from(t, p, k, 1);
        assert(i <= k);
    }
}

/// For a query without wildcards, `%query%` matches a text exactly when the text holds the
/// query, ASCII case aside.
pub proof fn law_wrapped_literal_is_containment(t: Seq<char>, q: Seq<char>)
    requires
        is_literal(q),
    ensures
        like(t, seq!['%'] + q + seq!['%']) == contains_ignoring_case(t, q),
{
    let p = seq!['%'] + q + seq!['%'];
    let lit_end = (q.len() + 1) as nat;
    assert forall|k: int| 1 <= k < lit_end implies p[k] != '%' && p[k] != '_' by {
        assert(p[k] == q[k - 1]);
    }
    if contains_ignoring_case(t, q) {
        let at = choose|at: int| #[trigger] holds_at(t, q, at);
        law_contained_query_matches(t, q, at);
    }
    if like(t, p) {
        lemma_leading_percent(t, p, 0);
        let start = choose|k: nat| 0 <= k <= t.len() && #[trigger] like_from(t, p, k, 1);
        lemma_literal_matched(t, p, start, 1, lit_end);
        assert forall|k: int| 0 <= k < q.len() implies ascii_lower_char(#[trigger] q[k]) == ascii_lower_char(t[start + k]) by {
            assert(p[k + 1] == q[k]);
            assert(ascii_lower_char(p[k + 1]) == ascii_lower_char(t[start + ((k + 1) - 1)]));
        }
        assert(holds_at(t, q, start as int));
    }
}

/// For a query without `%` or `_`, a saved repository turns up exactly when its full name
/// or its description holds the query, ASCII case aside (an absent description holds only
/// the empty query).
pub proof fn law_saved_search_is_containment(full_name: Seq<char>, description: Option<Seq<char>>, query: Seq<char>)
    requires
        is_literal(query),
    ensures
        saved_search_matches(full_name, description, query) == (contains_ignoring_case(full_name, query)
            || contains_ignoring_case(
            match description {
                Some(d) => d,
                None => Seq::empty(),
            },
            query,
        )),
{
    let desc = match description {
        Some(d) => d,
        None => Seq::<char>::empty(),
    };
    lemma_contains_lowered(full_name, query);
    lemma_contains_lowered(desc, query);
    law_wrapped_literal_is_containment(ascii_lower(full_name), ascii_lower(query));
    law_wrapped_literal_is_containment(ascii_lower(desc), ascii_lower(query));
}

/// A pattern piece that equals `t[i..i + (lit_end - j)]` (ASCII case aside), whatever `%`
/// and `_` it holds, matches there, followed by a `%` tail: `_` matches the character in
/// its place and `%` matches it too, as a run of one.
proof fn lemma_piece_then_tail(t: Seq<char>, p: Seq<char>, i: nat, j: nat, lit_end: nat)
    requires
        j <= lit_end <= p.len(),
        i + (lit_end - j) <= t.len(),
        forall|k: int| j <= k < lit_end ==> ascii_lower_char(p[k]) == ascii_lower_char(t[i + (k - j)]),
        lit_end < p.len(),
        forall|k: int| lit_end <= k < p.len() ==> p[k] == '%',
    ensures
        like_from(t, p, i, j),
    decreases lit_end - j,
{
    if j < lit_end {
        assert(ascii_lower_char(p[j as int]) == ascii_lower_char(t[i as int]));
        lemma_piece_then_tail(t, p, i + 1, j + 1, lit_end);
        if p[j as int] == '%' {
            assert(like_from(t, p, i + 1, j));
        }
    } else {
        lemma_percent_tail_matches(t, p, i, j);
    }
}

/// Every text that holds a query, ASCII case aside, is matched by the query wrapped in
/// `%`, whatever `%` and `_` the query holds.
pub proof fn law_contained_query_always_matches(t: Seq<char>, q: Seq<char>, at: int)
    requires
        holds_at(t, q, at),
    ensures
        like(t, seq!['%'] + q + seq!['%']),
{
    let p = seq!['%'] + q + seq!['%'];
    assert forall|k: int| 1 <= k < 1 + q.len() implies ascii_lower_char(p[k]) == ascii_lower_char(
        t[at + (k - 1)],
    ) by {
        assert(p[k] == q[k - 1]);
    }
    assert(p[1 + q.len() as int] == '%');
    lemma_piece_then_tail(t, p, at as nat, 1, (1 + q.len()) as nat);
    lemma_percent_skips(t, p, 0, at as nat);
}

/// A saved repository whose full name or description holds the query, ASCII case aside,
/// turns up for it, for every query, `%` and `_` included.
pub proof fn law_saved_search_finds_contained(full_name: Seq<char>, description: Option<Seq<char>>, query: Seq<char>)
    requires
        contains_ignoring_case(full_name, query) || contains_ignoring_case(
            match description {
                Some(d) => d,
                None => Seq::empty(),
            },
            query,
        ),
    ensures
        saved_search_matches(full_name, description, query),
{
    let desc = match description {
        Some(d) => d,
        None => Seq::<char>::empty(),
    };
    lemma_contains_lowered(full_name, query);
    lemma_contains_lowered(desc, query);
    let q = ascii_lower(query);
    if contains_ignoring_case(full_name, query) {
        let at = choose|at: int| #[trigger] holds_at(ascii_lower(full_name), q, at);
        law_contained_query_always_matches(ascii_lower(full_name), q, at);
    } else {
        let at = choose|at: int| #[trigger] holds_at(ascii_lower(desc), q, at);
        law_contained_query_always_matches(ascii_lower(desc), q, at);
    }
}

/// Lower-casing twice is lower-casing once.
proof fn lemma_ascii_lower_idempotent(c: char)
    ensures
        ascii_lower_char(ascii_lower_char(c)) == ascii_lower_char(c),
{
}

/// The empty search lists every saved repository.
pub proof fn law_empty_search_matches_all(full_name: Seq<char>, description: Option<Seq<char>>)
    ensures
        saved_search_matches(full_name, description, Seq::empty()),
{
    let pattern = seq!['%'] + ascii_lower(Seq::<char>::empty()) + seq!['%'];
    assert(pattern =~= seq!['%', '%']);
    lemma_percent_tail_matches(ascii_lower(full_name), pattern, 0, 0);
}

} // verus!
