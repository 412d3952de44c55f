use vstd::prelude::*;

use crate::text::joined;

verus! {

/// The cookie that carries the OAuth flow's state between its start and GitHub's callback.
pub open spec fn state_cookie_name() -> Seq<char> {
    "git_reel_oauth_state"@
}

/// The attributes of the state cookie: only HTTP sees it, only the OAuth routes get it back,
/// and it rides along on GitHub's redirect.
pub open spec fn state_cookie_attributes() -> Seq<char> {
    "; HttpOnly; Path=/api/auth/github; SameSite=Lax"@
}

/// The `Set-Cookie` value that hands the browser the state of a starting OAuth flow.
pub fn state_cookie(oauth_state: &str) -> (r: String)
    ensures
        r@ == state_cookie_name() + "="@ + oauth_state@ + state_cookie_attributes(),
{
    let mut r = joined("git_reel_oauth_state=", oauth_state);
    r.append("; HttpOnly; Path=/api/auth/github; SameSite=Lax");
    proof {
        reveal_strlit("git_reel_oauth_state=");
        reveal_strlit("git_reel_oauth_state");
        reveal_strlit("=");
        assert("git_reel_oauth_state="@ =~= "git_reel_oauth_state"@ + "="@);
    }
    r
}

/// The `Set-Cookie` value that makes the browser drop the state cookie once the callback
/// has used it.
pub fn cleared_state_cookie() -> (r: String)
    ensures
        r@ == state_cookie_name() + "="@ + state_cookie_attributes() + "; Max-Age=0"@,
{
    let mut r = String::from_str("git_reel_oauth_state=");
    r.append("; HttpOnly; Path=/api/auth/github; SameSite=Lax");
    r.append("; Max-Age=0");
    proof {
        reveal_strlit("git_reel_oauth_state=");
        reveal_strlit("git_reel_oauth_state");
        reveal_strlit("=");
        assert("git_reel_oauth_state="@ =~= "git_reel_oauth_state"@ + "="@);
    }
    r
}

/// The end of the cookie pair that starts at `i` of a `Cookie` header: the next `;`, or the
/// end of the header.
pub open spec fn pair_end(h: Seq<char>, i: nat) -> nat
    decreases h.len() - i,
{
    if i < h.len() && h[i as int] != ';' {
        pair_end(h, i + 1)
    } else {
        i
    }
}

/// The first position from `i` on, before `end`, that is not a space.
pub open spec fn skip_spaces(h: Seq<char>, i: nat, end: nat) -> nat
    decreases end - i,
{
    if i < end && h[i as int] == ' ' {
        skip_spaces(h, i + 1, end)
    } else {
        i
    }
}

/// A pair ends at or after its start, and not after the header.
pub proof fn lemma_pair_end_bounds(h: Seq<char>, i: nat)
    ensures
        i <= h.len() ==> i <= pair_end(h, i) <= h.len(),
        i > h.len() ==> pair_end(h, i) == i,
    decreases h.len() - i,
{
    if i < h.len() && h[i as int] != ';' {
        lemma_pair_end_bounds(h, i + 1);
    }
}

/// Whether the pair `h[start..end]` reads `name=...`.
pub open spec fn pair_is_named(h: Seq<char>, start: int, end: int, name: Seq<char>) -> bool {
    &&& end - start > name.len()
    &&& h.subrange(start, start + name.len()) == name
    &&& h[start + name.len()] == '='
}

/// The value of the first cookie called `name` in the `Cookie` header `h`, looking from the
/// pair that starts at `i` on. Pairs are separated by `;` and may be preceded by spaces.
pub open spec fn cookie_value_from(h: Seq<char>, name: Seq<char>, i: nat) -> Option<Seq<char>>
    decreases h.len() + 1 - i,
{
    if i > h.len() {
        None
    } else {
        let end = pair_end(h, i);
        let start = skip_spaces(h, i, end);
        proof {
            lemma_pair_end_bounds(h, i);
        }
        if pair_is_named(h, start as int, end as int, name) {
            Some(h.subrange((start + name.len() + 1) as int, end as int))
        } else if end < h.len() {
            cookie_value_from(h, name, end + 1)
        } else {
            None
        }
    }
}

/// The value of the first cookie called `name` in a `Cookie` header.
pub open spec fn cookie_value(h: Seq<char>, name: Seq<char>) -> Option<Seq<char>> {
    cookie_value_from(h, name, 0)
}

/// Whether `h[start..]` begins with `name` followed by `=`, before `end`.
fn starts_with_name(h: &Vec<char>, start: usize, end: usize, name: &Vec<char>) -> (r: bool)
    requires
        start <= end <= h@.len(),
    ensures
        r == pair_is_named(h@, start as int, end as int, name@),
{
    let n = name.len();
    if end - start <= n {
        return false;
    }
    let mut k: usize = 0;
    while k < n
        invariant
            n == name@.len(),
            start + n < end <= h@.len(),
            k <= n,
            forall|x: int| 0 <= x < k ==> h@[start + x] == name@[x],
        decreases n - k,
    {
        if h[start + k] != name[k] {
            assert(h@.subrange(start as int, start + n)[k as int] != name@[k as int]);
            return false;
        }
        k = k + 1;
    }
    assert(h@.subrange(start as int, start + n) =~= name@);
    h[start + n] == '='
}

/// The characters of a text, one by one.
fn chars_of(s: &str) -> (r: Vec<char>)
    ensures
        r@ == s@,
{
    let n = s.unicode_len();
    let mut r: Vec<char> = Vec::new();
    for i in 0..n
        invariant
            n == s@.len(),
            r@ == s@.take(i as int),
    {
        r.push(s.get_char(i));
        proof {
            assert(s@.take(i + 1) =~= s@.take(i as int).push(s@[i as int]));
        }
    }
    proof {
        assert(s@.take(n as int) =~= s@);
    }
    r
}

/// The value of the first cookie called `name` in the `Cookie` header `header`.
pub fn find_cookie(header: &str, name: &str) -> (r: Option<String>)
    ensures
        match cookie_value(header@, name@) {
            Some(v) => r matches Some(s) && s@ == v,
            None => r is None,
        },
{
    let h = chars_of(header);
    let nm = chars_of(name);
    let len = h.len();
    let mut i: usize = 0;
    while i <= len
        invariant
            len == h@.len(),
            h@ == header@,
            nm@ == name@,
            cookie_value_from(h@, nm@, 0) == cookie_value_from(h@, nm@, i as nat),
        decreases len + 1 - i,
    {
        let mut end: usize = i;
        while end < len && h[end] != ';'
            invariant
                len == h@.len(),
                i <= end <= len,
                pair_end(h@, i as nat) == pair_end(h@, end as nat),
            decreases len - end,
        {
            end = end + 1;
        }
        let mut start: usize = i;
        while start < end && h[start] == ' '
            invariant
                len == h@.len(),
                i <= start <= end <= len,
                end == pair_end(h@, i as nat),
                skip_spaces(h@, i as nat, end as nat) == skip_spaces(h@, start as nat, end as nat),
            decreases end - start,
        {
            start = start + 1;
        }
        proof {
            lemma_pair_end_bounds(h@, i as nat);
        }
        if starts_with_name(&h, start, end, &nm) {
            let from = start + nm.len() + 1;
            let value = header.substring_char(from, end);
            return Some(String::from_str(value));
        }
        if end >= len {
            return None;
        }
        i = end + 1;
    }
    None
}

/// The state a callback's `Cookie` header carries, if any.
pub fn state_from_cookie_header(header: &str) -> (r: Option<String>)
    ensures
        match cookie_value(header@, state_cookie_name()) {
            Some(v) => r matches Some(s) && s@ == v,
            None => r is None,
        },
{
    find_cookie(header, "git_reel_oauth_state")
}

} // verus!
