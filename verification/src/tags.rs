use vstd::prelude::*;

use crate::text::{
    ascii_lower, lemma_text_le_total, lemma_text_le_transitive, text_at_most, text_le, to_ascii_lowercase,
    trim_text, trimmed,
};

verus! {

broadcast use vstd::seq_lib::group_to_multiset_ensures;

/// The stored form of a tag: trimmed and ASCII lower-cased.
pub open spec fn normalized_tag(tag: Seq<char>) -> Seq<char> {
    ascii_lower(trimmed(tag))
}

/// Normalizing a stored tag again changes nothing.
pub proof fn law_normalized_tag_idempotent(tag: Seq<char>)
    ensures
        normalized_tag(normalized_tag(tag)) == normalized_tag(tag),
{
    crate::text::law_trim_lower_idempotent(tag);
}

/// The stored form of a tag.
pub fn normalize_tag(tag: &str) -> (r: String)
    ensures
        r@ == normalized_tag(tag@),
{
    let t = trim_text(tag);
    to_ascii_lowercase(t.as_str())
}

/// The views of a list of strings.
pub open spec fn texts(items: Seq<String>) -> Seq<Seq<char>> {
    items.map_values(|s: String| s@)
}

/// The tags that replacing a repository's tags stores, in the order given: each tag
/// normalized, blank ones dropped, a repeated one kept once.
pub open spec fn stored_tags_spec(tags: Seq<Seq<char>>) -> Seq<Seq<char>>
    decreases tags.len(),
{
    if tags.len() == 0 {
        Seq::empty()
    } else {
        let kept = stored_tags_spec(tags.drop_last());
        let t = normalized_tag(tags.last());
        if t.len() == 0 || kept.contains(t) {
            kept
        } else {
            kept.push(t)
        }
    }
}

/// The tags to store for a repository when its tags are replaced by `tags`.
pub fn tags_to_store(tags: &Vec<String>) -> (r: Vec<String>)
    ensures
        texts(r@) == stored_tags_spec(texts(tags@)),
{
    let n = tags.len();
    let mut r: Vec<String> = Vec::new();
    for i in 0..n
        invariant
            n == tags@.len(),
            texts(r@) == stored_tags_spec(texts(tags@.take(i as int))),
    {
        proof {
            assert(texts(tags@.take(i + 1)).drop_last() =~= texts(tags@.take(i as int)));
            assert(texts(tags@.take(i + 1)).last() == tags@[i as int]@);
        }
        let t = normalize_tag(tags[i].as_str());
        let mut seen = false;
        let len = r.len();
        for k in 0..len
            invariant
                len == r@.len(),
                seen <==> exists|x: int| 0 <= x < k && r@[x]@ == t@,
        {
            if crate::text::same_text(r[k].as_str(), t.as_str()) {
                seen = true;
            }
        }
        proof {
            if seen {
                let x = choose|x: int| 0 <= x < len && r@[x]@ == t@;
                assert(texts(r@)[x] == t@);
            }
            if texts(r@).contains(t@) {
                let x = choose|x: int| 0 <= x < texts(r@).len() && texts(r@)[x] == t@;
                assert(r@[x]@ == t@);
            }
        }
        if t.unicode_len() != 0 && !seen {
            let ghost before = r@;
            r.push(t);
            proof {
                assert(texts(r@) =~= texts(before).push(t@));
            }
        }
    }
    proof {
        assert(tags@.take(n as int) =~= tags@);
    }
    r
}

/// Replacing tags stores each normalized, non-blank tag exactly once and nothing else.
pub proof fn law_stored_tags(tags: Seq<Seq<char>>)
    ensures
        stored_tags_spec(tags).no_duplicates(),
        forall|t: Seq<char>| #[trigger] stored_tags_spec(tags).contains(t) <==> (t.len() > 0 && exists|i: int|
            0 <= i < tags.len() && normalized_tag(#[trigger] tags[i]) == t),
    decreases tags.len(),
{
    if tags.len() > 0 {
        let rest = tags.drop_last();
        law_stored_tags(rest);
        let kept = stored_tags_spec(rest);
        let last = normalized_tag(tags.last());
        assert forall|t: Seq<char>| #[trigger] stored_tags_spec(tags).contains(t) <==> (t.len() > 0 && exists|i: int|
            0 <= i < tags.len() && normalized_tag(#[trigger] tags[i]) == t) by {
            if exists|i: int| 0 <= i < tags.len() && normalized_tag(#[trigger] tags[i]) == t {
                let i = choose|i: int| 0 <= i < tags.len() && normalized_tag(#[trigger] tags[i]) == t;
                if i < tags.len() - 1 {
                    assert(rest[i] == tags[i]);
                }
            }
            if exists|i: int| 0 <= i < rest.len() && normalized_tag(#[trigger] rest[i]) == t {
                let i = choose|i: int| 0 <= i < rest.len() && normalized_tag(#[trigger] rest[i]) == t;
                assert(tags[i] == rest[i]);
            }
            if stored_tags_spec(tags) != kept {
                assert(stored_tags_spec(tags) == kept.push(last));
                if t == last {
                    assert(kept.push(last)[kept.len() as int] == last);
                    assert(normalized_tag(tags[tags.len() - 1]) == t);
                }
                if kept.push(last).contains(t) && t != last {
                    let j = choose|j: int| 0 <= j < kept.push(last).len() && kept.push(last)[j] == t;
                    assert(kept[j] == t);
                }
                if kept.contains(t) {
                    let j = choose|j: int| 0 <= j < kept.len() && kept[j] == t;
                    assert(kept.push(last)[j] == t);
                }
            } else if t == last {
                assert(normalized_tag(tags[tags.len() - 1]) == t);
            }
        }
    }
}

/// Each list element comes no later than the ones after it.
pub open spec fn is_text_sorted(items: Seq<Seq<char>>) -> bool {
    forall|k: int, l: int| 0 <= k < l < items.len() ==> text_le(#[trigger] items[k], #[trigger] items[l])
}

/// Puts `x` into the sorted list `r` after the entries that come no later than it.
fn insert_sorted(r: &mut Vec<String>, x: String)
    requires
        is_text_sorted(texts(old(r)@)),
    ensures
        is_text_sorted(texts(final(r)@)),
        texts(final(r)@).to_multiset() == texts(old(r)@).to_multiset().insert(x@),
{
    let ghost xv = x@;
    let mut pos: usize = 0;
    while pos < r.len() && text_at_most(r[pos].as_str(), x.as_str())
        invariant
            xv == x@,
            pos <= r@.len(),
            is_text_sorted(texts(r@)),
            forall|k: int| 0 <= k < pos ==> text_le(#[trigger] r@[k]@, xv),
        decreases r@.len() - pos,
    {
        pos = pos + 1;
    }
    let ghost old_t = texts(r@);
    proof {
        assert forall|l: int| pos <= l < old_t.len() implies text_le(xv, #[trigger] old_t[l]) by {
            lemma_text_le_total(old_t[pos as int], xv);
            if l > pos {
                lemma_text_le_transitive(xv, old_t[pos as int], old_t[l]);
            }
        }
    }
    r.insert(pos, x);
    proof {
        let t = texts(r@);
        let a = old_t.subrange(0, pos as int);
        let b = old_t.subrange(pos as int, old_t.len() as int);
        assert(t =~= a.push(xv) + b);
        assert(old_t =~= a + b);
        vstd::seq_lib::lemma_multiset_commutative(a.push(xv), b);
        vstd::seq_lib::lemma_multiset_commutative(a, b);
        assert(t.to_multiset() =~= old_t.to_multiset().insert(xv));
        assert forall|k: int, l: int| 0 <= k < l < t.len() implies text_le(#[trigger] t[k], #[trigger] t[l]) by {
            if l < pos {
                assert(t[k] == old_t[k] && t[l] == old_t[l]);
            } else if l == pos {
                assert(t[k] == old_t[k] && t[l] == xv);
            } else if k < pos {
                assert(t[k] == old_t[k] && t[l] == old_t[l - 1]);
                lemma_text_le_transitive(old_t[k], xv, old_t[l - 1]);
            } else if k == pos {
                assert(t[k] == xv && t[l] == old_t[l - 1]);
            } else {
                assert(t[k] == old_t[k - 1] && t[l] == old_t[l - 1]);
            }
        }
    }
}

/// Tags in the order the saved list shows them: code-point order, as SQLite sorts text.
pub fn sort_tag_names(names: &Vec<String>) -> (r: Vec<String>)
    ensures
        is_text_sorted(texts(r@)),
        texts(r@).to_multiset() == texts(names@).to_multiset(),
{
    let n = names.len();
    let mut r: Vec<String> = Vec::new();
    for i in 0..n
        invariant
            n == names@.len(),
            is_text_sorted(texts(r@)),
            texts(r@).to_multiset() == texts(names@.take(i as int)).to_multiset(),
    {
        proof {
            assert(texts(names@.take(i + 1)) =~= texts(names@.take(i as int)).push(names@[i as int]@));
        }
        let x = names[i].clone();
        insert_sorted(&mut r, x);
    }
    proof {
        assert(names@.take(n as int) =~= names@);
    }
    r
}

} // verus!
