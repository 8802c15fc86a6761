//! Character-level text operations: lexicographic order, equality, and the
//! ordered, duplicate-free lists of texts built from them.
use vstd::prelude::*;

verus! {

/// Lexicographic order by code point, the order of `str` in Rust.
pub open spec fn text_lt(a: Seq<char>, b: Seq<char>) -> bool
    decreases a.len(),
{
    if a.len() == 0 {
        b.len() > 0
    } else if b.len() == 0 {
        false
    } else if a[0] != b[0] {
        a[0] < b[0]
    } else {
        text_lt(a.drop_first(), b.drop_first())
    }
}

/// Every text of `s` comes strictly before the next: ordered and without repeats.
pub open spec fn strictly_sorted(s: Seq<Seq<char>>) -> bool {
    forall|i: int, j: int| 0 <= i < j < s.len() ==> text_lt(#[trigger] s[i], #[trigger] s[j])
}

pub proof fn lemma_text_lt_transitive(a: Seq<char>, b: Seq<char>, c: Seq<char>)
    requires
        text_lt(a, b),
        text_lt(b, c),
    ensures
        text_lt(a, c),
    decreases a.len(),
{
    if a.len() > 0 && b.len() > 0 && c.len() > 0 && a[0] == b[0] && b[0] == c[0] {
        lemma_text_lt_transitive(a.drop_first(), b.drop_first(), c.drop_first());
    }
}

pub proof fn lemma_text_lt_total(a: Seq<char>, b: Seq<char>)
    requires
        a != b,
    ensures
        text_lt(a, b) || text_lt(b, a),
    decreases a.len(),
{
    if a.len() > 0 && b.len() > 0 && a[0] == b[0] {
        assert(a.drop_first() != b.drop_first()) by {
            if a.drop_first() == b.drop_first() {
                assert(a == seq![a[0]] + a.drop_first());
                assert(b == seq![b[0]] + b.drop_first());
            }
        }
        lemma_text_lt_total(a.drop_first(), b.drop_first());
    } else if a.len() == 0 && b.len() == 0 {
        assert(a == b);
    }
}

/// Whether `a` comes strictly before `b`.
pub fn text_less(a: &str, b: &str) -> (r: bool)
    ensures
        r == text_lt(a@, b@),
{
    let a_len = a.unicode_len();
    let b_len = b.unicode_len();
    let mut i: usize = 0;
    assert(a@.skip(0) == a@ && b@.skip(0) == b@);
    while i < a_len && i < b_len
        invariant
            a_len == a@.len(),
            b_len == b@.len(),
            i <= a_len,
            i <= b_len,
            text_lt(a@, b@) == text_lt(a@.skip(i as int), b@.skip(i as int)),
        decreases a_len - i,
    {
        let ca = a.get_char(i);
        let cb = b.get_char(i);
        let ghost sa = a@.skip(i as int);
        let ghost sb = b@.skip(i as int);
        assert(sa[0] == ca && sb[0] == cb);
        if ca != cb {
            return ca < cb;
        }
        assert(sa.drop_first() == a@.skip(i + 1));
        assert(sb.drop_first() == b@.skip(i + 1));
        i = i + 1;
    }
    i == a_len && i < b_len
}

/// Whether `a` and `b` hold the same characters.
pub fn text_equals(a: &str, b: &str) -> (r: bool)
    ensures
        r == (a@ == b@),
{
    let a_len = a.unicode_len();
    let b_len = b.unicode_len();
    if a_len != b_len {
        return false;
    }
    let mut i: usize = 0;
    while i < a_len
        invariant
            a_len == a@.len(),
            b_len == b@.len(),
            a_len == b_len,
            i <= a_len,
            a@.take(i as int) == b@.take(i as int),
        decreases a_len - i,
    {
        if a.get_char(i) != b.get_char(i) {
            assert(a@[i as int] != b@[i as int]);
            return false;
        }
        assert(a@.take(i + 1) == a@.take(i as int).push(a@[i as int]));
        assert(b@.take(i + 1) == b@.take(i as int).push(b@[i as int]));
        i = i + 1;
    }
    assert(a@ == a@.take(i as int));
    assert(b@ == b@.take(i as int));
    true
}

/// The texts that a list of strings holds.
pub open spec fn texts(v: Seq<String>) -> Seq<Seq<char>> {
    v.map_values(|s: String| s@)
}

/// Adds `item` to an ordered list without repeats, at its place, unless the
/// list holds it already.
pub fn insert_sorted(list: &mut Vec<String>, item: String)
    requires
        strictly_sorted(texts(old(list)@)),
    ensures
        strictly_sorted(texts(final(list)@)),
        texts(final(list)@).to_set() == texts(old(list)@).to_set().insert(item@),
{
    let ghost before = texts(list@);
    let mut j: usize = 0;
    while j < list.len() && text_less(list[j].as_str(), item.as_str())
        invariant
            j <= list@.len(),
            texts(list@) == before,
            forall|k: int| 0 <= k < j ==> text_lt(#[trigger] before[k], item@),
        decreases list@.len() - j,
    {
        j = j + 1;
    }
    if j < list.len() && text_equals(list[j].as_str(), item.as_str()) {
        assert(before[j as int] == item@);
        assert(texts(list@).to_set() =~= before.to_set().insert(item@));
        return;
    }
    proof {
        if j < before.len() {
            lemma_text_lt_total(before[j as int], item@);
        }
    }
    let ghost item_text = item@;
    list.insert(j, item);
    let ghost after = texts(list@);
    assert(after =~= before.take(j as int).push(item_text) + before.skip(j as int));
    assert forall|a: int, b: int| 0 <= a < b < after.len() implies text_lt(
        #[trigger] after[a],
        #[trigger] after[b],
    ) by {
        if b < j {
        } else if a < j && b == j {
        } else if a < j {
            assert(text_lt(before[a], item_text));
            assert(text_lt(item_text, before[j as int]));
            if b - 1 > j {
                assert(text_lt(before[j as int], before[b - 1]));
                lemma_text_lt_transitive(item_text, before[j as int], before[b - 1]);
            }
            lemma_text_lt_transitive(before[a], item_text, before[b - 1]);
        } else if a == j {
            if b - 1 > j {
                assert(text_lt(before[j as int], before[b - 1]));
                lemma_text_lt_transitive(item_text, before[j as int], before[b - 1]);
            }
        } else {
            assert(after[a] == before[a - 1] && after[b] == before[b - 1]);
        }
    }
    assert forall|t: Seq<char>| after.to_set().contains(t) <==> before.to_set().insert(
        item_text,
    ).contains(t) by {
        if after.contains(t) {
            let k = choose|k: int| 0 <= k < after.len() && after[k] == t;
            if k < j {
                assert(before[k] == t);
            } else if k > j {
                assert(before[k - 1] == t);
            }
        }
        if before.contains(t) {
            let k = choose|k: int| 0 <= k < before.len() && before[k] == t;
            if k < j {
                assert(after[k] == t);
            } else {
                assert(after[k + 1] == t);
            }
        }
        if t == item_text {
            assert(after[j as int] == t);
        }
    }
    assert(after.to_set() =~= before.to_set().insert(item_text));
}

} // verus!
