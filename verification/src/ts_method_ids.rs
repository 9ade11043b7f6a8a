//! The TypeScript table of canonical method ids: one entry per method,
//! keyed by the method's fully qualified name, in the order of the names.
//!
//! The names and the id literals reach the generator already written out;
//! the entries are sorted by name (as `str` orders text: by code point),
//! entries of equal name keeping their given order.
use vstd::prelude::*;

use vstd::string::StringExecFns;

verus! {

/// Text order: lexicographic by code point.
pub open spec fn text_lt(a: Seq<char>, b: Seq<char>) -> bool
    decreases a.len(),
{
    if a.len() == 0 {
        b.len() > 0
    } else if b.len() == 0 {
        false
    } else if (a[0] as u32) != (b[0] as u32) {
        (a[0] as u32) < (b[0] as u32)
    } else {
        text_lt(a.drop_first(), b.drop_first())
    }
}

/// No text comes before itself.
pub proof fn lemma_text_lt_irreflexive(a: Seq<char>)
    ensures
        !text_lt(a, a),
    decreases a.len(),
{
    if a.len() > 0 {
        lemma_text_lt_irreflexive(a.drop_first());
    }
}

/// Of two texts, at most one comes before the other.
pub proof fn lemma_text_lt_asymmetric(a: Seq<char>, b: Seq<char>)
    ensures
        text_lt(a, b) ==> !text_lt(b, a),
    decreases a.len(),
{
    if a.len() > 0 && b.len() > 0 && (a[0] as u32) == (b[0] as u32) {
        lemma_text_lt_asymmetric(a.drop_first(), b.drop_first());
    }
}

/// When `c` comes before `a`, it comes before `b` or `b` comes before `a`:
/// "not before" is transitive.
pub proof fn lemma_text_lt_negatively_transitive(a: Seq<char>, b: Seq<char>, c: Seq<char>)
    ensures
        text_lt(c, a) ==> text_lt(c, b) || text_lt(b, a),
    decreases a.len(),
{
    if a.len() > 0 && b.len() > 0 && c.len() > 0 && (a[0] as u32) == (b[0] as u32) && (b[0] as u32)
        == (c[0] as u32) {
        lemma_text_lt_negatively_transitive(a.drop_first(), b.drop_first(), c.drop_first());
    }
}

/// A table entry: the name and the id literal.
pub type Entry = (Seq<char>, Seq<char>);

/// The entries as character sequences.
pub open spec fn entries_view(v: Seq<(String, String)>) -> Seq<Entry> {
    v.map_values(|p: (String, String)| (p.0@, p.1@))
}

/// Whether the entries are in the order of their names.
pub open spec fn sorted_by_name(s: Seq<Entry>) -> bool {
    forall|a: int, b: int| 0 <= a < b < s.len() ==> !text_lt(#[trigger] s[b].0, #[trigger] s[a].0)
}

/// Whether an entry bears the name `k`.
pub open spec fn name_is(k: Seq<char>) -> spec_fn(Entry) -> bool {
    |e: Entry| e.0 == k
}

/// The entries of name `k`, in order.
pub open spec fn named(s: Seq<Entry>, k: Seq<char>) -> Seq<Entry> {
    s.filter(name_is(k))
}

/// `t` holds the entries of `s` ordered by name, entries of equal name in
/// the order `s` gives them.
pub open spec fn stably_sorted(t: Seq<Entry>, s: Seq<Entry>) -> bool {
    &&& t.len() == s.len()
    &&& sorted_by_name(t)
    &&& forall|k: Seq<char>| #[trigger] named(t, k) == named(s, k)
}

/// Of two different texts, one comes before the other.
pub proof fn lemma_text_lt_total(a: Seq<char>, b: Seq<char>)
    ensures
        !text_lt(a, b) && !text_lt(b, a) ==> a == b,
    decreases a.len(),
{
    if a.len() > 0 && b.len() > 0 && (a[0] as u32) == (b[0] as u32) {
        lemma_text_lt_total(a.drop_first(), b.drop_first());
        if !text_lt(a, b) && !text_lt(b, a) {
            vstd::utf8::char_u32_cast(a[0], a[0] as u32);
            vstd::utf8::char_u32_cast(b[0], a[0] as u32);
            assert(a[0] == b[0]);
            assert(a =~= seq![a[0]] + a.drop_first());
            assert(b =~= seq![b[0]] + b.drop_first());
        }
    } else if a.len() == 0 && b.len() == 0 {
        assert(a =~= b);
    }
}

/// The entries of name `k` of a sequence: those of its first entry, then
/// those of the rest.
proof fn lemma_named_first(t: Seq<Entry>, k: Seq<char>)
    requires
        t.len() > 0,
    ensures
        named(t, k) == if t[0].0 == k {
            seq![t[0]] + named(t.drop_first(), k)
        } else {
            named(t.drop_first(), k)
        },
{
    let f = name_is(k);
    assert(t =~= seq![t[0]] + t.drop_first());
    Seq::filter_distributes_over_add(seq![t[0]], t.drop_first(), f);
    Seq::<Entry>::empty().lemma_filter_push(t[0], f);
    assert(Seq::<Entry>::empty().push(t[0]) =~= seq![t[0]]);
    assert(Seq::<Entry>::empty().filter(f) =~= Seq::<Entry>::empty()) by {
        reveal(Seq::filter);
    }
}

/// A sequence without an entry of name `k` has no entries of that name.
proof fn lemma_named_none(t: Seq<Entry>, k: Seq<char>)
    requires
        forall|i: int| 0 <= i < t.len() ==> (#[trigger] t[i]).0 != k,
    ensures
        named(t, k) == Seq::<Entry>::empty(),
{
    let f = name_is(k);
    assert(t.all(|x: Entry| !f(x))) by {
        assert forall|i: int| 0 <= i < t.len() implies !f(#[trigger] t[i]) by {}
    }
    t.lemma_all_neg_filter_empty(f);
    assert(named(t, k) =~= Seq::<Entry>::empty());
}

/// Two sequences ordered by name that hold the same entries of each name,
/// in the same order, are the same: a stable sort has one outcome.
pub proof fn lemma_sorted_unique(t1: Seq<Entry>, t2: Seq<Entry>)
    requires
        sorted_by_name(t1),
        sorted_by_name(t2),
        forall|k: Seq<char>| #[trigger] named(t1, k) == named(t2, k),
    ensures
        t1 == t2,
    decreases t1.len(),
{
    if t1.len() == 0 && t2.len() == 0 {
        assert(t1 =~= t2);
    } else if t1.len() == 0 {
        lemma_named_first(t2, t2[0].0);
        lemma_named_none(t1, t2[0].0);
        assert(named(t1, t2[0].0) == named(t2, t2[0].0));
    } else if t2.len() == 0 {
        lemma_named_first(t1, t1[0].0);
        lemma_named_none(t2, t1[0].0);
        assert(named(t1, t1[0].0) == named(t2, t1[0].0));
    } else {
        let k1 = t1[0].0;
        let k2 = t2[0].0;
        // An entry of t2 bears k1, so k2 does not come after k1.
        lemma_named_first(t1, k1);
        assert(named(t2, k1) == named(t1, k1));
        assert(!text_lt(k1, k2)) by {
            if text_lt(k1, k2) {
                assert forall|i: int| 0 <= i < t2.len() implies (#[trigger] t2[i]).0 != k1 by {
                    if i > 0 {
                        assert(!text_lt(t2[i].0, t2[0].0));
                    } else {
                        lemma_text_lt_irreflexive(k1);
                    }
                }
                lemma_named_none(t2, k1);
            }
        }
        lemma_named_first(t2, k2);
        assert(named(t1, k2) == named(t2, k2));
        assert(!text_lt(k2, k1)) by {
            if text_lt(k2, k1) {
                assert forall|i: int| 0 <= i < t1.len() implies (#[trigger] t1[i]).0 != k2 by {
                    if i > 0 {
                        assert(!text_lt(t1[i].0, t1[0].0));
                    } else {
                        lemma_text_lt_irreflexive(k2);
                    }
                }
                lemma_named_none(t1, k2);
            }
        }
        lemma_text_lt_total(k1, k2);
        assert(k1 == k2);
        assert(named(t1, k1)[0] == t1[0]);
        assert(named(t2, k1)[0] == t2[0]);
        assert(t1[0] == t2[0]);
        let r1 = t1.drop_first();
        let r2 = t2.drop_first();
        assert forall|k: Seq<char>| #[trigger] named(r1, k) == named(r2, k) by {
            lemma_named_first(t1, k);
            lemma_named_first(t2, k);
            assert(named(t1, k) == named(t2, k));
            if k == k1 {
                assert(named(r1, k) =~= named(t1, k).drop_first());
                assert(named(r2, k) =~= named(t2, k).drop_first());
            }
        }
        assert forall|a: int, b: int| 0 <= a < b < r1.len() implies !text_lt(
            #[trigger] r1[b].0,
            #[trigger] r1[a].0,
        ) by {
            assert(!text_lt(t1[b + 1].0, t1[a + 1].0));
        }
        assert forall|a: int, b: int| 0 <= a < b < r2.len() implies !text_lt(
            #[trigger] r2[b].0,
            #[trigger] r2[a].0,
        ) by {
            assert(!text_lt(t2[b + 1].0, t2[a + 1].0));
        }
        lemma_sorted_unique(r1, r2);
        assert(t1 =~= seq![t1[0]] + r1);
        assert(t2 =~= seq![t2[0]] + r2);
    }
}

/// Whether no two entries bear the same name.
pub open spec fn distinct_names(s: Seq<Entry>) -> bool {
    forall|i: int, j: int| 0 <= i < j < s.len() ==> (#[trigger] s[i]).0 != (#[trigger] s[j]).0
}

/// In a sequence of distinct names, the entries of the name of one of its
/// entries are that entry alone.
proof fn lemma_named_distinct(s: Seq<Entry>, i: int)
    requires
        distinct_names(s),
        0 <= i < s.len(),
    ensures
        named(s, s[i].0) == seq![s[i]],
    decreases s.len(),
{
    let k = s[i].0;
    lemma_named_first(s, k);
    let r = s.drop_first();
    assert forall|a: int, b: int| 0 <= a < b < r.len() implies (#[trigger] r[a]).0 != (
    #[trigger] r[b]).0 by {
        assert(s[a + 1] == r[a] && s[b + 1] == r[b]);
    }
    if i == 0 {
        assert forall|l: int| 0 <= l < r.len() implies (#[trigger] r[l]).0 != k by {
            assert(s[l + 1] == r[l]);
        }
        lemma_named_none(r, k);
        assert(seq![s[0]] + Seq::<Entry>::empty() =~= seq![s[0]]);
    } else {
        assert(s[i] == r[i - 1]);
        lemma_named_distinct(r, i - 1);
    }
}

/// The method id table does not depend on the order in which the methods
/// come: for entries of distinct names, any reordering (which keeps the
/// names distinct) gives the same
/// stably sorted table, hence the same module text.
pub proof fn law_method_ids_ignore_order(
    s1: Seq<Entry>,
    s2: Seq<Entry>,
    t1: Seq<Entry>,
    t2: Seq<Entry>,
)
    requires
        distinct_names(s1),
        distinct_names(s2),
        s2.to_multiset() == s1.to_multiset(),
        stably_sorted(t1, s1),
        stably_sorted(t2, s2),
    ensures
        t1 == t2,
        method_ids_module(t1) == method_ids_module(t2),
{
    broadcast use vstd::seq_lib::to_multiset_contains;

    assert forall|k: Seq<char>| #[trigger] named(s1, k) == named(s2, k) by {
        if exists|i: int| 0 <= i < s1.len() && s1[i].0 == k {
            let i = choose|i: int| 0 <= i < s1.len() && s1[i].0 == k;
            lemma_named_distinct(s1, i);
            assert(s1.to_multiset().count(s1[i]) > 0);
            assert(s2.contains(s1[i]));
            let j = choose|j: int| 0 <= j < s2.len() && s2[j] == s1[i];
            lemma_named_distinct(s2, j);
        } else {
            assert forall|l: int| 0 <= l < s1.len() implies (#[trigger] s1[l]).0 != k by {}
            lemma_named_none(s1, k);
            assert forall|l: int| 0 <= l < s2.len() implies (#[trigger] s2[l]).0 != k by {
                assert(s2.to_multiset().count(s2[l]) > 0);
                assert(s1.contains(s2[l]));
            }
            lemma_named_none(s2, k);
        }
    }
    assert forall|k: Seq<char>| #[trigger] named(t1, k) == named(t2, k) by {
        assert(named(t1, k) == named(s1, k));
        assert(named(t2, k) == named(s2, k));
    }
    lemma_sorted_unique(t1, t2);
}

/// Whether text `a` comes before text `b`.
pub fn str_lt(a: &str, b: &str) -> (r: bool)
    ensures
        r == text_lt(a@, b@),
{
    let n = a.unicode_len();
    let m = b.unicode_len();
    let mut i: usize = 0;
    assert(a@.skip(0) =~= a@);
    assert(b@.skip(0) =~= b@);
    while i < n && i < m
        invariant
            n == a@.len(),
            m == b@.len(),
            i <= n,
            i <= m,
            text_lt(a@, b@) == text_lt(a@.skip(i as int), b@.skip(i as int)),
        decreases n - i,
    {
        let x = a.get_char(i) as u32;
        let y = b.get_char(i) as u32;
        if x != y {
            return x < y;
        }
        assert(a@.skip(i as int).drop_first() =~= a@.skip(i + 1));
        assert(b@.skip(i as int).drop_first() =~= b@.skip(i + 1));
        i = i + 1;
    }
    i < m
}

/// Inserting an entry in front of entries of other names leaves the
/// entries of each name as they were, with the new one after those of its
/// own name.
proof fn lemma_named_insert(t: Seq<Entry>, j: int, x: Entry, k: Seq<char>)
    requires
        0 <= j <= t.len(),
        forall|l: int| j <= l < t.len() ==> (#[trigger] t[l]).0 != x.0,
    ensures
        named(t.insert(j, x), k) == if x.0 == k {
            named(t, k).push(x)
        } else {
            named(t, k)
        },
{
    let f = name_is(k);
    let pre = t.subrange(0, j);
    let post = t.subrange(j, t.len() as int);
    assert(t =~= pre + post);
    assert(t.insert(j, x) =~= pre.push(x) + post);
    Seq::filter_distributes_over_add(pre, post, f);
    Seq::filter_distributes_over_add(pre.push(x), post, f);
    pre.lemma_filter_push(x, f);
    if x.0 == k {
        assert forall|l: int| 0 <= l < post.len() implies !f(post[l]) by {
            assert(post[l] == t[j + l]);
        }
        post.lemma_all_neg_filter_empty(f);
        assert(post.filter(f) =~= Seq::<Entry>::empty());
        assert(pre.filter(f) + post.filter(f) =~= pre.filter(f));
        assert(pre.filter(f).push(x) + post.filter(f) =~= pre.filter(f).push(x));
    }
}

/// Sorts entries by name, entries of equal name keeping their order.
pub fn sort_by_name(items: &Vec<(String, String)>) -> (r: Vec<(String, String)>)
    ensures
        stably_sorted(entries_view(r@), entries_view(items@)),
{
    let ghost input = entries_view(items@);
    let mut out: Vec<(String, String)> = Vec::new();
    let mut i: usize = 0;
    assert(input.take(0) =~= entries_view(out@));
    while i < items.len()
        invariant
            i <= items@.len(),
            input == entries_view(items@),
            out@.len() == i,
            stably_sorted(entries_view(out@), input.take(i as int)),
        decreases items.len() - i,
    {
        let x = (items[i].0.clone(), items[i].1.clone());
        let ghost xv: Entry = (x.0@, x.1@);
        let ghost before = entries_view(out@);
        let mut j = out.len();
        while j > 0 && str_lt(x.0.as_str(), out[j - 1].0.as_str())
            invariant
                j <= out@.len(),
                before == entries_view(out@),
                xv == (x.0@, x.1@),
                forall|l: int| j <= l < before.len() ==> text_lt(xv.0, (#[trigger] before[l]).0),
            decreases j,
        {
            j = j - 1;
        }
        proof {
            assert forall|l: int| j <= l < before.len() implies (#[trigger] before[l]).0 != xv.0 by {
                lemma_text_lt_irreflexive(xv.0);
            }
            assert forall|k: Seq<char>| #[trigger] named(before.insert(j as int, xv), k) == named(
                input.take(i + 1),
                k,
            ) by {
                lemma_named_insert(before, j as int, xv, k);
                assert(input.take(i + 1) =~= input.take(i as int).push(xv));
                input.take(i as int).lemma_filter_push(xv, name_is(k));
            }
            let after = before.insert(j as int, xv);
            assert forall|a: int, b: int| 0 <= a < b < after.len() implies !text_lt(
                #[trigger] after[b].0,
                #[trigger] after[a].0,
            ) by {
                if b < j {
                } else if b == j {
                    if a < j - 1 {
                        assert(!text_lt(before[j - 1].0, before[a].0));
                        lemma_text_lt_negatively_transitive(before[a].0, before[j - 1].0, xv.0);
                    }
                } else if a == j {
                    lemma_text_lt_asymmetric(xv.0, before[b - 1].0);
                } else if a < j {
                    assert(!text_lt(before[b - 1].0, before[a].0));
                } else {
                    assert(!text_lt(before[b - 1].0, before[a - 1].0));
                }
            }
        }
        out.insert(j, x);
        assert(entries_view(out@) =~= before.insert(j as int, xv));
        i = i + 1;
    }
    assert(input.take(items@.len() as int) =~= input);
    out
}

/// The lines of the table.
pub open spec fn id_entries(s: Seq<Entry>) -> Seq<char>
    decreases s.len(),
{
    if s.len() == 0 {
        Seq::empty()
    } else {
        id_entries(s.drop_last()) + "  \""@ + s.last().0 + "\": "@ + s.last().1 + "n,\n"@
    }
}

/// The module holding the table of the given (sorted) entries.
pub open spec fn method_ids_module(s: Seq<Entry>) -> Seq<char> {
    "// @generated by roam-codegen\n"@ + "// This file defines canonical roam method IDs.\n\n"@
        + "export const METHOD_ID: Record<string, bigint> = {\n"@ + id_entries(s)
        + "} as const;\n"@
}

/// Generates the TypeScript module of canonical method ids from each
/// method's fully qualified name and id literal.
pub fn generate_method_ids(items: &Vec<(String, String)>) -> (s: String)
    ensures
        exists|t: Seq<Entry>| stably_sorted(t, entries_view(items@)) && s@ == method_ids_module(t),
{
    let sorted = sort_by_name(items);
    let ghost t = entries_view(sorted@);
    let mut s = "// @generated by roam-codegen\n".to_string();
    s.append("// This file defines canonical roam method IDs.\n\n");
    s.append("export const METHOD_ID: Record<string, bigint> = {\n");
    let mut lines = String::new();
    let mut i: usize = 0;
    while i < sorted.len()
        invariant
            i <= sorted@.len(),
            t == entries_view(sorted@),
            lines@ == id_entries(t.subrange(0, i as int)),
        decreases sorted.len() - i,
    {
        let ghost sub = t.subrange(0, i + 1);
        assert(sub.drop_last() == t.subrange(0, i as int));
        lines.append("  \"");
        lines.append(sorted[i].0.as_str());
        lines.append("\": ");
        lines.append(sorted[i].1.as_str());
        lines.append("n,\n");
        i = i + 1;
    }
    assert(t.subrange(0, t.len() as int) == t);
    s.append(lines.as_str());
    s.append("} as const;\n");
    assert(stably_sorted(t, entries_view(items@)) && s@ == method_ids_module(t));
    s
}

} // verus!
