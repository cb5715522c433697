//! The filter/sort engine: selects the table entries whose command
//! contains the query as a contiguous substring, and returns them sorted
//! ascending by command string (by alias between equal commands).

use vstd::prelude::*;
use vstd::relations::sorted_by;

use crate::table::{entry_le, entry_order, lemma_entry_order_total, views, AliasEntry, EntryModel};
use crate::text::is_substring;

verus! {

/// The selection predicate: the entry's command contains `q`.
pub open spec fn entry_matches(e: EntryModel, q: Seq<char>) -> bool {
    is_substring(e.command, q)
}

/// All entries of `rows` whose command contains `q`, in table order.
pub open spec fn matches_of(q: Seq<char>, rows: Seq<EntryModel>) -> Seq<EntryModel> {
    rows.filter(|e: EntryModel| entry_matches(e, q))
}

/// What the engine returns: the matching entries, sorted by `entry_le`.
pub open spec fn engine_spec(q: Seq<char>, rows: Seq<EntryModel>) -> Seq<EntryModel> {
    matches_of(q, rows).sort_by(entry_order())
}

/// Entries kept by a filter all stem from the filtered sequence and
/// satisfy the predicate.
proof fn lemma_filter_subset<A>(s: Seq<A>, pred: spec_fn(A) -> bool, x: A)
    requires
        s.filter(pred).contains(x),
    ensures
        s.contains(x),
        pred(x),
    decreases s.len(),
{
    reveal(Seq::filter);
    if s.len() > 0 {
        let prefix = s.drop_last();
        if pred(s.last()) && x == s.last() {
            assert(s[s.len() - 1] == x);
        } else {
            assert(prefix.filter(pred).contains(x));
            lemma_filter_subset(prefix, pred, x);
            let i = choose|i: int| 0 <= i < prefix.len() && prefix[i] == x;
            assert(s[i] == x);
        }
    }
}

/// Law: filtering is sound and complete. Every entry the engine returns
/// contains the query in its command string and stems from the table, and
/// every table entry whose command contains the query is returned.
pub proof fn lemma_engine_sound_and_complete(q: Seq<char>, rows: Seq<EntryModel>)
    ensures
        forall|i: int|
            0 <= i < engine_spec(q, rows).len() ==> is_substring(
                (#[trigger] engine_spec(q, rows)[i]).command,
                q,
            ),
        forall|i: int|
            0 <= i < engine_spec(q, rows).len() ==> rows.contains(
                #[trigger] engine_spec(q, rows)[i],
            ),
        forall|i: int|
            0 <= i < rows.len() && is_substring((#[trigger] rows[i]).command, q)
                ==> engine_spec(q, rows).contains(rows[i]),
{
    broadcast use vstd::seq_lib::group_to_multiset_ensures;

    let pred = |e: EntryModel| entry_matches(e, q);
    let m = matches_of(q, rows);
    let sorted = engine_spec(q, rows);
    lemma_entry_order_total();
    m.lemma_sort_by_ensures(entry_order());
    assert forall|i: int| 0 <= i < sorted.len() implies is_substring(
        (#[trigger] sorted[i]).command,
        q,
    ) && rows.contains(sorted[i]) by {
        let x = sorted[i];
        assert(sorted.contains(x));
        assert(sorted.to_multiset().count(x) > 0);
        assert(m.to_multiset().count(x) > 0);
        assert(m.contains(x));
        lemma_filter_subset(rows, pred, x);
    }
    assert forall|i: int|
        0 <= i < rows.len() && is_substring((#[trigger] rows[i]).command, q) implies sorted
        .contains(rows[i]) by {
        Seq::lemma_filter_contains(rows, pred, i);
        assert(m.to_multiset().count(rows[i]) > 0);
        assert(sorted.to_multiset().count(rows[i]) > 0);
    }
}

/// Law: the engine's result is non-decreasing by command string under
/// lexicographic order.
pub proof fn lemma_engine_sorted_by_command(q: Seq<char>, rows: Seq<EntryModel>)
    ensures
        forall|i: int, j: int|
            0 <= i < j < engine_spec(q, rows).len() ==> crate::text::lex_le(
                (#[trigger] engine_spec(q, rows)[i]).command,
                (#[trigger] engine_spec(q, rows)[j]).command,
            ),
{
    let sorted = engine_spec(q, rows);
    lemma_entry_order_total();
    matches_of(q, rows).lemma_sort_by_ensures(entry_order());
    assert forall|i: int, j: int| 0 <= i < j < sorted.len() implies crate::text::lex_le(
        (#[trigger] sorted[i]).command,
        (#[trigger] sorted[j]).command,
    ) by {
        let leq = entry_order();
        assert(leq(sorted[i], sorted[j]));
        assert(entry_le(sorted[i], sorted[j]));
        if sorted[i].command == sorted[j].command {
            crate::text::lemma_lex_le_reflexive(sorted[i].command);
        }
    }
}

/// Finds the position before the first element that `e` precedes
/// strictly, in a vector sorted by `entry_le`.
fn find_insert_pos(v: &Vec<AliasEntry>, e: &AliasEntry) -> (idx: usize)
    ensures
        idx <= v@.len(),
        forall|k: int| 0 <= k < idx ==> entry_le(#[trigger] views(v@)[k], e@),
        idx < v@.len() ==> !entry_le(views(v@)[idx as int], e@),
{
    let mut idx: usize = 0;
    loop
        invariant
            idx <= v@.len(),
            forall|k: int| 0 <= k < idx ==> entry_le(#[trigger] views(v@)[k], e@),
        decreases v@.len() - idx,
    {
        if idx == v.len() {
            return idx;
        }
        if !crate::table::entry_le_exec(&v[idx], e) {
            return idx;
        }
        idx = idx + 1;
    }
}

/// Inserts `e` into a vector sorted by `entry_le`, keeping it sorted.
fn insert_sorted(v: &mut Vec<AliasEntry>, e: AliasEntry)
    requires
        sorted_by(views(old(v)@), entry_order()),
    ensures
        final(v)@.len() == old(v)@.len() + 1,
        sorted_by(views(final(v)@), entry_order()),
        views(final(v)@).to_multiset() == views(old(v)@).to_multiset().insert(e@),
{
    let ghost leq = entry_order();
    let ghost old_views = views(v@);
    let idx = find_insert_pos(v, &e);
    let ghost em = e@;
    v.insert(idx, e);
    proof {
        lemma_entry_order_total();
        let new_views = views(v@);
        assert(new_views =~= old_views.insert(idx as int, em));
        assert forall|i: int, j: int| 0 <= i < j < new_views.len() implies #[trigger] leq(
            new_views[i],
            new_views[j],
        ) by {
            if j < idx {
                assert(leq(old_views[i], old_views[j]));
            } else if i > idx {
                assert(leq(old_views[i - 1], old_views[j - 1]));
            } else if i < idx && j == idx {
                assert(leq(old_views[i], em));
            } else if i == idx {
                // em precedes the element that was at idx, and by
                // transitivity everything after it.
                assert(!leq(old_views[idx as int], em));
                assert(leq(em, old_views[idx as int]));
                if j - 1 > idx {
                    assert(leq(old_views[idx as int], old_views[j - 1]));
                }
            } else {
                // i < idx < j
                assert(leq(old_views[i], em));
                assert(!leq(old_views[idx as int], em));
                assert(leq(em, old_views[idx as int]));
                if j - 1 > idx {
                    assert(leq(old_views[idx as int], old_views[j - 1]));
                }
            }
        }
        vstd::seq_lib::to_multiset_insert(old_views, idx as int, em);
    }
}

/// Returns the entries of `table` whose command contains `query`, sorted
/// ascending by command string (and by alias between equal commands).
pub fn filter_and_sort(query: &Vec<char>, table: &Vec<AliasEntry>) -> (res: Vec<AliasEntry>)
    ensures
        views(res@) == engine_spec(query@, views(table@)),
{
    let ghost rows = views(table@);
    let ghost pred = |e: EntryModel| entry_matches(e, query@);
    let mut out: Vec<AliasEntry> = Vec::new();
    let mut i: usize = 0;
    proof {
        lemma_entry_order_total();
        assert(views(out@) =~= Seq::<EntryModel>::empty());
        assert(rows.take(0).filter(pred) =~= Seq::<EntryModel>::empty()) by {
            reveal(Seq::filter);
            assert(rows.take(0) =~= Seq::<EntryModel>::empty());
        }
        assert(views(out@).to_multiset() =~= rows.take(0).filter(pred).to_multiset());
    }
    while i < table.len()
        invariant
            i <= table@.len(),
            rows == views(table@),
            pred == (|e: EntryModel| entry_matches(e, query@)),
            sorted_by(views(out@), entry_order()),
            views(out@).to_multiset() == rows.take(i as int).filter(pred).to_multiset(),
        decreases table@.len() - i,
    {
        let matched = crate::text::str_contains_chars(table[i].command.as_str(), query);
        proof {
            assert(rows.take(i + 1).drop_last() =~= rows.take(i as int));
            assert(rows.take(i + 1).last() == rows[i as int]);
            assert(rows.take(i + 1).filter(pred) == if pred(rows[i as int]) {
                rows.take(i as int).filter(pred).push(rows[i as int])
            } else {
                rows.take(i as int).filter(pred)
            }) by {
                reveal(Seq::filter);
            }
        }
        if matched {
            insert_sorted(&mut out, table[i].clone());
            proof {
                vstd::seq_lib::to_multiset_build(rows.take(i as int).filter(pred), rows[i as int]);
            }
        }
        i = i + 1;
    }
    proof {
        assert(rows.take(rows.len() as int) =~= rows);
        matches_of(query@, rows).lemma_sort_by_ensures(entry_order());
        vstd::seq_lib::lemma_sorted_unique(
            views(out@),
            engine_spec(query@, rows),
            entry_order(),
        );
        assert(views(out@) =~= engine_spec(query@, rows));
    }
    out
}

} // verus!
