//! Laws of the list model: what adding, toggling, retitling and deleting do
//! to a well-formed list, and what they leave alone.

use vstd::prelude::*;
use crate::todo::{
    appended, flipped, has_id, new_item, position, renamed, retitled, toggled, well_formed,
    without_id, without_title, TodoView,
};

verus! {

/// A filter that every item passes keeps the whole sequence.
proof fn lemma_filter_keeps_all(s: Seq<TodoView>, keep: spec_fn(TodoView) -> bool)
    requires
        forall|i: int| 0 <= i < s.len() ==> keep(#[trigger] s[i]),
    ensures
        s.filter(keep) == s,
    decreases s.len(),
{
    reveal(Seq::filter);
    if s.len() > 0 {
        lemma_filter_keeps_all(s.drop_last(), keep);
        assert(s.drop_last().push(s.last()) =~= s);
    }
}

/// In a well-formed list an identifier is found at one position only.
pub proof fn lemma_position_is_unique(s: Seq<TodoView>, id: u128, k: int)
    requires
        well_formed(s),
        0 <= k < s.len(),
        s[k].id == id,
    ensures
        has_id(s, id),
        position(s, id) == k,
{
}

/// Deleting an identifier that no item has leaves the list as it is.
pub proof fn lemma_delete_absent_is_noop(s: Seq<TodoView>, id: u128)
    requires
        !has_id(s, id),
    ensures
        without_id(s, id) == s,
{
    lemma_filter_keeps_all(s, |t: TodoView| t.id != id);
}

/// Where position `i` of a list without its item `k` stood before.
spec fn shifted(i: int, k: int) -> int {
    if i < k {
        i
    } else {
        i + 1
    }
}

/// Deleting an identifier from a well-formed list that holds it removes
/// exactly the one item at its position: the list is one shorter, the other
/// items keep their order, and the identifier is gone.
pub proof fn lemma_delete_removes_one(s: Seq<TodoView>, id: u128)
    requires
        well_formed(s),
        has_id(s, id),
    ensures
        without_id(s, id) == s.remove(position(s, id)),
        without_id(s, id).len() == s.len() - 1,
        !has_id(without_id(s, id), id),
        well_formed(without_id(s, id)),
{
    let k = position(s, id);
    let keep = |t: TodoView| t.id != id;
    let front = s.take(k);
    let back = s.skip(k + 1);
    let one = seq![s[k]];
    assert(s =~= front + one + back);
    lemma_filter_keeps_all(front, keep);
    lemma_filter_keeps_all(back, keep);
    assert(one.filter(keep) =~= Seq::<TodoView>::empty()) by {
        reveal(Seq::filter);
        assert(one.drop_last().filter(keep) =~= Seq::<TodoView>::empty());
    }
    Seq::filter_distributes_over_add(front + one, back, keep);
    Seq::filter_distributes_over_add(front, one, keep);
    let rest = s.remove(k);
    assert(rest =~= front + back);
    assert(s.filter(keep) =~= rest);
    assert forall|i: int| 0 <= i < rest.len() implies (#[trigger] rest[i]) == s[shifted(i, k)] by {}
    assert(!has_id(rest, id));
    assert forall|i: int, j: int| 0 <= i < j < rest.len() implies (#[trigger] rest[i]).id != (
    #[trigger] rest[j]).id by {
        assert(rest[i] == s[shifted(i, k)] && rest[j] == s[shifted(j, k)]);
    }
}

/// Adding an item with a non-empty title and an unused identifier makes the
/// list one longer: the items before stay as they were, and the new item
/// stands last, not done, under its identifier.
pub proof fn lemma_add_grows_by_one(s: Seq<TodoView>, id: u128, title: Seq<char>, now: i64)
    requires
        well_formed(s),
        title.len() > 0,
        !has_id(s, id),
    ensures
        appended(s, id, title, now).len() == s.len() + 1,
        appended(s, id, title, now).drop_last() == s,
        appended(s, id, title, now).last() == new_item(id, title, now),
        !appended(s, id, title, now).last().done,
        has_id(appended(s, id, title, now), id),
        position(appended(s, id, title, now), id) == s.len(),
        well_formed(appended(s, id, title, now)),
{
    let grown = appended(s, id, title, now);
    assert(grown.drop_last() =~= s);
    assert(grown[s.len() as int].id == id);
    lemma_position_is_unique(grown, id, s.len() as int);
}

/// Toggling an identifier that a well-formed list holds flips the flag of the
/// item at its position, records or clears that item's time of completion,
/// and changes nothing else: no other item, no title, no identifier, no time
/// of creation, and not the order.
pub proof fn lemma_toggle_flips_one(s: Seq<TodoView>, id: u128, now: i64)
    requires
        well_formed(s),
        has_id(s, id),
    ensures
        toggled(s, id, now).len() == s.len(),
        toggled(s, id, now)[position(s, id)].done == !s[position(s, id)].done,
        toggled(s, id, now)[position(s, id)].done_at == if s[position(s, id)].done {
            None
        } else {
            Some(now)
        },
        forall|i: int|
            0 <= i < s.len() && i != position(s, id) ==> (#[trigger] toggled(s, id, now)[i])
                == s[i],
        forall|i: int|
            0 <= i < s.len() ==> {
                let after = #[trigger] toggled(s, id, now)[i];
                after.id == s[i].id && after.title == s[i].title && after.created_at
                    == s[i].created_at
            },
        toggled(s, id, now) == s.update(position(s, id), flipped(s[position(s, id)], now)),
        position(toggled(s, id, now), id) == position(s, id),
        well_formed(toggled(s, id, now)),
{
    let k = position(s, id);
    let after = toggled(s, id, now);
    assert forall|i: int| 0 <= i < s.len() && i != k implies (#[trigger] after[i]) == s[i] by {
        if s[i].id == id {
            lemma_position_is_unique(s, id, i);
        }
    }
    assert(after =~= s.update(k, flipped(s[k], now)));
    assert(after[k].id == id);
    lemma_position_is_unique(after, id, k);
}

/// Toggling an identifier that no item has leaves the list as it is.
pub proof fn lemma_toggle_absent_is_noop(s: Seq<TodoView>, id: u128, now: i64)
    requires
        !has_id(s, id),
    ensures
        toggled(s, id, now) == s,
{
    assert(toggled(s, id, now) =~= s);
}

/// Toggling the same identifier twice gives every flag back, and gives the
/// whole list back where the item was not done.
pub proof fn lemma_toggle_twice(s: Seq<TodoView>, id: u128, first: i64, second: i64)
    requires
        well_formed(s),
    ensures
        toggled(toggled(s, id, first), id, second).len() == s.len(),
        forall|i: int|
            0 <= i < s.len() ==> (#[trigger] toggled(toggled(s, id, first), id, second)[i]).done
                == s[i].done,
        has_id(s, id) && !s[position(s, id)].done ==> toggled(toggled(s, id, first), id, second)
            == s,
        !has_id(s, id) ==> toggled(toggled(s, id, first), id, second) == s,
{
    let twice = toggled(toggled(s, id, first), id, second);
    if has_id(s, id) {
        let k = position(s, id);
        if !s[k].done {
            assert forall|i: int| 0 <= i < s.len() implies twice[i] == s[i] by {
                if s[i].id == id {
                    lemma_position_is_unique(s, id, i);
                }
            }
            assert(twice =~= s);
        }
    } else {
        assert(twice =~= s);
    }
}

/// Giving a new, non-empty title to an identifier that a well-formed list
/// holds changes the title of the item at its position and nothing else.
pub proof fn lemma_retitle_changes_one(s: Seq<TodoView>, id: u128, title: Seq<char>)
    requires
        well_formed(s),
        has_id(s, id),
        title.len() > 0,
    ensures
        retitled(s, id, title).len() == s.len(),
        retitled(s, id, title)[position(s, id)].title == title,
        forall|i: int|
            0 <= i < s.len() && i != position(s, id) ==> (#[trigger] retitled(s, id, title)[i])
                == s[i],
        forall|i: int|
            0 <= i < s.len() ==> {
                let after = #[trigger] retitled(s, id, title)[i];
                after.id == s[i].id && after.done == s[i].done && after.created_at
                    == s[i].created_at && after.done_at == s[i].done_at
            },
        retitled(s, id, title) == s.update(position(s, id), renamed(s[position(s, id)], title)),
        well_formed(retitled(s, id, title)),
{
    let k = position(s, id);
    let after = retitled(s, id, title);
    assert forall|i: int| 0 <= i < s.len() && i != k implies (#[trigger] after[i]) == s[i] by {
        if s[i].id == id {
            lemma_position_is_unique(s, id, i);
        }
    }
    assert(after =~= s.update(k, renamed(s[k], title)));
}

/// Whatever is filtered out of a well-formed list, what stays is well formed,
/// passes the filter, and was in the list before.
pub proof fn lemma_filter_keeps_well_formed(s: Seq<TodoView>, keep: spec_fn(TodoView) -> bool)
    requires
        well_formed(s),
    ensures
        well_formed(s.filter(keep)),
        s.filter(keep).len() <= s.len(),
        forall|i: int|
            0 <= i < s.filter(keep).len() ==> keep(#[trigger] s.filter(keep)[i]) && has_id(
                s,
                s.filter(keep)[i].id,
            ),
    decreases s.len(),
{
    reveal(Seq::filter);
    if s.len() > 0 {
        let front = s.drop_last();
        let kept = front.filter(keep);
        lemma_filter_keeps_well_formed(front, keep);
        assert forall|i: int| 0 <= i < kept.len() implies has_id(s, (#[trigger] kept[i]).id)
            && kept[i].id != s.last().id by {
            let m = position(front, kept[i].id);
            assert(s[m] == front[m]);
        }
        assert(s[s.len() - 1].id == s.last().id);
    }
}

/// Deleting by title leaves no item with that title and keeps the list well
/// formed.
pub proof fn lemma_delete_title_leaves_none(s: Seq<TodoView>, title: Seq<char>)
    requires
        well_formed(s),
    ensures
        well_formed(without_title(s, title)),
        without_title(s, title).len() <= s.len(),
        forall|i: int|
            0 <= i < without_title(s, title).len() ==> (#[trigger] without_title(
                s,
                title,
            )[i]).title != title,
{
    lemma_filter_keeps_well_formed(s, |t: TodoView| t.title != title);
}

/// Filtering the first `n + 1` items: the filter of the first `n`, and after
/// it item `n` if it passes.
pub proof fn lemma_filter_step(s: Seq<TodoView>, keep: spec_fn(TodoView) -> bool, n: int)
    requires
        0 <= n < s.len(),
    ensures
        s.take(n + 1).filter(keep) == if keep(s[n]) {
            s.take(n).filter(keep).push(s[n])
        } else {
            s.take(n).filter(keep)
        },
{
    reveal(Seq::filter);
    assert(s.take(n + 1).drop_last() =~= s.take(n));
}

} // verus!
