//! The list of items that the service owns. Items stay in the order in which
//! they were added; no identifier occurs twice, no title is empty, and an
//! item has a time of completion exactly while it is done.

use vstd::prelude::*;
use vstd::string::StringExecFns;
use crate::laws::{
    lemma_delete_absent_is_noop, lemma_delete_removes_one, lemma_delete_title_leaves_none,
    lemma_filter_step, lemma_retitle_changes_one, lemma_toggle_absent_is_noop,
    lemma_toggle_flips_one,
};
use crate::todo::{
    appended, has_id, position, retitled, toggled, views, well_formed, without_id, without_title,
    Todo, TodoError, TodoView,
};

verus! {

/// The list of items, oldest first.
pub struct TodoList {
    items: Vec<Todo>,
}

impl View for TodoList {
    type V = Seq<TodoView>;

    closed spec fn view(&self) -> Seq<TodoView> {
        views(self.items@)
    }
}

impl TodoList {
    #[verifier::type_invariant]
    spec fn inv(&self) -> bool {
        well_formed(views(self.items@))
    }

    /// An empty list.
    pub fn new() -> (list: TodoList)
        ensures
            list@ == Seq::<TodoView>::empty(),
    {
        let list = TodoList { items: Vec::new() };
        assert(list@ =~= Seq::<TodoView>::empty());
        list
    }

    /// The number of items.
    pub fn len(&self) -> (n: usize)
        ensures
            n == self@.len(),
            well_formed(self@),
    {
        proof {
            use_type_invariant(self);
        }
        self.items.len()
    }

    /// The items, oldest first.
    pub fn items(&self) -> (items: &Vec<Todo>)
        ensures
            views(items@) == self@,
            well_formed(self@),
    {
        proof {
            use_type_invariant(self);
        }
        &self.items
    }

    /// The position of item `id`, if the list holds it.
    fn find(&self, id: u128) -> (found: Option<usize>)
        ensures
            well_formed(self@),
            match found {
                Some(k) => k < self@.len() && self@[k as int].id == id && has_id(self@, id)
                    && position(self@, id) == k,
                None => !has_id(self@, id),
            },
    {
        proof {
            use_type_invariant(self);
        }
        let mut k: usize = 0;
        while k < self.items.len()
            invariant
                k <= self.items.len(),
                well_formed(self@),
                forall|i: int| 0 <= i < k ==> (#[trigger] self@[i]).id != id,
            decreases self.items.len() - k,
        {
            if self.items[k].id == id {
                assert(self@[k as int].id == id);
                return Some(k);
            }
            k += 1;
        }
        None
    }

    /// Moves the items out and leaves the list empty, so that they can be
    /// changed and put back.
    fn take_items(&mut self) -> (items: Vec<Todo>)
        ensures
            items@ == old(self).items@,
            final(self).items@ == Seq::<Todo>::empty(),
    {
        let mut items: Vec<Todo> = Vec::new();
        assert(views(items@) =~= Seq::<TodoView>::empty());
        std::mem::swap(&mut self.items, &mut items);
        items
    }

    /// Whether the list holds item `id`.
    pub fn contains(&self, id: u128) -> (found: bool)
        ensures
            found == has_id(self@, id),
    {
        self.find(id).is_some()
    }

    /// Item `id`, if the list holds it.
    pub fn get(&self, id: u128) -> (found: Option<&Todo>)
        ensures
            well_formed(self@),
            found is Some <==> has_id(self@, id),
            found matches Some(item) ==> item@ == self@[position(self@, id)] && item.id == id,
    {
        match self.find(id) {
            Some(k) => Some(&self.items[k]),
            None => None,
        }
    }

    /// Stores a new item, created at `now` and not done, at the end of the
    /// list. An empty title is turned down first, then an identifier that is
    /// already in use; the list is then left as it was.
    pub fn insert(&mut self, id: u128, title: String, now: i64) -> (res: Result<(), TodoError>)
        ensures
            well_formed(old(self)@),
            well_formed(final(self)@),
            title@.len() == 0 ==> res == Err::<(), TodoError>(TodoError::EmptyTitle),
            title@.len() > 0 && has_id(old(self)@, id) ==> res == Err::<(), TodoError>(
                TodoError::DuplicateId,
            ),
            title@.len() > 0 && !has_id(old(self)@, id) ==> res is Ok,
            res is Ok ==> final(self)@ == appended(old(self)@, id, title@, now),
            res is Err ==> final(self)@ == old(self)@,
    {
        proof {
            use_type_invariant(&*self);
        }
        if title.as_str().is_empty() {
            return Err(TodoError::EmptyTitle);
        }
        if self.find(id).is_some() {
            return Err(TodoError::DuplicateId);
        }
        let ghost before = self@;
        let ghost shown = title@;
        let mut items = self.take_items();
        items.push(Todo { id, title, done: false, created_at: now, done_at: None });
        assert(views(items@) =~= appended(before, id, shown, now));
        self.items = items;
        Ok(())
    }

    /// Flips the completion flag of item `id` and returns the new flag. An
    /// item that becomes done is marked done at `now`; one that becomes open
    /// loses its time of completion. Without such an item nothing changes.
    pub fn toggle_done(&mut self, id: u128, now: i64) -> (res: Result<bool, TodoError>)
        ensures
            well_formed(old(self)@),
            well_formed(final(self)@),
            final(self)@ == toggled(old(self)@, id, now),
            has_id(old(self)@, id) ==> res == Ok::<bool, TodoError>(
                !old(self)@[position(old(self)@, id)].done,
            ),
            !has_id(old(self)@, id) ==> res == Err::<bool, TodoError>(TodoError::NotFound)
                && final(self)@ == old(self)@,
    {
        let ghost before = self@;
        match self.find(id) {
            None => {
                proof {
                    lemma_toggle_absent_is_noop(before, id, now);
                }
                Err(TodoError::NotFound)
            },
            Some(k) => {
                let mut items = self.take_items();
                let done = !items[k].done;
                items[k].done = done;
                items[k].done_at = if done {
                    Some(now)
                } else {
                    None
                };
                proof {
                    lemma_toggle_flips_one(before, id, now);
                    assert(views(items@) =~= toggled(before, id, now));
                }
                self.items = items;
                Ok(done)
            },
        }
    }

    /// Gives item `id` a new title. An empty title is turned down first,
    /// then an identifier that no item has; the list is then left as it was.
    pub fn update_title(&mut self, id: u128, title: String) -> (res: Result<(), TodoError>)
        ensures
            well_formed(old(self)@),
            well_formed(final(self)@),
            title@.len() == 0 ==> res == Err::<(), TodoError>(TodoError::EmptyTitle),
            title@.len() > 0 && !has_id(old(self)@, id) ==> res == Err::<(), TodoError>(
                TodoError::NotFound,
            ),
            title@.len() > 0 && has_id(old(self)@, id) ==> res is Ok,
            res is Ok ==> final(self)@ == retitled(old(self)@, id, title@),
            res is Err ==> final(self)@ == old(self)@,
    {
        proof {
            use_type_invariant(&*self);
        }
        if title.as_str().is_empty() {
            return Err(TodoError::EmptyTitle);
        }
        let ghost before = self@;
        let ghost shown = title@;
        match self.find(id) {
            None => Err(TodoError::NotFound),
            Some(k) => {
                let mut items = self.take_items();
                items[k].title = title;
                proof {
                    lemma_retitle_changes_one(before, id, shown);
                    assert(views(items@) =~= retitled(before, id, shown));
                }
                self.items = items;
                Ok(())
            },
        }
    }

    /// Removes item `id` and says whether there was one. Without such an
    /// item nothing changes.
    pub fn delete(&mut self, id: u128) -> (removed: bool)
        ensures
            well_formed(old(self)@),
            well_formed(final(self)@),
            final(self)@ == without_id(old(self)@, id),
            removed == has_id(old(self)@, id),
            !removed ==> final(self)@ == old(self)@,
            removed ==> final(self)@ == old(self)@.remove(position(old(self)@, id)),
    {
        let ghost before = self@;
        match self.find(id) {
            None => {
                proof {
                    lemma_delete_absent_is_noop(before, id);
                }
                false
            },
            Some(k) => {
                let mut items = self.take_items();
                let _ = items.remove(k);
                proof {
                    lemma_delete_removes_one(before, id);
                    assert(views(items@) =~= before.remove(k as int));
                }
                self.items = items;
                true
            },
        }
    }

    /// Removes every item whose title is `title` and returns how many there
    /// were. The other items keep their order.
    pub fn delete_by_title(&mut self, title: &str) -> (removed: usize)
        ensures
            well_formed(old(self)@),
            well_formed(final(self)@),
            final(self)@ == without_title(old(self)@, title@),
            removed == old(self)@.len() - final(self)@.len(),
    {
        proof {
            use_type_invariant(&*self);
        }
        let ghost before = self@;
        let ghost keep = |t: TodoView| t.title != title@;
        let wanted = String::from_str(title);
        let mut items = self.take_items();
        let mut k: usize = 0;
        let mut removed: usize = 0;
        assert(before.len() == items.len());
        assert(before.take(0).filter(keep) + before.skip(0) =~= before) by {
            reveal(Seq::filter);
        }
        while k < items.len()
            invariant
                wanted@ == title@,
                keep == |t: TodoView| t.title != title@,
                k + removed <= before.len() <= usize::MAX,
                k == before.take(k + removed).filter(keep).len(),
                views(items@) == before.take(k + removed).filter(keep) + before.skip(
                    k + removed,
                ),
            decreases items.len() - k,
        {
            let ghost n = (k + removed) as int;
            let ghost kept = before.take(n).filter(keep);
            proof {
                assert(views(items@).len() == kept.len() + before.skip(n).len());
                assert(n < before.len());
                assert(views(items@)[k as int] == before.skip(n)[0]);
                assert(items@[k as int]@ == before[n]);
                lemma_filter_step(before, keep, n);
            }
            if items[k].title == wanted {
                let ghost held = views(items@);
                let _ = items.remove(k);
                removed += 1;
                assert(views(items@) =~= held.remove(k as int));
                assert(held.remove(k as int) =~= kept + before.skip(n + 1));
            } else {
                k += 1;
                assert(views(items@) =~= before.take(n + 1).filter(keep) + before.skip(n + 1));
            }
        }
        proof {
            let n = (k + removed) as int;
            assert(views(items@).len() == k + before.skip(n).len());
            assert(before.take(n) =~= before);
            assert(views(items@) =~= before.filter(keep));
            lemma_delete_title_leaves_none(before, title@);
        }
        self.items = items;
        removed
    }
}

} // verus!
