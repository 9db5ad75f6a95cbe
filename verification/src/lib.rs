mod message;

pub use message::Message;

use std::collections::HashMap;
use vstd::prelude::*;

verus! {

broadcast use vstd::std_specs::hash::group_hash_axioms;

/// An in-memory, cursor-navigable history of [`Message`]s.
///
/// The container always holds at least one entry, keeps a single cursor that
/// is always a valid index, and caches two flags that say whether a forward or
/// a backward step is currently legal. Every mutating operation leaves the
/// flags the unique function of the new cursor and length. An auxiliary map
/// from identifier to position gives amortized-constant lookup by identifier.
#[derive(Debug, Clone)]
pub struct Messages<M> {
    list: Vec<Message<M>>,
    index: HashMap<u64, usize>,
    selected: usize,

    /// Can we go forward?
    pub forward: bool,

    /// Can we go backward?
    pub backward: bool,
}

impl<M> Messages<M> {
    /// The stored entries, in insertion order.
    pub closed spec fn items(self) -> Seq<Message<M>> {
        self.list@
    }

    /// The position of the currently selected entry.
    pub closed spec fn cursor(self) -> int {
        self.selected as int
    }

    /// The cached flag that says whether a forward step is legal.
    pub closed spec fn can_go_forward(self) -> bool {
        self.forward
    }

    /// The cached flag that says whether a backward step is legal.
    pub closed spec fn can_go_backward(self) -> bool {
        self.backward
    }

    /// The identifier-to-position map is in step with the entries: every
    /// recorded position is valid and carries the identifier it is filed
    /// under, and every stored entry's identifier is on file.
    spec fn index_ok(self) -> bool {
        &&& forall|id: u64|
            self.index@.contains_key(id) ==> #[trigger] self.index@[id] < self.list@.len()
                && self.list@[self.index@[id] as int].id == id
        &&& forall|i: int|
            0 <= i < self.list@.len() ==> self.index@.contains_key(#[trigger] self.list@[i].id)
    }

    /// Well-formedness: the container is never empty, the cursor is a valid
    /// index, each flag is exactly the stated function of the cursor and the
    /// length, and the identifier map is in step with the entries.
    pub closed spec fn wf(self) -> bool {
        &&& 0 < self.list@.len()
        &&& (self.selected as int) < self.list@.len()
        &&& self.forward == (self.selected as int + 1 < self.list@.len())
        &&& self.backward == (self.selected as int > 0)
        &&& self.index_ok()
    }

    /// A history always starts with one seed entry, which is selected, so
    /// neither a forward nor a backward step is legal.
    pub fn new(message: Message<M>) -> (h: Self)
        ensures
            h.wf(),
            h.items() =~= seq![message],
            h.cursor() == 0,
            !h.can_go_forward(),
            !h.can_go_backward(),
    {
        let id = message.id;
        let mut index: HashMap<u64, usize> = HashMap::new();
        index.insert(id, 0);
        let list = vec![message];
        Messages { list, index, selected: 0, forward: false, backward: false }
    }

    /// Appends an entry and selects it. The cursor lands on the new last
    /// position, so a forward step is never legal afterwards and a backward
    /// step always is.
    pub fn push(&mut self, message: Message<M>)
        requires
            old(self).wf(),
        ensures
            final(self).wf(),
            final(self).items() == old(self).items().push(message),
            final(self).cursor() == old(self).items().len() as int,
            !final(self).can_go_forward(),
            final(self).can_go_backward(),
    {
        let id = message.id;
        self.list.push(message);
        let last = self.list.len() - 1;
        self.index.insert(id, last);
        self.selected = last;
        self.forward = self.selected + 1 < self.list.len();
        self.backward = self.selected > 0;
    }

    /// Appends an entry without moving the cursor and returns the new entry's
    /// position, so that the caller may later skip to it. A forward step is
    /// always legal afterwards; whether a backward step is stays as it was.
    pub fn push_silent(&mut self, message: Message<M>) -> (i: usize)
        requires
            old(self).wf(),
        ensures
            final(self).wf(),
            final(self).items() == old(self).items().push(message),
            final(self).cursor() == old(self).cursor(),
            i as int == old(self).items().len() as int,
            final(self).can_go_forward(),
            final(self).can_go_backward() == old(self).can_go_backward(),
    {
        let id = message.id;
        self.list.push(message);
        self.index.insert(id, self.list.len() - 1);
        self.forward = self.selected + 1 < self.list.len();
        self.backward = self.selected > 0;
        self.list.len() - 1
    }

    /// The payload a given position holds: present exactly when the position
    /// is a valid index.
    pub open spec fn lookup(self, index: int) -> Option<M> {
        if 0 <= index < self.items().len() {
            Some(self.items()[index].message)
        } else {
            None
        }
    }

    /// Moves the cursor to the given position and returns the payload there,
    /// or returns nothing and changes nothing when the position is out of
    /// range.
    pub fn skip_to(&mut self, index: usize) -> (r: Option<&M>)
        requires
            old(self).wf(),
        ensures
            final(self).wf(),
            final(self).items() == old(self).items(),
            match r {
                Some(m) => {
                    &&& index < old(self).items().len()
                    &&& Some(*m) == old(self).lookup(index as int)
                    &&& final(self).cursor() == index
                    &&& final(self).can_go_forward() == (index + 1 < old(self).items().len())
                    &&& final(self).can_go_backward() == (index > 0)
                },
                None => {
                    &&& index >= old(self).items().len()
                    &&& *final(self) == *old(self)
                },
            },
    {
        if index < self.list.len() {
            self.selected = index;
            self.forward = self.selected + 1 < self.list.len();
            self.backward = self.selected > 0;
            Some(&self.list[index].message)
        } else {
            None
        }
    }

    /// Advances the cursor by exactly one position and returns the newly
    /// selected payload. Stepping forward when no forward step is legal is a
    /// precondition violation, not a condition this function recovers from:
    /// callers must check the flag first.
    pub fn forward(&mut self) -> (m: &M)
        requires
            old(self).wf(),
            old(self).can_go_forward(),
        ensures
            final(self).wf(),
            final(self).items() == old(self).items(),
            final(self).cursor() == old(self).cursor() + 1,
            Some(*m) == old(self).lookup(old(self).cursor() + 1),
            final(self).can_go_forward() == (old(self).cursor() + 2 < old(self).items().len()),
            final(self).can_go_backward(),
    {
        let len = self.list.len();
        self.selected = self.selected + 1;

        self.forward = self.selected + 1 < len;
        self.backward = self.selected > 0;

        self.selected()
    }

    /// Moves the cursor back by exactly one position and returns the newly
    /// selected payload. Stepping backward when no backward step is legal is a
    /// precondition violation, not a condition this function recovers from:
    /// callers must check the flag first.
    pub fn backward(&mut self) -> (m: &M)
        requires
            old(self).wf(),
            old(self).can_go_backward(),
        ensures
            final(self).wf(),
            final(self).items() == old(self).items(),
            final(self).cursor() == old(self).cursor() - 1,
            Some(*m) == old(self).lookup(old(self).cursor() - 1),
            final(self).can_go_forward(),
            final(self).can_go_backward() == (old(self).cursor() - 1 > 0),
    {
        self.selected = self.selected - 1;

        self.forward = self.selected + 1 < self.list.len();
        self.backward = self.selected > 0;

        self.selected()
    }

    /// The payload under the cursor. Always succeeds: the container is never
    /// empty and the cursor is always a valid index.
    pub fn selected(&self) -> (m: &M)
        requires
            self.wf(),
        ensures
            Some(*m) == self.lookup(self.cursor()),
    {
        &self.list[self.selected].message
    }

    /// The payload at an arbitrary position, without moving the cursor;
    /// nothing when the position is out of range.
    pub fn select(&self, index: usize) -> (r: Option<&M>)
        ensures
            match r {
                Some(m) => Some(*m) == self.lookup(index as int),
                None => self.lookup(index as int) is None,
            },
    {
        if index < self.list.len() {
            Some(&self.list[index].message)
        } else {
            None
        }
    }

    /// Mutable access to the payload under the cursor. Always succeeds: the
    /// container is never empty and the cursor is always a valid index. Only
    /// the payload can change through the returned reference; position,
    /// timestamp and identifier stay as they were.
    pub fn mut_selected(&mut self) -> (m: &mut M)
        requires
            old(self).wf(),
        ensures
            *m == old(self).items()[old(self).cursor()].message,
            final(self).items() == old(self).items().update(
                old(self).cursor(),
                old(self).items()[old(self).cursor()].with_message(*final(m)),
            ),
            final(self).cursor() == old(self).cursor(),
            final(self).can_go_forward() == old(self).can_go_forward(),
            final(self).can_go_backward() == old(self).can_go_backward(),
            final(self).wf(),
    {
        &mut self.list[self.selected].message
    }

    /// Mutable access to the payload at an arbitrary position, without moving
    /// the cursor; nothing when the position is out of range. Only the payload
    /// can change through the returned reference.
    pub fn mut_select(&mut self, index: usize) -> (r: Option<&mut M>)
        requires
            old(self).wf(),
        ensures
            final(self).wf(),
            final(self).cursor() == old(self).cursor(),
            final(self).can_go_forward() == old(self).can_go_forward(),
            final(self).can_go_backward() == old(self).can_go_backward(),
            match r {
                Some(m) => {
                    &&& index < old(self).items().len()
                    &&& *m == old(self).items()[index as int].message
                    &&& final(self).items() == old(self).items().update(
                        index as int,
                        old(self).items()[index as int].with_message(*final(m)),
                    )
                },
                None => {
                    &&& index >= old(self).items().len()
                    &&& *final(self) == *old(self)
                },
            },
    {
        if index < self.list.len() {
            Some(&mut self.list[index].message)
        } else {
            None
        }
    }

    /// The payload of the entry that carries the given identifier, or nothing
    /// when no entry does. Amortized-constant: the position comes from the
    /// identifier map, not from a scan.
    pub fn find(&self, id: u64) -> (r: Option<&M>)
        requires
            self.wf(),
        ensures
            match r {
                Some(m) => exists|i: int|
                    0 <= i < self.items().len() && self.items()[i].id == id && *m == self.items()[i].message,
                None => forall|i: int| 0 <= i < self.items().len() ==> self.items()[i].id != id,
            },
    {
        match self.index.get(&id) {
            Some(pos) => {
                let p: usize = *pos;
                proof {
                    assert(self.index@.contains_key(id) && self.index@[id] == p);
                    assert(0 <= (p as int) && (p as int) < self.items().len() && self.items()[p as int].id == id);
                }
                Some(&self.list[p].message)
            },
            None => None,
        }
    }

    /// Mutable access to the payload of the entry that carries the given
    /// identifier, or nothing when no entry does. Only the payload can change
    /// through the returned reference; position, timestamp and identifier
    /// stay as they were.
    pub fn mut_find(&mut self, id: u64) -> (r: Option<&mut M>)
        requires
            old(self).wf(),
        ensures
            final(self).wf(),
            final(self).cursor() == old(self).cursor(),
            final(self).can_go_forward() == old(self).can_go_forward(),
            final(self).can_go_backward() == old(self).can_go_backward(),
            match r {
                Some(m) => exists|i: int| {
                    &&& 0 <= i < old(self).items().len()
                    &&& old(self).items()[i].id == id
                    &&& *m == old(self).items()[i].message
                    &&& final(self).items() == old(self).items().update(
                        i,
                        old(self).items()[i].with_message(*final(m)),
                    )
                },
                None => {
                    &&& forall|i: int|
                        0 <= i < old(self).items().len() ==> old(self).items()[i].id != id
                    &&& *final(self) == *old(self)
                },
            },
    {
        let pos: Option<usize> = match self.index.get(&id) {
            Some(p) => Some(*p),
            None => None,
        };
        match pos {
            Some(p) => {
                proof {
                    assert(self.index@.contains_key(id) && self.index@[id] == p);
                    assert(0 <= (p as int) && (p as int) < self.items().len()
                        && self.items()[p as int].id == id);
                }
                Some(&mut self.list[p].message)
            },
            None => None,
        }
    }

    /// Consumes the history and hands out the payload at the given position,
    /// or nothing when the position is out of range.
    pub fn into_select(self, index: usize) -> (r: Option<M>)
        ensures
            match r {
                Some(m) => index < self.items().len() && m == self.items()[index as int].message,
                None => index >= self.items().len(),
            },
    {
        let mut list = self.list;
        if index >= list.len() {
            return None;
        }
        let message = list.swap_remove(index);
        Some(message.message)
    }

    /// Consumes the history and hands out the payload under the cursor.
    /// Always succeeds: the container is never empty and the cursor is always
    /// a valid index.
    pub fn into_selected(self) -> (m: M)
        requires
            self.wf(),
        ensures
            Some(m) == self.lookup(self.cursor()),
    {
        let index = self.selected;
        let mut list = self.list;
        let message = list.swap_remove(index);
        message.message
    }

    /// Consumes the history and hands out the payload of the entry that
    /// carries the given identifier, or nothing when no entry does.
    pub fn into_find(self, id: u64) -> (r: Option<M>)
        requires
            self.wf(),
        ensures
            match r {
                Some(m) => exists|i: int|
                    0 <= i < self.items().len() && self.items()[i].id == id && m == self.items()[i].message,
                None => forall|i: int| 0 <= i < self.items().len() ==> self.items()[i].id != id,
            },
    {
        match self.index.get(&id) {
            Some(pos) => {
                let p: usize = *pos;
                proof {
                    assert(self.index@.contains_key(id) && self.index@[id] == p);
                    assert(0 <= (p as int) && (p as int) < self.items().len() && self.items()[p as int].id == id);
                }
                let mut list = self.list;
                let message = list.swap_remove(p);
                Some(message.message)
            },
            None => None,
        }
    }

    /// How many entries the history holds; always at least one.
    pub fn len(&self) -> (n: usize)
        ensures
            n == self.items().len(),
    {
        self.list.len()
    }

    /// The position of the currently selected entry.
    pub fn cursor_index(&self) -> (i: usize)
        ensures
            i as int == self.cursor(),
    {
        self.selected
    }

    /// A view of all stored entries, in insertion order.
    pub fn entries(&self) -> (r: &Vec<Message<M>>)
        ensures
            r@ == self.items(),
    {
        &self.list
    }

    /// Rebuilds a history from an entry list and a cursor position, as a
    /// decoder does. The rebuild succeeds exactly when the list is non-empty
    /// and the position is a valid index: the result then holds exactly those
    /// entries in order, with the cursor at the given position and the flags
    /// recomputed from it.
    pub fn from_parts(list: Vec<Message<M>>, selected: usize) -> (r: Option<Messages<M>>)
        ensures
            match r {
                Some(h) => {
                    &&& 0 < list@.len()
                    &&& (selected as int) < list@.len()
                    &&& h.wf()
                    &&& h.items() == list@
                    &&& h.cursor() == selected as int
                    &&& h.can_go_forward() == (selected as int + 1 < list@.len())
                    &&& h.can_go_backward() == (selected > 0)
                },
                None => list@.len() == 0 || (selected as int) >= list@.len(),
            },
    {
        if selected >= list.len() {
            return None;
        }
        let mut index: HashMap<u64, usize> = HashMap::new();
        let mut i: usize = 0;
        while i < list.len()
            invariant
                i <= list@.len(),
                forall|id: u64|
                    index@.contains_key(id) ==> #[trigger] index@[id] < i
                        && list@[index@[id] as int].id == id,
                forall|j: int| 0 <= j < i ==> index@.contains_key(#[trigger] list@[j].id),
            decreases list@.len() - i,
        {
            index.insert(list[i].id, i);
            i = i + 1;
        }
        let forward = selected + 1 < list.len();
        let backward = selected > 0;
        Some(Messages { list, index, selected, forward, backward })
    }

    /// A history is determined, observation for observation, by its entries
    /// and its cursor: two well-formed histories that agree on those agree on
    /// both flags and on the payload every position holds. This is what makes
    /// an encode of entries and cursor followed by a rebuild lossless.
    pub proof fn lemma_state_determined_by_parts(h1: Messages<M>, h2: Messages<M>)
        requires
            h1.wf(),
            h2.wf(),
            h1.items() == h2.items(),
            h1.cursor() == h2.cursor(),
        ensures
            h1.can_go_forward() == h2.can_go_forward(),
            h1.can_go_backward() == h2.can_go_backward(),
            forall|i: int| h1.lookup(i) == h2.lookup(i),
    {
    }

    /// At all times a well-formed history is non-empty, its cursor is a valid
    /// index, and each cached flag is exactly the stated function of the
    /// cursor and the length: a forward step is legal iff an entry follows the
    /// cursor, a backward step iff one precedes it.
    pub proof fn lemma_flags_reflect_state(self)
        requires
            self.wf(),
        ensures
            0 < self.items().len(),
            0 <= self.cursor() < self.items().len(),
            self.can_go_forward() == (self.cursor() + 1 < self.items().len()),
            self.can_go_backward() == (self.cursor() > 0),
    {
    }
}

/// Looking a position up twice without an intervening mutation yields the same
/// payload both times: what a lookup reports is a function of the history and
/// the position alone.
pub proof fn lemma_lookup_idempotent<M>(h1: Messages<M>, h2: Messages<M>, index: int)
    requires
        h1 == h2,
    ensures
        h1.lookup(index) == h2.lookup(index),
{
}

} // verus!
