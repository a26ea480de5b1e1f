//! Doubly-linked lists of entries, identified by address.
//!
//! Entries carry [`Links`]; a [`List`] keeps its entries in insertion
//! order, each at most once, and supports pushing at the back, taking from
//! the front and unlinking any entry.

use vstd::prelude::*;

verus! {

/// List links of an entry: the address of the entry they link while it is
/// in a list, 0 when it is in none.
pub struct Links {
    owner: usize,
}

impl Links {
    /// The entry these links hold in a list, 0 if unlinked.
    pub closed spec fn linked_entry(&self) -> usize {
        self.owner
    }

    /// New unlinked links.
    pub fn new() -> (l: Self)
        ensures
            l.linked_entry() == 0,
    {
        Links { owner: 0 }
    }

    /// Whether the entry is currently in a list.
    pub fn is_linked(&self) -> (b: bool)
        ensures
            b == (self.linked_entry() != 0),
    {
        self.owner != 0
    }
}

/// A list of entries, front first.
pub struct List {
    entries: Vec<usize>,
}

impl View for List {
    type V = Seq<usize>;

    /// The entries, front first.
    closed spec fn view(&self) -> Seq<usize> {
        self.entries@
    }
}

impl List {
    /// Every entry occurs once.
    pub open spec fn wf(&self) -> bool {
        self@.no_duplicates()
    }

    /// A new empty list.
    pub fn new() -> (l: Self)
        ensures
            l.wf(),
            l@ == Seq::<usize>::empty(),
    {
        List { entries: Vec::new() }
    }

    /// Whether the list holds no entries.
    pub fn is_empty(&self) -> (b: bool)
        ensures
            b == (self@.len() == 0),
    {
        self.entries.len() == 0
    }

    /// Whether `entry` is in the list.
    pub fn contains(&self, entry: usize) -> (b: bool)
        ensures
            b == self@.contains(entry),
    {
        self.index_of(entry).is_some()
    }

    /// Position of `entry` in the list.
    fn index_of(&self, entry: usize) -> (r: Option<usize>)
        ensures
            r matches Some(i) ==> i < self@.len() && self@[i as int] == entry,
            r.is_none() ==> !self@.contains(entry),
    {
        let mut i: usize = 0;
        while i < self.entries.len()
            invariant
                i <= self@.len(),
                self@ == self.entries@,
                forall|j: int| 0 <= j < i ==> self@[j] != entry,
            decreases self@.len() - i,
        {
            if self.entries[i] == entry {
                return Some(i);
            }
            i = i + 1;
        }
        None
    }

    /// Put `entry` (a non-null address), whose links show it in no list, at
    /// the back; its links now show it linked.
    pub fn push_back(&mut self, entry: usize, links: &mut Links)
        requires
            old(self).wf(),
            entry != 0,
            !old(self)@.contains(entry),
            old(links).linked_entry() == 0,
        ensures
            final(self).wf(),
            final(self)@ == old(self)@.push(entry),
            final(links).linked_entry() == entry,
    {
        self.entries.push(entry);
        links.owner = entry;
        proof {
            let s = old(self)@;
            let t = self@;
            assert forall|i: int, j: int| 0 <= i < t.len() && 0 <= j < t.len() && i != j implies t[i] != t[j] by {
                if i < s.len() && j < s.len() {
                    assert(t[i] == s[i] && t[j] == s[j]);
                } else if i == s.len() {
                    assert(t[j] == s[j]);
                } else {
                    assert(t[i] == s[i]);
                }
            }
        }
    }

    /// Take the front entry off the list; `None` if empty. If
    /// `front_links` are the links of the front entry, they now show it
    /// unlinked; any other links are left as they are.
    pub fn pop_front(&mut self, front_links: &mut Links) -> (r: Option<usize>)
        requires
            old(self).wf(),
        ensures
            final(self).wf(),
            old(self)@.len() == 0 ==> r.is_none() && final(self)@ == old(self)@,
            old(self)@.len() > 0 ==> r == Some(old(self)@[0]) && final(self)@ == old(self)@.drop_first(),
            old(self)@.len() > 0 && old(front_links).linked_entry() == old(self)@[0]
                ==> final(front_links).linked_entry() == 0,
            !(old(self)@.len() > 0 && old(front_links).linked_entry() == old(self)@[0])
                ==> final(front_links).linked_entry() == old(front_links).linked_entry(),
    {
        if self.entries.len() == 0 {
            return None;
        }
        let first = self.entries.remove(0);
        if front_links.owner == first {
            front_links.owner = 0;
        }
        assert(old(self)@.remove(0) == old(self)@.drop_first());
        Some(first)
    }

    /// The front entry without removing it; `None` if empty.
    pub fn front(&self) -> (r: Option<usize>)
        ensures
            self@.len() == 0 ==> r.is_none(),
            self@.len() > 0 ==> r == Some(self@[0]),
    {
        if self.entries.len() == 0 {
            None
        } else {
            Some(self.entries[0])
        }
    }

    /// Unlink `entry`, which is in this list, given its links; they now show
    /// it unlinked.
    pub fn remove(&mut self, entry: usize, links: &mut Links)
        requires
            old(self).wf(),
            old(self)@.contains(entry),
            old(links).linked_entry() == entry,
        ensures
            final(self).wf(),
            final(links).linked_entry() == 0,
            final(self)@ == old(self)@.remove(old(self)@.index_of(entry)),
            !final(self)@.contains(entry),
            final(self)@.len() == old(self)@.len() - 1,
    {
        let idx = self.index_of(entry).unwrap();
        proof {
            let s = old(self)@;
            assert(s.index_of(entry) == idx) by {
                if s.index_of(entry) != idx as int {
                    assert(s[s.index_of(entry)] == entry);
                }
            }
        }
        self.entries.remove(idx);
        links.owner = 0;
        proof {
            let s = old(self)@;
            let t = self@;
            assert forall|i: int| 0 <= i < t.len() implies t[i] != entry by {
                if i < idx {
                    assert(t[i] == s[i]);
                } else {
                    assert(t[i] == s[i + 1]);
                }
            }
            assert forall|i: int, j: int| 0 <= i < t.len() && 0 <= j < t.len() && i != j implies t[i] != t[j] by {
                let a = if i < idx { i } else { i + 1 };
                let b = if j < idx { j } else { j + 1 };
                assert(t[i] == s[a] && t[j] == s[b]);
            }
        }
    }
}

/// First in, first out: entries pushed at the back of a list come off the
/// front in the order they were pushed.
pub proof fn lemma_fifo(s: Seq<usize>, x: usize)
    requires
        s.len() > 0,
    ensures
        s.push(x)[0] == s[0],
        s.push(x).drop_first() == s.drop_first().push(x),
        Seq::<usize>::empty().push(x)[0] == x,
{
    assert(s.push(x).drop_first() =~= s.drop_first().push(x));
}

} // verus!
