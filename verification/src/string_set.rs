//! A set of strings, kept as a vector without repetitions.

use vstd::prelude::*;

verus! {

/// The contents of each string of `items`, in the same order.
pub open spec fn texts(items: Seq<String>) -> Seq<Seq<char>> {
    items.map_values(|s: String| s@)
}

/// Whether `listing` enumerates `contents`: every element once, and nothing
/// else.
pub open spec fn enumerates(listing: Seq<Seq<char>>, contents: Set<Seq<char>>) -> bool {
    &&& listing.no_duplicates()
    &&& listing.to_set() == contents
}

/// A finite set of strings. Elements are told apart by their contents.
pub struct StringSet {
    items: Vec<String>,
}

impl View for StringSet {
    type V = Set<Seq<char>>;

    closed spec fn view(&self) -> Set<Seq<char>> {
        texts(self.items@).to_set()
    }
}

impl StringSet {
    /// No string is stored twice.
    pub closed spec fn wf(&self) -> bool {
        texts(self.items@).no_duplicates()
    }

    /// A well-formed set is finite.
    pub proof fn lemma_finite(&self)
        ensures
            self@.finite(),
    {
        vstd::seq_lib::seq_to_set_is_finite(texts(self.items@));
    }

    /// The empty set.
    pub fn new() -> (s: StringSet)
        ensures
            s.wf(),
            s@ == Set::<Seq<char>>::empty(),
    {
        let s = StringSet { items: Vec::new() };
        assert(texts(s.items@).to_set() =~= Set::<Seq<char>>::empty());
        s
    }

    /// Whether `item` is an element.
    pub fn contains(&self, item: &str) -> (found: bool)
        ensures
            found == self@.contains(item@),
    {
        let needle = item.to_owned();
        let mut i: usize = 0;
        while i < self.items.len()
            invariant
                i <= self.items.len(),
                needle@ == item@,
                forall|j: int| 0 <= j < i ==> self.items@[j]@ != item@,
            decreases self.items.len() - i,
        {
            if self.items[i] == needle {
                assert(texts(self.items@)[i as int] == item@);
                return true;
            }
            i += 1;
        }
        false
    }

    /// Adds `item`. Returns `true` if it was not an element before, `false`
    /// if it was, in which case nothing changes.
    pub fn insert(&mut self, item: String) -> (added: bool)
        requires
            old(self).wf(),
        ensures
            final(self).wf(),
            added == !old(self)@.contains(item@),
            final(self)@ == old(self)@.insert(item@),
    {
        if self.contains(item.as_str()) {
            assert(self@.insert(item@) =~= self@);
            false
        } else {
            let ghost before = texts(self.items@);
            self.items.push(item);
            proof {
                assert(texts(self.items@) =~= before.push(item@));
                before.lemma_push_to_set_commute(item@);
            }
            true
        }
    }

    /// The number of elements.
    pub fn len(&self) -> (n: usize)
        requires
            self.wf(),
        ensures
            n == self@.len(),
    {
        proof {
            texts(self.items@).unique_seq_to_set();
        }
        self.items.len()
    }

    /// The elements, each once, in no order that callers may rely on.
    pub fn to_vec(&self) -> (out: Vec<String>)
        requires
            self.wf(),
        ensures
            enumerates(texts(out@), self@),
    {
        let mut out: Vec<String> = Vec::new();
        let mut i: usize = 0;
        while i < self.items.len()
            invariant
                i <= self.items.len(),
                out@.len() == i,
                forall|j: int| 0 <= j < i ==> out@[j]@ == self.items@[j]@,
            decreases self.items.len() - i,
        {
            out.push(self.items[i].clone());
            i += 1;
        }
        assert(texts(out@) =~= texts(self.items@));
        out
    }
}

} // verus!
