//! The membership store: which players have joined which session.

use vstd::prelude::*;

use crate::string_set::{enumerates, texts, StringSet};

verus! {

/// The players recorded under `code` in `m`: none where `m` has no entry.
pub open spec fn members_in(m: Map<Seq<char>, Set<Seq<char>>>, code: Seq<char>) -> Set<Seq<char>> {
    if m.dom().contains(code) {
        m[code]
    } else {
        Set::empty()
    }
}

/// `m` after `username` has joined `code`: the entry of `code` holds what it
/// held, if anything, and `username`; every other entry is as before.
pub open spec fn with_player(
    m: Map<Seq<char>, Set<Seq<char>>>,
    code: Seq<char>,
    username: Seq<char>,
) -> Map<Seq<char>, Set<Seq<char>>> {
    m.insert(code, members_in(m, code).insert(username))
}

/// The players of one session.
struct Roster {
    code: String,
    players: StringSet,
}

/// For each session code that a player was ever added under, the set of its
/// players. Codes are not checked against any session store.
pub struct MembershipStore {
    rosters: Vec<Roster>,
}

impl View for MembershipStore {
    type V = Map<Seq<char>, Set<Seq<char>>>;

    closed spec fn view(&self) -> Map<Seq<char>, Set<Seq<char>>> {
        Map::new(
            |c: Seq<char>| self.has_slot(c),
            |c: Seq<char>| self.rosters@[self.slot(c)].players@,
        )
    }
}

impl MembershipStore {
    spec fn at_slot(&self, i: int, code: Seq<char>) -> bool {
        0 <= i < self.rosters@.len() && self.rosters@[i].code@ == code
    }

    spec fn has_slot(&self, code: Seq<char>) -> bool {
        exists|i: int| self.at_slot(i, code)
    }

    spec fn slot(&self, code: Seq<char>) -> int {
        choose|i: int| self.at_slot(i, code)
    }

    /// The representation invariant: one roster per code, and no player
    /// twice in a roster.
    pub closed spec fn wf(&self) -> bool {
        &&& forall|i: int| 0 <= i < self.rosters@.len() ==> (#[trigger] self.rosters@[i]).players.wf()
        &&& forall|i: int, j: int|
            0 <= i < j < self.rosters@.len() ==> self.rosters@[i].code@ != self.rosters@[j].code@
    }

    /// The players of `code`; the empty set where none was ever added.
    pub open spec fn members(&self, code: Seq<char>) -> Set<Seq<char>> {
        members_in(self@, code)
    }

    /// Every session has finitely many players.
    pub proof fn lemma_members_finite(&self, code: Seq<char>)
        ensures
            self.members(code).finite(),
    {
        if self.has_slot(code) {
            self.rosters@[self.slot(code)].players.lemma_finite();
        }
    }

    proof fn lemma_slot(&self, i: int, code: Seq<char>)
        requires
            self.wf(),
            self.at_slot(i, code),
        ensures
            self.has_slot(code),
            self.slot(code) == i,
    {
        let j = self.slot(code);
        assert(self.at_slot(j, code));
        if i < j {
            assert(self.rosters@[i].code@ != self.rosters@[j].code@);
        }
        if j < i {
            assert(self.rosters@[j].code@ != self.rosters@[i].code@);
        }
    }

    /// A store without any membership.
    pub fn new() -> (s: MembershipStore)
        ensures
            s.wf(),
            s@ == Map::<Seq<char>, Set<Seq<char>>>::empty(),
    {
        let s = MembershipStore { rosters: Vec::new() };
        assert(s@ =~= Map::<Seq<char>, Set<Seq<char>>>::empty());
        s
    }

    fn find(&self, code: &str) -> (at: Option<usize>)
        ensures
            match at {
                Some(i) => self.at_slot(i as int, code@),
                None => !self.has_slot(code@),
            },
    {
        let needle = code.to_owned();
        let mut i: usize = 0;
        while i < self.rosters.len()
            invariant
                i <= self.rosters.len(),
                needle@ == code@,
                forall|j: int| 0 <= j < i ==> !self.at_slot(j, code@),
            decreases self.rosters.len() - i,
        {
            if self.rosters[i].code == needle {
                return Some(i);
            }
            i += 1;
        }
        None
    }

    /// Records `username` as a player of `code`, opening the session's
    /// roster if there is none. Returns `true` if the player is new to the
    /// session, `false` if the player was in it already.
    pub fn add_player(&mut self, code: &str, username: &str) -> (added: bool)
        requires
            old(self).wf(),
        ensures
            final(self).wf(),
            added == !old(self).members(code@).contains(username@),
            final(self)@ == with_player(old(self)@, code@, username@),
    {
        let name = username.to_owned();
        match self.find(code) {
            Some(i) => {
                proof {
                    self.lemma_slot(i as int, code@);
                }
                let added = self.rosters[i].players.insert(name);
                proof {
                    assert forall|c: Seq<char>| self.has_slot(c) == old(self).has_slot(c) by {
                        if self.has_slot(c) {
                            assert(old(self).at_slot(self.slot(c), c));
                        }
                        if old(self).has_slot(c) {
                            assert(self.at_slot(old(self).slot(c), c));
                        }
                    }
                    assert forall|c: Seq<char>| self.has_slot(c) implies self.slot(c) == old(self).slot(c) by {
                        let k = self.slot(c);
                        assert(old(self).at_slot(k, c));
                        old(self).lemma_slot(k, c);
                    }
                    assert(self@ =~= with_player(old(self)@, code@, username@));
                }
                added
            },
            None => {
                let mut players = StringSet::new();
                players.insert(name);
                self.rosters.push(Roster { code: code.to_owned(), players });
                proof {
                    let n = old(self).rosters@.len() as int;
                    assert(self.at_slot(n, code@));
                    assert forall|i: int, j: int| 0 <= i < j < self.rosters@.len() implies self.rosters@[i].code@
                        != self.rosters@[j].code@ by {
                        if j == n {
                            assert(!old(self).at_slot(i, code@));
                        }
                    }
                    assert forall|c: Seq<char>| self.has_slot(c) == (old(self).has_slot(c) || c == code@) by {
                        if self.has_slot(c) && c != code@ {
                            assert(old(self).at_slot(self.slot(c), c));
                        }
                        if old(self).has_slot(c) {
                            assert(self.at_slot(old(self).slot(c), c));
                        }
                    }
                    assert forall|c: Seq<char>| old(self).has_slot(c) implies self.slot(c) == old(self).slot(c) by {
                        let k = old(self).slot(c);
                        assert(self.at_slot(k, c));
                        self.lemma_slot(k, c);
                    }
                    self.lemma_slot(n, code@);
                    assert(self@ =~= with_player(old(self)@, code@, username@));
                }
                true
            },
        }
    }

    /// The players of `code`, each once, in no particular order.
    pub fn members_of(&self, code: &str) -> (out: Vec<String>)
        requires
            self.wf(),
        ensures
            enumerates(texts(out@), self.members(code@)),
    {
        match self.find(code) {
            Some(i) => {
                proof {
                    self.lemma_slot(i as int, code@);
                }
                self.rosters[i].players.to_vec()
            },
            None => {
                let out: Vec<String> = Vec::new();
                assert(texts(out@).to_set() =~= Set::<Seq<char>>::empty());
                out
            },
        }
    }

    /// The number of players of `code`.
    pub fn member_count(&self, code: &str) -> (n: usize)
        requires
            self.wf(),
        ensures
            n == self.members(code@).len(),
    {
        match self.find(code) {
            Some(i) => {
                proof {
                    self.lemma_slot(i as int, code@);
                }
                self.rosters[i].players.len()
            },
            None => 0,
        }
    }
}

} // verus!
