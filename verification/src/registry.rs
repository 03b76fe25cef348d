//! The registry: the one entry point of callers, over the session store and
//! the membership store.

use vstd::prelude::*;

use crate::code::{can_collide, mints};
use crate::error::RegistryError;
use crate::membership::{members_in, with_player, MembershipStore};
use crate::sessions::SessionStore;
use crate::string_set::{enumerates, texts};

verus! {

/// What joining `code` answers while exactly `sessions` are live.
pub open spec fn join_outcome(sessions: Set<Seq<char>>, code: Seq<char>) -> Result<(), RegistryError> {
    if sessions.contains(code) {
        Ok(())
    } else {
        Err(RegistryError::SessionNotFound)
    }
}

/// Whether adding `username` under `code` to `m` adds a new player.
pub open spec fn adds_player(
    m: Map<Seq<char>, Set<Seq<char>>>,
    code: Seq<char>,
    username: Seq<char>,
) -> bool {
    !members_in(m, code).contains(username)
}

/// The live sessions and the players of each. The two stores are kept
/// apart: a player can be added under a code that no session has.
pub struct Registry {
    sessions: SessionStore,
    members: MembershipStore,
}

impl Registry {
    /// The codes of the live sessions.
    pub closed spec fn sessions(&self) -> Set<Seq<char>> {
        self.sessions@
    }

    /// The players recorded under each code.
    pub closed spec fn memberships(&self) -> Map<Seq<char>, Set<Seq<char>>> {
        self.members@
    }

    /// The representation invariant.
    pub closed spec fn wf(&self) -> bool {
        self.sessions.wf() && self.members.wf()
    }

    /// The live sessions are finitely many, and so are the players of each.
    pub proof fn lemma_finite(&self, code: Seq<char>)
        ensures
            self.sessions().finite(),
            members_in(self.memberships(), code).finite(),
    {
        self.sessions.lemma_finite();
        self.members.lemma_members_finite(code);
    }

    /// A registry without sessions or players.
    pub fn new() -> (r: Registry)
        ensures
            r.wf(),
            r.sessions() == Set::<Seq<char>>::empty(),
            r.memberships() == Map::<Seq<char>, Set<Seq<char>>>::empty(),
    {
        Registry { sessions: SessionStore::new(), members: MembershipStore::new() }
    }

    /// Opens a session under a newly minted code and returns the code: five
    /// letters and digits, different from every live code, and live from now
    /// on. Memberships are untouched.
    ///
    /// Fails with `CodesExhausted`, changing nothing, only after `usize::MAX`
    /// random draws in a row all hit live codes; so it succeeds whenever no
    /// live code is well formed, as in the empty registry.
    pub fn create_session(&mut self) -> (out: Result<String, RegistryError>)
        requires
            old(self).wf(),
        ensures
            final(self).wf(),
            final(self).memberships() == old(self).memberships(),
            match out {
                Ok(code) => mints(old(self).sessions(), code@, final(self).sessions()),
                Err(e) => {
                    &&& e == RegistryError::CodesExhausted
                    &&& final(self).sessions() == old(self).sessions()
                    &&& can_collide(old(self).sessions())
                },
            },
    {
        self.sessions.create()
    }

    /// As `create_session`, but gives up after `attempts` draws: with
    /// `attempts == 0` it always fails, and with at least one attempt it
    /// succeeds whenever no live code is well formed.
    pub fn create_session_within(&mut self, attempts: usize) -> (out: Result<String, RegistryError>)
        requires
            old(self).wf(),
        ensures
            final(self).wf(),
            final(self).memberships() == old(self).memberships(),
            match out {
                Ok(code) => mints(old(self).sessions(), code@, final(self).sessions()),
                Err(e) => {
                    &&& e == RegistryError::CodesExhausted
                    &&& final(self).sessions() == old(self).sessions()
                    &&& (attempts == 0 || can_collide(old(self).sessions()))
                },
            },
            attempts == 0 ==> out is Err,
    {
        self.sessions.create_within(attempts)
    }

    /// Opens a session under the code `candidate`, chosen by the caller, if
    /// no live session has it. Returns whether the session was opened; if
    /// not, nothing changes.
    pub fn open_session(&mut self, candidate: String) -> (opened: bool)
        requires
            old(self).wf(),
        ensures
            final(self).wf(),
            final(self).memberships() == old(self).memberships(),
            opened == !old(self).sessions().contains(candidate@),
            opened ==> final(self).sessions() == old(self).sessions().insert(candidate@),
            !opened ==> final(self).sessions() == old(self).sessions(),
    {
        self.sessions.register(candidate)
    }

    /// Whether `code` names a live session.
    pub fn session_exists(&self, code: &str) -> (live: bool)
        ensures
            live == self.sessions().contains(code@),
    {
        self.sessions.contains(code)
    }

    /// A snapshot of the live codes, each once, in no particular order.
    pub fn list_sessions(&self) -> (out: Vec<String>)
        requires
            self.wf(),
        ensures
            enumerates(texts(out@), self.sessions()),
    {
        self.sessions.list()
    }

    /// Joins the session `code`: succeeds if and only if it is live, and
    /// fails with `SessionNotFound` otherwise. Joining records nothing.
    pub fn join_session(&self, code: &str) -> (out: Result<(), RegistryError>)
        ensures
            out == join_outcome(self.sessions(), code@),
    {
        if self.sessions.contains(code) {
            Ok(())
        } else {
            Err(RegistryError::SessionNotFound)
        }
    }

    /// Records `username` as a player of `code`. Returns `true` if the player
    /// is new to that session and `false` if already in it. Whether `code` is
    /// a live session is not looked at, and the sessions are untouched.
    pub fn add_player_to_session(&mut self, code: &str, username: &str) -> (added: bool)
        requires
            old(self).wf(),
        ensures
            final(self).wf(),
            final(self).sessions() == old(self).sessions(),
            added == adds_player(old(self).memberships(), code@, username@),
            final(self).memberships() == with_player(old(self).memberships(), code@, username@),
    {
        self.members.add_player(code, username)
    }

    /// The players of `code`, each once, in no particular order.
    pub fn members_of(&self, code: &str) -> (out: Vec<String>)
        requires
            self.wf(),
        ensures
            enumerates(texts(out@), members_in(self.memberships(), code@)),
    {
        self.members.members_of(code)
    }

    /// The number of players of `code`.
    pub fn member_count(&self, code: &str) -> (n: usize)
        requires
            self.wf(),
        ensures
            n == members_in(self.memberships(), code@).len(),
    {
        self.members.member_count(code)
    }
}

} // verus!
