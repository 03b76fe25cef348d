//! The session store: which session codes are live.

use vstd::prelude::*;

use crate::code::{allocate, can_collide, mints};
use crate::error::RegistryError;
use crate::string_set::{enumerates, texts, StringSet};

verus! {

/// The set of live session codes. Codes are only ever added.
pub struct SessionStore {
    codes: StringSet,
}

impl View for SessionStore {
    type V = Set<Seq<char>>;

    closed spec fn view(&self) -> Set<Seq<char>> {
        self.codes@
    }
}

impl SessionStore {
    /// The representation invariant.
    pub closed spec fn wf(&self) -> bool {
        self.codes.wf()
    }

    /// The live codes are finitely many.
    pub proof fn lemma_finite(&self)
        ensures
            self@.finite(),
    {
        self.codes.lemma_finite();
    }

    /// A store without sessions.
    pub fn new() -> (s: SessionStore)
        ensures
            s.wf(),
            s@ == Set::<Seq<char>>::empty(),
    {
        SessionStore { codes: StringSet::new() }
    }

    /// Whether `code` is live.
    pub fn contains(&self, code: &str) -> (live: bool)
        ensures
            live == self@.contains(code@),
    {
        self.codes.contains(code)
    }

    /// A snapshot of the live codes, each once, in no particular order.
    pub fn list(&self) -> (out: Vec<String>)
        requires
            self.wf(),
        ensures
            enumerates(texts(out@), self@),
    {
        self.codes.to_vec()
    }

    /// The number of live sessions.
    pub fn len(&self) -> (n: usize)
        requires
            self.wf(),
        ensures
            n == self@.len(),
    {
        self.codes.len()
    }

    /// Makes `candidate` live if it is not yet, and says whether it did.
    /// A candidate that is already live is turned down and nothing changes.
    pub fn register(&mut self, candidate: String) -> (fresh: bool)
        requires
            old(self).wf(),
        ensures
            final(self).wf(),
            fresh == !old(self)@.contains(candidate@),
            fresh ==> final(self)@ == old(self)@.insert(candidate@),
            !fresh ==> final(self)@ == old(self)@,
    {
        let fresh = self.codes.insert(candidate);
        proof {
            if !fresh {
                assert(old(self)@.insert(candidate@) =~= old(self)@);
            }
        }
        fresh
    }

    /// Opens a session under a newly minted code and returns the code,
    /// drawing at most `attempts` random candidates.
    ///
    /// Fails with `CodesExhausted`, leaving the store as it was, if every
    /// draw hit a live code; with `attempts == 0` it always does. With at
    /// least one attempt it succeeds whenever no live code is well formed,
    /// as in the empty store.
    pub fn create_within(&mut self, attempts: usize) -> (out: Result<String, RegistryError>)
        requires
            old(self).wf(),
        ensures
            final(self).wf(),
            match out {
                Ok(code) => mints(old(self)@, code@, final(self)@),
                Err(e) => {
                    &&& e == RegistryError::CodesExhausted
                    &&& final(self)@ == old(self)@
                    &&& (attempts == 0 || can_collide(old(self)@))
                },
            },
            attempts == 0 ==> out is Err,
    {
        match allocate(&mut self.codes, attempts) {
            Some(code) => Ok(code),
            None => Err(RegistryError::CodesExhausted),
        }
    }

    /// Opens a session under a newly minted code and returns the code.
    ///
    /// Candidates are drawn until one is new. The store gives up, with
    /// `CodesExhausted` and unchanged, only after `usize::MAX` draws in a row
    /// all hit live codes; so it succeeds whenever no live code is well
    /// formed, as in the empty store.
    pub fn create(&mut self) -> (out: Result<String, RegistryError>)
        requires
            old(self).wf(),
        ensures
            final(self).wf(),
            match out {
                Ok(code) => mints(old(self)@, code@, final(self)@),
                Err(e) => {
                    &&& e == RegistryError::CodesExhausted
                    &&& final(self)@ == old(self)@
                    &&& can_collide(old(self)@)
                },
            },
    {
        self.create_within(usize::MAX)
    }
}

} // verus!
