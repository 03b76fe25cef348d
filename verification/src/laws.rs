//! Laws of the registry, over the models that its contracts speak of.

use vstd::prelude::*;

use crate::code::{is_session_code, mints};
use crate::error::RegistryError;
use crate::membership::{members_in, with_player};
use crate::registry::{adds_player, join_outcome};
use crate::string_set::enumerates;

verus! {

/// Whether `states` and `codes` record a run of session creations:
/// `states[i]` are the live codes before the creation that returned
/// `codes[i]`, and `states[i + 1]` those after it.
pub open spec fn is_creation_run(states: Seq<Set<Seq<char>>>, codes: Seq<Seq<char>>) -> bool {
    &&& states.len() == codes.len() + 1
    &&& forall|i: int|
        0 <= i < codes.len() ==> mints(states[i], #[trigger] codes[i], states[i + 1])
}

/// Whether `item` stands at exactly one place of `listing`.
pub open spec fn occurs_once(listing: Seq<Seq<char>>, item: Seq<char>) -> bool {
    exists|i: int|
        {
            &&& 0 <= i < listing.len()
            &&& #[trigger] listing[i] == item
            &&& forall|j: int| 0 <= j < listing.len() && #[trigger] listing[j] == item ==> j == i
        }
}

/// Whether `befores`, `codes` and `afters` record session creations among
/// other operations: the creation that returned `codes[i]` found
/// `befores[i]` live and left `afters[i]` live, and whatever happened between
/// two creations removed no session.
pub open spec fn is_creation_history(
    befores: Seq<Set<Seq<char>>>,
    codes: Seq<Seq<char>>,
    afters: Seq<Set<Seq<char>>>,
) -> bool {
    &&& befores.len() == codes.len()
    &&& afters.len() == codes.len()
    &&& forall|i: int| 0 <= i < codes.len() ==> mints(befores[i], #[trigger] codes[i], afters[i])
    &&& forall|i: int| 0 <= i < codes.len() - 1 ==> (#[trigger] afters[i]).subset_of(befores[i + 1])
}

proof fn lemma_created_code_stays_live(
    befores: Seq<Set<Seq<char>>>,
    codes: Seq<Seq<char>>,
    afters: Seq<Set<Seq<char>>>,
    i: int,
    j: int,
)
    requires
        is_creation_history(befores, codes, afters),
        0 <= i < j < codes.len(),
    ensures
        befores[j].contains(codes[i]),
    decreases j - i,
{
    assert(afters[j - 1].subset_of(befores[j]));
    if j == i + 1 {
        assert(mints(befores[i], codes[i], afters[i]));
    } else {
        lemma_created_code_stays_live(befores, codes, afters, i, j - 1);
        assert(mints(befores[j - 1], codes[j - 1], afters[j - 1]));
    }
}

/// The codes returned by any number of session creations are pairwise
/// distinct, and each is a well-formed code: in whatever order the
/// creations took their turns, and whatever else was done in between.
pub proof fn lemma_created_codes_distinct(
    befores: Seq<Set<Seq<char>>>,
    codes: Seq<Seq<char>>,
    afters: Seq<Set<Seq<char>>>,
)
    requires
        is_creation_history(befores, codes, afters),
    ensures
        codes.no_duplicates(),
        forall|i: int| 0 <= i < codes.len() ==> is_session_code(#[trigger] codes[i]),
{
    assert forall|i: int, j: int| 0 <= i < j < codes.len() implies codes[i] != codes[j] by {
        lemma_created_code_stays_live(befores, codes, afters, i, j);
        assert(mints(befores[j], codes[j], afters[j]));
    }
    assert forall|i: int| 0 <= i < codes.len() implies is_session_code(#[trigger] codes[i]) by {
        assert(mints(befores[i], codes[i], afters[i]));
    }
}

/// After session creations in a row, with nothing in between, the live
/// codes are those that were live at the start and the codes returned, which
/// are pairwise distinct, well formed and none of them live at the start. A
/// run from the empty registry leaves exactly the returned codes live.
pub proof fn lemma_creation_run(states: Seq<Set<Seq<char>>>, codes: Seq<Seq<char>>)
    requires
        is_creation_run(states, codes),
    ensures
        codes.no_duplicates(),
        forall|i: int| 0 <= i < codes.len() ==> is_session_code(#[trigger] codes[i]),
        forall|i: int| 0 <= i < codes.len() ==> !states[0].contains(#[trigger] codes[i]),
        states.last() == states[0].union(codes.to_set()),
        states[0].finite() ==> states.last().finite() && states.last().len() == states[0].len()
            + codes.len(),
    decreases codes.len(),
{
    if codes.len() == 0 {
        assert(states.last() =~= states[0].union(codes.to_set()));
    } else {
        let n = codes.len() - 1;
        let earlier_states = states.drop_last();
        let earlier = codes.drop_last();
        assert forall|i: int| 0 <= i < earlier.len() implies mints(
            earlier_states[i],
            #[trigger] earlier[i],
            earlier_states[i + 1],
        ) by {
            assert(mints(states[i], codes[i], states[i + 1]));
        }
        lemma_creation_run(earlier_states, earlier);
        assert(mints(states[n], codes[n], states[n + 1]));
        assert(earlier_states.last() == states[n]);
        assert forall|i: int| 0 <= i < n implies codes[i] != codes[n] by {
            assert(earlier[i] == codes[i]);
            assert(earlier.to_set().contains(earlier[i]));
        }
        assert forall|i: int| 0 <= i < codes.len() implies !states[0].contains(
            #[trigger] codes[i],
        ) by {
            if i < n {
                assert(earlier[i] == codes[i]);
            }
        }
        assert forall|i: int| 0 <= i < codes.len() implies is_session_code(#[trigger] codes[i]) by {
            assert(mints(states[i], codes[i], states[i + 1]));
        }
        assert(codes =~= earlier.push(codes[n]));
        earlier.lemma_push_to_set_commute(codes[n]);
        assert(states.last() =~= states[0].union(codes.to_set()));
    }
}

/// A creation loses nothing and adds one session: every code that was live
/// stays live, the returned code is live, and the number of live sessions
/// goes up by exactly one.
pub proof fn lemma_creation_adds_one(before: Set<Seq<char>>, code: Seq<char>, after: Set<Seq<char>>)
    requires
        mints(before, code, after),
        before.finite(),
    ensures
        before.subset_of(after),
        after.contains(code),
        after.finite(),
        after.len() == before.len() + 1,
{
}

/// Right after a creation has returned `code`, the code is live, and any
/// snapshot of the live codes holds it at exactly one place.
pub proof fn lemma_created_code_listed_once(
    before: Set<Seq<char>>,
    code: Seq<char>,
    after: Set<Seq<char>>,
    listing: Seq<Seq<char>>,
)
    requires
        mints(before, code, after),
        enumerates(listing, after),
    ensures
        after.contains(code),
        occurs_once(listing, code),
{
    assert(listing.to_set().contains(code));
    let i = choose|i: int| 0 <= i < listing.len() && listing[i] == code;
    assert(listing[i] == code);
}

/// A snapshot of finitely many live codes is as long as they are many.
pub proof fn lemma_listing_len(listing: Seq<Seq<char>>, sessions: Set<Seq<char>>)
    requires
        enumerates(listing, sessions),
    ensures
        listing.len() == sessions.len(),
{
    listing.unique_seq_to_set();
}

/// Joining succeeds exactly on the live codes, and fails in one way only.
pub proof fn lemma_join_iff_live(sessions: Set<Seq<char>>, code: Seq<char>)
    ensures
        join_outcome(sessions, code) is Ok <==> sessions.contains(code),
        join_outcome(sessions, code) is Err ==> join_outcome(sessions, code) == Err::<
            (),
            RegistryError,
        >(RegistryError::SessionNotFound),
{
}

/// After a run of creations from the empty registry, joining under a code
/// that no creation returned fails with `SessionNotFound`.
pub proof fn lemma_join_unissued_code_fails(
    states: Seq<Set<Seq<char>>>,
    codes: Seq<Seq<char>>,
    code: Seq<char>,
)
    requires
        is_creation_run(states, codes),
        states[0] == Set::<Seq<char>>::empty(),
        !codes.contains(code),
    ensures
        join_outcome(states.last(), code) == Err::<(), RegistryError>(
            RegistryError::SessionNotFound,
        ),
{
    lemma_creation_run(states, codes);
}

/// Adding a player is idempotent. The first addition of a player who is not
/// in the session reports a new player and raises the session's count by
/// one; once a player is in, adding again reports no new player and changes
/// nothing, however often it is repeated.
pub proof fn lemma_add_player_idempotent(
    m: Map<Seq<char>, Set<Seq<char>>>,
    code: Seq<char>,
    username: Seq<char>,
)
    requires
        members_in(m, code).finite(),
    ensures
        !adds_player(with_player(m, code, username), code, username),
        with_player(with_player(m, code, username), code, username) == with_player(
            m,
            code,
            username,
        ),
        members_in(with_player(m, code, username), code).len() == members_in(m, code).len() + (
        if adds_player(m, code, username) {
            1nat
        } else {
            0nat
        }),
        !adds_player(m, code, username) ==> with_player(m, code, username) == m,
{
    let once = with_player(m, code, username);
    let joined = members_in(m, code).insert(username);
    assert(members_in(once, code) == joined);
    assert(joined.insert(username) =~= joined);
    assert(with_player(once, code, username) =~= once);
    if !adds_player(m, code, username) {
        assert(members_in(m, code).insert(username) =~= members_in(m, code));
        assert(once =~= m);
    }
}

/// Adding a player under one code leaves the players of every other code as
/// they were.
pub proof fn lemma_add_player_elsewhere(
    m: Map<Seq<char>, Set<Seq<char>>>,
    code: Seq<char>,
    username: Seq<char>,
    other: Seq<char>,
)
    requires
        other != code,
    ensures
        members_in(with_player(m, code, username), other) == members_in(m, other),
{
}

} // verus!
