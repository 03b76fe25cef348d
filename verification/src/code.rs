//! Session codes: five characters over the ASCII letters and digits.

use rand::distr::Alphanumeric;
use rand::Rng;
use vstd::prelude::*;

use crate::string_set::StringSet;

verus! {

/// Number of characters in a session code.
pub const CODE_LEN: usize = 5;

/// The alphabet of session codes: `A`-`Z`, `a`-`z` and `0`-`9`.
pub open spec fn is_code_char(c: char) -> bool {
    ('A' <= c && c <= 'Z') || ('a' <= c && c <= 'z') || ('0' <= c && c <= '9')
}

/// A well-formed session code: exactly five characters of the alphabet.
pub open spec fn is_session_code(s: Seq<char>) -> bool {
    &&& s.len() == CODE_LEN
    &&& forall|i: int| 0 <= i < s.len() ==> is_code_char(#[trigger] s[i])
}

/// Draws `len` characters from the thread-local generator of `rand`:
/// `rand::rng().sample_iter(&Alphanumeric)`, cut off after `len` samples.
///
/// `Alphanumeric` samples bytes from the 62 ASCII letters and digits only, and
/// the stream of samples does not end, so every outcome has `len` characters
/// of the code alphabet. Which ones is random: nothing else is claimed, and
/// two calls may differ. The generator is seeded from the operating system
/// on a thread's first draw, and `rand` panics there if the system has no
/// entropy to give.
#[verifier::external_body]
fn sample_alphanumeric(len: usize) -> (out: String)
    ensures
        out@.len() == len,
        forall|i: int| 0 <= i < out@.len() ==> is_code_char(#[trigger] out@[i]),
{
    rand::rng().sample_iter(&Alphanumeric).take(len).map(char::from).collect()
}

/// Draws a candidate session code at random.
pub fn draw_code() -> (code: String)
    ensures
        is_session_code(code@),
{
    sample_alphanumeric(CODE_LEN)
}

/// What minting `code` does to a set of live codes: the code is well formed,
/// was not live before, and is the one element that the set gains.
pub open spec fn mints(before: Set<Seq<char>>, code: Seq<char>, after: Set<Seq<char>>) -> bool {
    &&& is_session_code(code)
    &&& !before.contains(code)
    &&& after == before.insert(code)
}

/// Whether a random draw can hit an element of `codes`: some element is a
/// well-formed session code. A draw is always well formed, so where no
/// element is, and in the empty set above all, every draw is new.
pub open spec fn can_collide(codes: Set<Seq<char>>) -> bool {
    exists|c: Seq<char>| #[trigger] codes.contains(c) && is_session_code(c)
}

/// Mints a code that is not in `existing` and adds it there, in one step.
///
/// Candidates are drawn at random until one is new, at most `attempts`
/// times. `None` means that every draw hit a code already in `existing`;
/// the set is then unchanged. So with at least one attempt, minting
/// succeeds whenever `existing` holds no well-formed code for a draw to
/// hit; where it holds some, the draws decide. With 62^5 codes and a store
/// of thousands a failure does not happen in practice for any generous
/// `attempts`.
pub fn allocate(existing: &mut StringSet, attempts: usize) -> (out: Option<String>)
    requires
        old(existing).wf(),
    ensures
        final(existing).wf(),
        match out {
            Some(code) => mints(old(existing)@, code@, final(existing)@),
            None => {
                &&& final(existing)@ == old(existing)@
                &&& (attempts == 0 || can_collide(old(existing)@))
            },
        },
        attempts == 0 ==> out is None,
{
    let mut drawn: usize = 0;
    while drawn < attempts
        invariant
            drawn <= attempts,
            existing.wf(),
            existing@ == old(existing)@,
            drawn > 0 ==> can_collide(old(existing)@),
        decreases attempts - drawn,
    {
        let candidate = draw_code();
        let code = candidate.clone();
        if existing.insert(candidate) {
            return Some(code);
        }
        assert(old(existing)@.contains(code@) && is_session_code(code@));
        drawn += 1;
    }
    None
}

/// The deterministic counterpart of `allocate`: takes the draws as given.
///
/// Registers in `existing` the first of `candidates` that is not in it, and
/// returns that candidate. `None` means that all of them are in `existing`
/// already; the set is then unchanged.
pub fn allocate_from(existing: &mut StringSet, candidates: &Vec<String>) -> (out: Option<String>)
    requires
        old(existing).wf(),
    ensures
        final(existing).wf(),
        match out {
            Some(code) => exists|k: int|
                {
                    &&& 0 <= k < candidates@.len()
                    &&& #[trigger] candidates@[k]@ == code@
                    &&& forall|j: int| 0 <= j < k ==> old(existing)@.contains(#[trigger] candidates@[j]@)
                    &&& !old(existing)@.contains(code@)
                    &&& final(existing)@ == old(existing)@.insert(code@)
                },
            None => {
                &&& final(existing)@ == old(existing)@
                &&& forall|j: int|
                    0 <= j < candidates@.len() ==> old(existing)@.contains(#[trigger] candidates@[j]@)
            },
        },
{
    let mut i: usize = 0;
    while i < candidates.len()
        invariant
            i <= candidates.len(),
            existing.wf(),
            existing@ == old(existing)@,
            forall|j: int| 0 <= j < i ==> old(existing)@.contains(#[trigger] candidates@[j]@),
        decreases candidates.len() - i,
    {
        if !existing.contains(candidates[i].as_str()) {
            let code = candidates[i].clone();
            existing.insert(candidates[i].clone());
            assert(candidates@[i as int]@ == code@);
            return Some(code);
        }
        i += 1;
    }
    None
}

} // verus!
