//! What holds across creations and resolutions on a link store.

use vstd::prelude::*;

use crate::model::LinkView;
use crate::service::{code_assigned, create_post, resolve_post, CreateError, ResolveOutcome};
use crate::store::{codes_unique, has_code, lookup};

verus! {

/// Appending a record whose code is new keeps codes unique, and the new
/// record is then the one found under its code.
pub proof fn lemma_push_fresh(s: Seq<LinkView>, l: LinkView)
    requires
        codes_unique(s),
        !has_code(s, l.link),
    ensures
        codes_unique(s.push(l)),
        lookup(s.push(l), l.link) == Some(l),
        forall|c: Seq<char>| c != l.link ==> #[trigger] lookup(s.push(l), c) == lookup(s, c),
{
    let t = s.push(l);
    assert forall|i: int, j: int|
        0 <= i < t.len() && 0 <= j < t.len() && (#[trigger] t[i]).link == (#[trigger] t[j]).link
        implies i == j by {
        if i < s.len() && j < s.len() {
            assert(s[i] == t[i] && s[j] == t[j]);
        } else if i < s.len() {
            assert(s[i] == t[i]);
        } else if j < s.len() {
            assert(s[j] == t[j]);
        }
    }
    assert(t[s.len() as int] == l);
    assert(has_code(t, l.link));
    assert forall|c: Seq<char>| c != l.link implies #[trigger] lookup(t, c) == lookup(s, c) by {
        if has_code(s, c) {
            let i = choose|i: int| 0 <= i < s.len() && (#[trigger] s[i]).link == c;
            assert(t[i] == s[i]);
            assert(has_code(t, c));
        }
        if has_code(t, c) {
            let i = choose|i: int| 0 <= i < t.len() && (#[trigger] t[i]).link == c;
            assert(i < s.len());
            assert(t[i] == s[i]);
            assert(has_code(s, c));
        }
    }
}

/// Round trip: once a creation succeeds, resolving the code it assigned
/// yields exactly the target it was given. Success is owed whenever the
/// requested code is not taken yet.
pub proof fn lemma_create_then_resolve(
    before: Seq<LinkView>,
    requested: Option<Seq<char>>,
    target: Seq<char>,
    r: Result<String, CreateError>,
    after: Seq<LinkView>,
    o: ResolveOutcome,
)
    requires
        codes_unique(before),
        target.len() > 0,
        create_post(before, requested, target, r, after),
        r is Ok ==> resolve_post(after, r->Ok_0@, o),
    ensures
        (requested matches Some(c) && !has_code(before, c)) ==> r is Ok,
        r is Ok ==> (o matches ResolveOutcome::Found(t) && t@ == target),
{
    if r is Ok {
        let code = r->Ok_0@;
        assert(after =~= before.push(after.last()));
        lemma_push_fresh(before, after.last());
    }
}

/// Uniqueness: of two creations with the same requested code on a store that
/// lacks it, the first succeeds and the second is refused as a conflict,
/// leaving the first record in place.
pub proof fn lemma_same_code_conflicts(
    s0: Seq<LinkView>,
    code: Seq<char>,
    t1: Seq<char>,
    t2: Seq<char>,
    r1: Result<String, CreateError>,
    s1: Seq<LinkView>,
    r2: Result<String, CreateError>,
    s2: Seq<LinkView>,
)
    requires
        codes_unique(s0),
        !has_code(s0, code),
        t1.len() > 0,
        t2.len() > 0,
        create_post(s0, Some(code), t1, r1, s1),
        create_post(s1, Some(code), t2, r2, s2),
    ensures
        r1 matches Ok(c) && c@ == code,
        r2 matches Err(CreateError::Conflict(_)),
        s2 == s1,
        lookup(s2, code) matches Some(l) && l.redirect == t1,
{
    assert(s1 =~= s0.push(s1.last()));
    lemma_push_fresh(s0, s1.last());
    assert(s1[s0.len() as int].link == code);
    assert(has_code(s1, code));
}

/// Validation: a creation with an empty target fails as such, whatever code
/// was requested, and leaves the store as it was.
pub proof fn lemma_empty_target_rejected(
    before: Seq<LinkView>,
    requested: Option<Seq<char>>,
    r: Result<String, CreateError>,
    after: Seq<LinkView>,
)
    requires
        create_post(before, requested, Seq::<char>::empty(), r, after),
    ensures
        r matches Err(CreateError::MissingTarget),
        after == before,
{
}

/// A code that no record has resolves to not found.
pub proof fn lemma_unknown_code_not_found(s: Seq<LinkView>, code: Seq<char>, o: ResolveOutcome)
    requires
        !has_code(s, code),
        resolve_post(s, code, o),
    ensures
        o is NotFound,
{
}

/// A creation adds no code but the one it returns: a code absent before it
/// and not assigned by it is still absent after it.
pub proof fn lemma_create_adds_only_its_code(
    before: Seq<LinkView>,
    requested: Option<Seq<char>>,
    target: Seq<char>,
    r: Result<String, CreateError>,
    after: Seq<LinkView>,
    code: Seq<char>,
)
    requires
        create_post(before, requested, target, r, after),
        !has_code(before, code),
        !(r matches Ok(c) && c@ == code),
    ensures
        !has_code(after, code),
{
    if target.len() > 0 && r is Ok {
        assert(after =~= before.push(after.last()));
        if has_code(after, code) {
            let i = choose|i: int| 0 <= i < after.len() && (#[trigger] after[i]).link == code;
            assert(i < before.len());
            assert(after[i] == before[i]);
        }
    }
}

/// Generated codes: where no code was requested, a successful creation
/// assigns six characters of `[A-Za-z0-9]`.
pub proof fn lemma_generated_code_shape(
    before: Seq<LinkView>,
    target: Seq<char>,
    r: Result<String, CreateError>,
    after: Seq<LinkView>,
)
    requires
        create_post(before, None, target, r, after),
        r is Ok,
    ensures
        crate::code::is_generated_code(r->Ok_0@),
{
}

} // verus!
