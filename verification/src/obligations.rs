//! Obligation resolution.
//!
//! Given an identity, the algorithm finds the entities for which the
//! identity has pledged a future attestation but has not yet posted the
//! attestation. It proceeds in rounds of set algebra over record
//! identifiers: collect the pledged entity hashes P, collect the attested
//! entity hashes A restricted to P, and report Pending = P - A, for which
//! the full new-entity records are then fetched.
//!
//! The network round trips themselves are performed by the caller: each
//! step here is a pure decision from the previous state and the query
//! results to the next state, so the whole algorithm is verified while the
//! transport stays outside the library.

use vstd::prelude::*;

use crate::hex::bytes_eq;
use crate::hex::contains_bytes;
use crate::hex::copy_bytes;
use crate::hex::deep_view_of;
use crate::hex::seq_contains_bytes;

verus! {

/// The identifiers held by a vector of ids, as a set of byte sequences.
pub open spec fn id_set(s: Seq<Vec<u8>>) -> Set<Seq<u8>> {
    Set::new(|x: Seq<u8>| seq_contains_bytes(deep_view_of(s), x))
}

/// No identifier occurs twice.
pub open spec fn no_dup_ids(s: Seq<Vec<u8>>) -> bool {
    forall|i: int, j: int| 0 <= i < j < s.len() ==> deep_view_of(s)[i] != deep_view_of(s)[j]
}

/// An interpreted pledge or attestation record, reduced to what the
/// algorithm reads: the author's public key hex and the entity hash hex.
#[derive(Debug)]
pub struct AuthoredHash {
    /// Public key hex of the record's author.
    pub author: Vec<u8>,
    /// Hash hex of the entity the record speaks of.
    pub event_hash: Vec<u8>,
}

/// The hashes of a sequence of authored records, in order.
pub open spec fn hashes_of(s: Seq<AuthoredHash>) -> Seq<Seq<u8>> {
    s.map_values(|r: AuthoredHash| r.event_hash@)
}

/// The hashes of a sequence of authored records, as a set.
pub open spec fn hash_set_of(s: Seq<AuthoredHash>) -> Set<Seq<u8>> {
    Set::new(|x: Seq<u8>| seq_contains_bytes(hashes_of(s), x))
}

/// All records in `s` are authored by `author`.
pub open spec fn all_authored_by(s: Seq<AuthoredHash>, author: Seq<u8>) -> bool {
    forall|i: int| 0 <= i < s.len() ==> s[i].author@ == author
}

/// Failure of the defensive cross-check: a record returned for an
/// author-restricted query names a different author. The source of such a
/// record is a relay or interpretation fault, so callers treat this as an
/// unrecoverable internal-consistency failure.
#[derive(Debug)]
pub struct AuthorMismatch {
    /// Index of the first offending record in the query result.
    pub index: usize,
}

/// One state of the obligation-resolution session.
///
/// The caller performs the query that the current state asks for and feeds
/// the interpreted results back through the matching step function.
#[derive(Debug)]
pub enum ObligationStep {
    /// Query pledge records authored by `author`.
    QueryPledges { author: Vec<u8> },
    /// Query attestation records authored by `author`, one filter per
    /// pledged hash.
    QueryAttestations { author: Vec<u8>, pledged: Vec<Vec<u8>> },
    /// Query new-entity records, one filter per pending hash.
    QueryNewEntities { pending: Vec<Vec<u8>> },
    /// No further query is needed; `pending` holds the outstanding
    /// obligations' hashes.
    Done { pending: Vec<Vec<u8>> },
}

/// Appending one identifier appends its bytes to the deep view.
proof fn lemma_deep_view_extend(prev: Seq<Vec<u8>>, cur: Seq<Vec<u8>>, h: Seq<u8>)
    requires
        cur.len() == prev.len() + 1,
        forall|k: int| 0 <= k < prev.len() ==> cur[k] == prev[k],
        cur[prev.len() as int]@ == h,
    ensures
        deep_view_of(cur) == deep_view_of(prev).push(h),
{
    assert(forall|k: int| 0 <= k < prev.len() ==> deep_view_of(cur)[k] == deep_view_of(prev)[k]);
    assert(deep_view_of(cur)[prev.len() as int] == h);
    assert(deep_view_of(cur) =~= deep_view_of(prev).push(h));
}

/// Membership in a sequence extended by one element.
proof fn lemma_contains_push(s: Seq<Seq<u8>>, y: Seq<u8>, x: Seq<u8>)
    ensures
        seq_contains_bytes(s.push(y), x) <==> (seq_contains_bytes(s, x) || x == y),
{
    if seq_contains_bytes(s.push(y), x) {
        let i = choose|i: int| 0 <= i < s.push(y).len() && s.push(y)[i] == x;
        if i < s.len() {
            assert(s[i] == x);
        } else {
            assert(x == y);
        }
    }
    if seq_contains_bytes(s, x) {
        let i = choose|i: int| 0 <= i < s.len() && s[i] == x;
        assert(s.push(y)[i] == x);
    }
    if x == y {
        assert(s.push(y)[s.len() as int] == x);
    }
}

/// Occurrence within the first `i + 1` positions, split into occurrence
/// within the first `i` and occurrence at `i` itself.
pub proof fn lemma_exists_extend(s: Seq<Seq<u8>>, i: int, x: Seq<u8>)
    requires
        0 <= i < s.len(),
    ensures
        (exists|k: int| 0 <= k < i + 1 && s[k] == x) <==> ((exists|k: int|
            0 <= k < i && s[k] == x) || s[i] == x),
{
    if exists|k: int| 0 <= k < i + 1 && s[k] == x {
        let k = choose|k: int| 0 <= k < i + 1 && s[k] == x;
        if k < i {
            assert(exists|k2: int| 0 <= k2 < i && s[k2] == x);
        } else {
            assert(s[i] == x);
        }
    }
    if exists|k: int| 0 <= k < i && s[k] == x {
        let k = choose|k: int| 0 <= k < i && s[k] == x;
        assert(0 <= k < i + 1 && s[k] == x);
    }
    if s[i] == x {
        assert(0 <= i < i + 1 && s[i] == x);
    }
}

/// Collects the distinct hashes of `records`, in order of first occurrence.
fn distinct_hashes(records: &Vec<AuthoredHash>) -> (r: Vec<Vec<u8>>)
    ensures
        no_dup_ids(r@),
        id_set(r@) == hash_set_of(records@),
{
    let mut r: Vec<Vec<u8>> = Vec::new();
    let mut i: usize = 0;
    while i < records.len()
        invariant
            0 <= i <= records@.len(),
            no_dup_ids(r@),
            forall|x: Seq<u8>|
                seq_contains_bytes(deep_view_of(r@), x) <==> (exists|k: int|
                    0 <= k < i && hashes_of(records@)[k] == x),
        decreases records@.len() - i,
    {
        let ghost prev = r@;
        let ghost h = records@[i as int].event_hash@;
        proof {
            assert(hashes_of(records@)[i as int] == h);
        }
        if !contains_bytes(&r, &records[i].event_hash) {
            let c = copy_bytes(&records[i].event_hash);
            r.push(c);
            proof {
                assert(r@[prev.len() as int]@ == h);
                lemma_deep_view_extend(prev, r@, h);
                assert forall|x: Seq<u8>|
                    seq_contains_bytes(deep_view_of(r@), x) <==> (exists|k: int|
                        0 <= k < i + 1 && hashes_of(records@)[k] == x) by {
                    lemma_contains_push(deep_view_of(prev), h, x);
                    lemma_exists_extend(hashes_of(records@), i as int, x);
                }
                assert(no_dup_ids(r@)) by {
                    assert(forall|k: int|
                        0 <= k < prev.len() ==> deep_view_of(r@)[k] == deep_view_of(prev)[k]);
                    assert(deep_view_of(r@)[prev.len() as int] == h);
                    assert(forall|k: int| 0 <= k < prev.len() ==> deep_view_of(prev)[k] != h);
                }
            }
        } else {
            proof {
                assert(seq_contains_bytes(deep_view_of(r@), h));
                assert forall|x: Seq<u8>|
                    seq_contains_bytes(deep_view_of(r@), x) <==> (exists|k: int|
                        0 <= k < i + 1 && hashes_of(records@)[k] == x) by {
                    lemma_exists_extend(hashes_of(records@), i as int, x);
                }
            }
        }
        i = i + 1;
    }
    proof {
        assert(hashes_of(records@).len() == records@.len());
        assert(id_set(r@) =~= hash_set_of(records@));
    }
    r
}

/// The identifiers of `p` that do not occur in `a`, each once, in order of
/// first occurrence in `p`.
fn id_difference(p: &Vec<Vec<u8>>, a: &Vec<Vec<u8>>) -> (r: Vec<Vec<u8>>)
    requires
        no_dup_ids(p@),
    ensures
        no_dup_ids(r@),
        id_set(r@) == id_set(p@).difference(id_set(a@)),
{
    let mut r: Vec<Vec<u8>> = Vec::new();
    let mut i: usize = 0;
    while i < p.len()
        invariant
            0 <= i <= p@.len(),
            no_dup_ids(p@),
            no_dup_ids(r@),
            forall|x: Seq<u8>|
                seq_contains_bytes(deep_view_of(r@), x) <==> ((exists|k: int|
                    0 <= k < i && deep_view_of(p@)[k] == x) && !seq_contains_bytes(
                    deep_view_of(a@),
                    x,
                )),
        decreases p@.len() - i,
    {
        let ghost prev = r@;
        let ghost h = deep_view_of(p@)[i as int];
        proof {
            assert(h == p@[i as int]@);
        }
        if !contains_bytes(a, &p[i]) {
            proof {
                assert(!seq_contains_bytes(deep_view_of(prev), h)) by {
                    if seq_contains_bytes(deep_view_of(prev), h) {
                        let k = choose|k: int| 0 <= k < i && deep_view_of(p@)[k] == h;
                        assert(deep_view_of(p@)[k] == deep_view_of(p@)[i as int]);
                        assert(false);
                    }
                }
            }
            let c = copy_bytes(&p[i]);
            r.push(c);
            proof {
                assert(r@[prev.len() as int]@ == h);
                lemma_deep_view_extend(prev, r@, h);
                assert forall|x: Seq<u8>|
                    seq_contains_bytes(deep_view_of(r@), x) <==> ((exists|k: int|
                        0 <= k < i + 1 && deep_view_of(p@)[k] == x) && !seq_contains_bytes(
                        deep_view_of(a@),
                        x,
                    )) by {
                    lemma_contains_push(deep_view_of(prev), h, x);
                    lemma_exists_extend(deep_view_of(p@), i as int, x);
                }
                assert(no_dup_ids(r@)) by {
                    assert(forall|k: int|
                        0 <= k < prev.len() ==> deep_view_of(r@)[k] == deep_view_of(prev)[k]);
                    assert(deep_view_of(r@)[prev.len() as int] == h);
                    assert(forall|k: int| 0 <= k < prev.len() ==> deep_view_of(prev)[k] != h);
                }
            }
        } else {
            proof {
                assert(seq_contains_bytes(deep_view_of(a@), h));
                assert forall|x: Seq<u8>|
                    seq_contains_bytes(deep_view_of(r@), x) <==> ((exists|k: int|
                        0 <= k < i + 1 && deep_view_of(p@)[k] == x) && !seq_contains_bytes(
                        deep_view_of(a@),
                        x,
                    )) by {
                    lemma_exists_extend(deep_view_of(p@), i as int, x);
                }
            }
        }
        i = i + 1;
    }
    proof {
        assert(id_set(r@) =~= id_set(p@).difference(id_set(a@)));
    }
    r
}

/// Finds the first record not authored by `author`, if any.
fn check_authors(author: &Vec<u8>, records: &Vec<AuthoredHash>) -> (r: Option<usize>)
    ensures
        match r {
            Option::None => all_authored_by(records@, author@),
            Option::Some(i) => i < records@.len() && records@[i as int].author@ != author@ && (
            forall|j: int| 0 <= j < i ==> records@[j].author@ == author@),
        },
{
    let mut i: usize = 0;
    while i < records.len()
        invariant
            0 <= i <= records@.len(),
            forall|j: int| 0 <= j < i ==> records@[j].author@ == author@,
        decreases records@.len() - i,
    {
        if !bytes_eq(&records[i].author, author) {
            return Option::Some(i);
        }
        i = i + 1;
    }
    Option::None
}

/// Begins an obligation-resolution session for `author`: the first round
/// queries the author's pledge records.
pub fn obligation_start(author: Vec<u8>) -> (r: ObligationStep)
    ensures
        (r matches ObligationStep::QueryPledges { author: a } && a@ == author@),
{
    ObligationStep::QueryPledges { author }
}

/// Consumes the interpreted pledge records and decides the next round.
///
/// Every pledge must be authored by `author`; a mismatch is the defensive
/// cross-check failing and aborts the session. With no pledges the session
/// is done with no obligations and no further query is issued; otherwise
/// the next round queries attestations for the distinct pledged hashes.
pub fn obligation_on_pledges(author: &Vec<u8>, pledges: &Vec<AuthoredHash>) -> (r: Result<
    ObligationStep,
    AuthorMismatch,
>)
    ensures
        r is Err <==> !all_authored_by(pledges@, author@),
        (r matches Err(e) ==> e.index < pledges@.len() && pledges@[e.index as int].author@
            != author@),
        r is Ok ==> ({
            let step = r->Ok_0;
            if pledges@.len() == 0 {
                step matches ObligationStep::Done { pending } && pending@.len() == 0
            } else {
                step matches ObligationStep::QueryAttestations { author: a, pledged } && a@
                    == author@ && no_dup_ids(pledged@) && id_set(pledged@) == hash_set_of(pledges@)
            }
        }),
{
    if let Option::Some(i) = check_authors(author, pledges) {
        return Result::Err(AuthorMismatch { index: i });
    }
    if pledges.len() == 0 {
        return Result::Ok(ObligationStep::Done { pending: Vec::new() });
    }
    let pledged = distinct_hashes(pledges);
    Result::Ok(ObligationStep::QueryAttestations { author: copy_bytes(author), pledged })
}

/// Consumes the interpreted attestation records and decides the final
/// round.
///
/// Every attestation must be authored by `author`. Pending is the set
/// difference of the pledged hashes and the attested hashes; if it is
/// empty the session is done with no obligations and no further query is
/// issued, otherwise the last round fetches the new-entity records for
/// exactly the pending hashes.
pub fn obligation_on_attestations(
    author: &Vec<u8>,
    pledged: &Vec<Vec<u8>>,
    attestations: &Vec<AuthoredHash>,
) -> (r: Result<ObligationStep, AuthorMismatch>)
    requires
        no_dup_ids(pledged@),
    ensures
        r is Err <==> !all_authored_by(attestations@, author@),
        (r matches Err(e) ==> e.index < attestations@.len()
            && attestations@[e.index as int].author@ != author@),
        r is Ok ==> ({
            let step = r->Ok_0;
            let pending_set = id_set(pledged@).difference(hash_set_of(attestations@));
            if pending_set.is_empty() {
                step matches ObligationStep::Done { pending } && pending@.len() == 0
            } else {
                step matches ObligationStep::QueryNewEntities { pending } && no_dup_ids(pending@)
                    && id_set(pending@) == pending_set
            }
        }),
{
    if let Option::Some(i) = check_authors(author, attestations) {
        return Result::Err(AuthorMismatch { index: i });
    }
    let attested = distinct_hashes(attestations);
    let pending = id_difference(pledged, &attested);
    proof {
        assert(id_set(pending@) =~= id_set(pledged@).difference(hash_set_of(attestations@)));
    }
    if pending.len() == 0 {
        proof {
            let s = id_set(pledged@).difference(hash_set_of(attestations@));
            assert forall|x: Seq<u8>| !s.contains(x) by {
                assert(!seq_contains_bytes(deep_view_of(pending@), x));
            }
            assert(s =~= Set::empty());
        }
        return Result::Ok(ObligationStep::Done { pending: Vec::new() });
    }
    proof {
        let s = id_set(pledged@).difference(hash_set_of(attestations@));
        assert(s.contains(deep_view_of(pending@)[0]));
        assert(!s.is_empty());
    }
    Result::Ok(ObligationStep::QueryNewEntities { pending })
}

} // verus!
