//! Query-result aggregation.
//!
//! A query returns every raw log entry that matched some filter. Filters
//! are deliberately coarse, so a returned entry need not actually encode
//! the record kind that was asked for: the fine-grained shape check
//! happens at interpretation time, and an entry that fails it is dropped
//! silently rather than surfaced as an error. The functions here perform
//! that aggregation: they keep exactly the entries whose interpretation
//! succeeds, in order, paired with their domain results.

use vstd::prelude::*;

use crate::adapters::attestation_interpretation;
use crate::adapters::clone_entry;
use crate::adapters::interpret_attestation;
use crate::adapters::interpret_new_entity;
use crate::adapters::interpret_pledge;
use crate::adapters::new_entity_interpretation;
use crate::adapters::pledge_interpretation;
use crate::hex::is_hex_id;
use crate::obligations::AuthoredHash;

verus! {

/// The new-entity entries of `s` whose interpretation succeeds, in order,
/// paired with the interpreted domain event.
pub open spec fn kept_new_entities(s: Seq<nostr::Event>) -> Seq<
    (nostr::Event, prediction_market_event::Event),
>
    decreases s.len(),
{
    if s.len() == 0 {
        Seq::empty()
    } else {
        let rest = kept_new_entities(s.drop_last());
        match new_entity_interpretation(s.last()) {
            Option::Some(v) => rest.push((s.last(), v)),
            Option::None => rest,
        }
    }
}

/// The pledge entries of `s` whose interpretation succeeds, in order, with
/// the interpreted author public key hex and pledged hash hex.
pub open spec fn kept_pledges(s: Seq<nostr::Event>) -> Seq<(nostr::Event, Seq<u8>, Seq<u8>)>
    decreases s.len(),
{
    if s.len() == 0 {
        Seq::empty()
    } else {
        let rest = kept_pledges(s.drop_last());
        match pledge_interpretation(s.last()) {
            Option::Some(p) => rest.push((s.last(), p.0, p.1)),
            Option::None => rest,
        }
    }
}

/// The attestation entries of `s` whose interpretation succeeds, in order,
/// with the interpreted author public key hex, attested hash hex and
/// payout units.
pub open spec fn kept_attestations(s: Seq<nostr::Event>) -> Seq<
    (nostr::Event, Seq<u8>, Seq<u8>, Seq<u32>),
>
    decreases s.len(),
{
    if s.len() == 0 {
        Seq::empty()
    } else {
        let rest = kept_attestations(s.drop_last());
        match attestation_interpretation(s.last()) {
            Option::Some(p) => rest.push((s.last(), p.0, p.1, p.2)),
            Option::None => rest,
        }
    }
}

/// Interprets raw query results as new-entity records.
///
/// Keeps exactly the entries whose interpretation succeeds, in order; an
/// entry is never returned with a failed interpretation.
pub fn interpret_new_entity_entries(entries: &Vec<nostr::Event>) -> (r: Vec<
    (nostr::Event, prediction_market_event::Event),
>)
    ensures
        r@ == kept_new_entities(entries@),
        forall|i: int|
            0 <= i < r@.len() ==> new_entity_interpretation(#[trigger] r@[i].0) == Option::Some(
                r@[i].1,
            ),
{
    let mut r: Vec<(nostr::Event, prediction_market_event::Event)> = Vec::new();
    let mut i: usize = 0;
    while i < entries.len()
        invariant
            0 <= i <= entries@.len(),
            r@ == kept_new_entities(entries@.subrange(0, i as int)),
            forall|j: int|
                0 <= j < r@.len() ==> new_entity_interpretation(#[trigger] r@[j].0)
                    == Option::Some(r@[j].1),
        decreases entries@.len() - i,
    {
        let ghost prefix = entries@.subrange(0, i as int);
        if let Option::Some(v) = interpret_new_entity(&entries[i]) {
            let e = clone_entry(&entries[i]);
            r.push((e, v));
        }
        proof {
            let next = entries@.subrange(0, i + 1 as int);
            assert(next.drop_last() =~= prefix);
            assert(next.last() == entries@[i as int]);
        }
        i = i + 1;
    }
    proof {
        assert(entries@.subrange(0, entries@.len() as int) =~= entries@);
    }
    r
}

/// Interprets raw query results as future-attestation pledge records.
///
/// Keeps exactly the entries whose interpretation succeeds, in order; an
/// entry is never returned with a failed interpretation, and each kept
/// entry's author and hash are well-formed hex identifiers.
pub fn interpret_pledge_entries(entries: &Vec<nostr::Event>) -> (r: Vec<
    (nostr::Event, AuthoredHash),
>)
    ensures
        r@.len() == kept_pledges(entries@).len(),
        forall|i: int|
            0 <= i < r@.len() ==> {
                let k = kept_pledges(entries@)[i];
                #[trigger] r@[i].0 == k.0 && r@[i].1.author@ == k.1 && r@[i].1.event_hash@ == k.2
            },
        forall|i: int|
            0 <= i < r@.len() ==> pledge_interpretation(#[trigger] r@[i].0) == Option::Some(
                (r@[i].1.author@, r@[i].1.event_hash@),
            ) && is_hex_id(r@[i].1.author@) && is_hex_id(r@[i].1.event_hash@),
{
    let mut r: Vec<(nostr::Event, AuthoredHash)> = Vec::new();
    let mut i: usize = 0;
    while i < entries.len()
        invariant
            0 <= i <= entries@.len(),
            r@.len() == kept_pledges(entries@.subrange(0, i as int)).len(),
            forall|j: int|
                0 <= j < r@.len() ==> {
                    let k = kept_pledges(entries@.subrange(0, i as int))[j];
                    #[trigger] r@[j].0 == k.0 && r@[j].1.author@ == k.1 && r@[j].1.event_hash@
                        == k.2
                },
            forall|j: int|
                0 <= j < r@.len() ==> pledge_interpretation(#[trigger] r@[j].0) == Option::Some(
                    (r@[j].1.author@, r@[j].1.event_hash@),
                ) && is_hex_id(r@[j].1.author@) && is_hex_id(r@[j].1.event_hash@),
        decreases entries@.len() - i,
    {
        let ghost prefix = entries@.subrange(0, i as int);
        let ghost next = entries@.subrange(0, i + 1 as int);
        proof {
            assert(next.drop_last() =~= prefix);
            assert(next.last() == entries@[i as int]);
        }
        if let Option::Some(p) = interpret_pledge(&entries[i]) {
            let ghost a = p.0@;
            let ghost h = p.1@;
            let e = clone_entry(&entries[i]);
            r.push((e, AuthoredHash { author: p.0, event_hash: p.1 }));
            proof {
                assert(kept_pledges(next) == kept_pledges(prefix).push(
                    (entries@[i as int], a, h),
                ));
                assert(r@[r@.len() - 1].0 == entries@[i as int]);
                assert(r@[r@.len() - 1].1.author@ == a);
                assert(r@[r@.len() - 1].1.event_hash@ == h);
            }
        } else {
            proof {
                assert(kept_pledges(next) == kept_pledges(prefix));
            }
        }
        i = i + 1;
    }
    proof {
        assert(entries@.subrange(0, entries@.len() as int) =~= entries@);
    }
    r
}

/// Interprets raw query results as payout attestation records.
///
/// Keeps exactly the entries whose interpretation succeeds, in order; an
/// entry is never returned with a failed interpretation, and each kept
/// entry's author and hash are well-formed hex identifiers.
pub fn interpret_attestation_entries(entries: &Vec<nostr::Event>) -> (r: Vec<
    (nostr::Event, AuthoredHash, Vec<u32>),
>)
    ensures
        r@.len() == kept_attestations(entries@).len(),
        forall|i: int|
            0 <= i < r@.len() ==> {
                let k = kept_attestations(entries@)[i];
                #[trigger] r@[i].0 == k.0 && r@[i].1.author@ == k.1 && r@[i].1.event_hash@ == k.2
                    && r@[i].2@ == k.3
            },
        forall|i: int|
            0 <= i < r@.len() ==> attestation_interpretation(#[trigger] r@[i].0) == Option::Some(
                (r@[i].1.author@, r@[i].1.event_hash@, r@[i].2@),
            ) && is_hex_id(r@[i].1.author@) && is_hex_id(r@[i].1.event_hash@),
{
    let mut r: Vec<(nostr::Event, AuthoredHash, Vec<u32>)> = Vec::new();
    let mut i: usize = 0;
    while i < entries.len()
        invariant
            0 <= i <= entries@.len(),
            r@.len() == kept_attestations(entries@.subrange(0, i as int)).len(),
            forall|j: int|
                0 <= j < r@.len() ==> {
                    let k = kept_attestations(entries@.subrange(0, i as int))[j];
                    #[trigger] r@[j].0 == k.0 && r@[j].1.author@ == k.1 && r@[j].1.event_hash@
                        == k.2 && r@[j].2@ == k.3
                },
            forall|j: int|
                0 <= j < r@.len() ==> attestation_interpretation(#[trigger] r@[j].0)
                    == Option::Some((r@[j].1.author@, r@[j].1.event_hash@, r@[j].2@)) && is_hex_id(
                    r@[j].1.author@,
                ) && is_hex_id(r@[j].1.event_hash@),
        decreases entries@.len() - i,
    {
        let ghost prefix = entries@.subrange(0, i as int);
        let ghost next = entries@.subrange(0, i + 1 as int);
        proof {
            assert(next.drop_last() =~= prefix);
            assert(next.last() == entries@[i as int]);
        }
        if let Option::Some(p) = interpret_attestation(&entries[i]) {
            let ghost a = p.0@;
            let ghost h = p.1@;
            let ghost u = p.2@;
            let e = clone_entry(&entries[i]);
            r.push((e, AuthoredHash { author: p.0, event_hash: p.1 }, p.2));
            proof {
                assert(kept_attestations(next) == kept_attestations(prefix).push(
                    (entries@[i as int], a, h, u),
                ));
                assert(r@[r@.len() - 1].0 == entries@[i as int]);
                assert(r@[r@.len() - 1].1.author@ == a);
                assert(r@[r@.len() - 1].1.event_hash@ == h);
                assert(r@[r@.len() - 1].2@ == u);
            }
        } else {
            proof {
                assert(kept_attestations(next) == kept_attestations(prefix));
            }
        }
        i = i + 1;
    }
    proof {
        assert(entries@.subrange(0, entries@.len() as int) =~= entries@);
    }
    r
}

/// The authored records of interpreted pledge results, for feeding the
/// obligation-resolution steps.
pub fn pledge_records(pairs: &Vec<(nostr::Event, AuthoredHash)>) -> (r: Vec<AuthoredHash>)
    ensures
        r@.len() == pairs@.len(),
        forall|i: int|
            0 <= i < r@.len() ==> (#[trigger] r@[i]).author@ == pairs@[i].1.author@
                && r@[i].event_hash@ == pairs@[i].1.event_hash@,
{
    let mut r: Vec<AuthoredHash> = Vec::new();
    let mut i: usize = 0;
    while i < pairs.len()
        invariant
            0 <= i <= pairs@.len(),
            r@.len() == i,
            forall|j: int|
                0 <= j < i ==> (#[trigger] r@[j]).author@ == pairs@[j].1.author@
                    && r@[j].event_hash@ == pairs@[j].1.event_hash@,
        decreases pairs@.len() - i,
    {
        r.push(
            AuthoredHash {
                author: crate::hex::copy_bytes(&pairs[i].1.author),
                event_hash: crate::hex::copy_bytes(&pairs[i].1.event_hash),
            },
        );
        i = i + 1;
    }
    r
}

/// The authored records of interpreted attestation results, for feeding
/// the obligation-resolution steps.
pub fn attestation_records(pairs: &Vec<(nostr::Event, AuthoredHash, Vec<u32>)>) -> (r: Vec<
    AuthoredHash,
>)
    ensures
        r@.len() == pairs@.len(),
        forall|i: int|
            0 <= i < r@.len() ==> (#[trigger] r@[i]).author@ == pairs@[i].1.author@
                && r@[i].event_hash@ == pairs@[i].1.event_hash@,
{
    let mut r: Vec<AuthoredHash> = Vec::new();
    let mut i: usize = 0;
    while i < pairs.len()
        invariant
            0 <= i <= pairs@.len(),
            r@.len() == i,
            forall|j: int|
                0 <= j < i ==> (#[trigger] r@[j]).author@ == pairs@[j].1.author@
                    && r@[j].event_hash@ == pairs@[j].1.event_hash@,
        decreases pairs@.len() - i,
    {
        r.push(
            AuthoredHash {
                author: crate::hex::copy_bytes(&pairs[i].1.author),
                event_hash: crate::hex::copy_bytes(&pairs[i].1.event_hash),
            },
        );
        i = i + 1;
    }
    r
}

} // verus!
