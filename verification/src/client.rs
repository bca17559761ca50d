//! The capability-typed client.
//!
//! A client owns the set of relay addresses it was constructed with and,
//! when publish-capable, exactly one signing identity. The capability is a
//! compile-time tag: `Client<QueryOnly>` has no publishing operations at
//! all, and no runtime flag guards them — the methods that produce signed
//! entries exist only on `Client<Signer>`. A client's capability never
//! changes after construction; promoting query-only access to signing
//! access means constructing a new client.
//!
//! Connecting, sending and receiving are performed by the caller around
//! this type: construction decides from the per-relay connection outcomes
//! whether the client is usable, the signing methods produce the entry to
//! submit, and `publish_success_set` reduces the per-relay acknowledgement
//! outcomes to the set of relays that accepted the entry.

use core::marker::PhantomData;

use vstd::prelude::*;

use crate::adapters::attestation_interpretation;
use crate::adapters::build_signed_attestation;
use crate::adapters::build_signed_new_entity;
use crate::adapters::build_signed_pledge;
use crate::adapters::new_entity_interpretation;
use crate::adapters::pledge_interpretation;
use crate::adapters::public_key_hex;
use crate::adapters::PublishError;
use crate::hex::copy_bytes;
use crate::hex::deep_view_of;
use crate::hex::is_hex_id;

verus! {

/// Capability tag of a client constructed without signing material.
#[derive(Debug)]
pub struct QueryOnly;

/// Capability tag of a client constructed with one identity's signing
/// material.
#[derive(Debug)]
pub struct Signer;

/// A relay address that could not be used at construction time.
#[derive(Debug)]
pub struct ConnectionError {
    /// Position of the failing address in the configured list.
    pub index: usize,
    /// The failing address itself.
    pub relay: Vec<u8>,
}

/// A client of the relay network, tagged with its capability.
///
/// `relays` is the configured relay address set, read-only for the
/// client's lifetime. `keys` holds the signing identity exactly when the
/// capability tag is `Signer`.
#[derive(Debug)]
pub struct Client<State> {
    keys: Option<nostr::Keys>,
    relays: Vec<Vec<u8>>,
    state: PhantomData<State>,
}

impl<State> Client<State> {
    /// The signing material, present exactly on publish-capable clients.
    pub closed spec fn spec_keys(&self) -> Option<nostr::Keys> {
        self.keys
    }

    /// The configured relay addresses.
    pub closed spec fn spec_relays(&self) -> Seq<Seq<u8>> {
        deep_view_of(self.relays@)
    }

    /// The configured relay addresses, in configuration order.
    pub fn relays(&self) -> (r: &Vec<Vec<u8>>)
        ensures
            deep_view_of(r@) == self.spec_relays(),
    {
        &self.relays
    }
}

impl Client<QueryOnly> {
    /// Constructs a query-only client from the configured relay addresses
    /// and the outcome of the caller's connection attempt to each.
    ///
    /// Construction succeeds exactly when every configured relay could be
    /// reached; one unusable address is fatal and names itself in the
    /// error. A query-only client holds no signing material.
    pub fn new_initialized_client_query_only(relays: Vec<Vec<u8>>, reachable: &Vec<bool>) -> (r:
        Result<Client<QueryOnly>, ConnectionError>)
        requires
            relays@.len() == reachable@.len(),
        ensures
            r is Ok <==> (forall|i: int| 0 <= i < reachable@.len() ==> reachable@[i]),
            (r matches Ok(c) ==> c.spec_relays() == deep_view_of(relays@) && c.spec_keys()
                is None),
            (r matches Err(e) ==> e.index < relays@.len() && !reachable@[e.index as int]
                && e.relay@ == deep_view_of(relays@)[e.index as int] && (forall|j: int|
                0 <= j < e.index ==> reachable@[j])),
    {
        let mut i: usize = 0;
        while i < reachable.len()
            invariant
                0 <= i <= reachable@.len(),
                relays@.len() == reachable@.len(),
                forall|j: int| 0 <= j < i ==> reachable@[j],
            decreases reachable@.len() - i,
        {
            if !reachable[i] {
                return Result::Err(ConnectionError { index: i, relay: copy_bytes(&relays[i]) });
            }
            i = i + 1;
        }
        Result::Ok(Client { keys: Option::None, relays, state: PhantomData })
    }
}

impl Client<Signer> {
    /// Constructs a publish-capable client: a query-only core with the
    /// signing identity attached.
    ///
    /// Construction succeeds exactly when every configured relay could be
    /// reached, as for the query-only client.
    pub fn new_initialized_client_signer(
        relays: Vec<Vec<u8>>,
        reachable: &Vec<bool>,
        keys: nostr::Keys,
    ) -> (r: Result<Client<Signer>, ConnectionError>)
        requires
            relays@.len() == reachable@.len(),
        ensures
            r is Ok <==> (forall|i: int| 0 <= i < reachable@.len() ==> reachable@[i]),
            (r matches Ok(c) ==> c.spec_relays() == deep_view_of(relays@) && c.spec_keys()
                == Option::Some(keys)),
            (r matches Err(e) ==> e.index < relays@.len() && !reachable@[e.index as int]
                && e.relay@ == deep_view_of(relays@)[e.index as int] && (forall|j: int|
                0 <= j < e.index ==> reachable@[j])),
    {
        let core = Client::<QueryOnly>::new_initialized_client_query_only(relays, reachable)?;
        let c = Client { keys: Option::Some(keys), relays: core.relays, state: PhantomData };
        Result::Ok(c)
    }

    /// The hex form of the held identity's public key.
    pub fn author_public_hex(&self) -> (r: Vec<u8>)
        requires
            self.spec_keys() is Some,
        ensures
            r@ == public_key_hex(self.spec_keys()->0),
            is_hex_id(r@),
    {
        match &self.keys {
            Option::Some(k) => crate::adapters::keys_public_hex(k),
            Option::None => {
                proof {
                    assert(false);
                }
                Vec::new()
            },
        }
    }

    /// Builds and signs a new-entity entry for the domain event.
    ///
    /// Publishing fails only locally: the adapter refusing the parameters
    /// or signing failing. On success the entry round-trips: interpreting
    /// it returns exactly the domain event that was published.
    pub fn signed_new_entity_entry(&self, event: &prediction_market_event::Event) -> (r: Result<
        nostr::Event,
        PublishError,
    >)
        requires
            self.spec_keys() is Some,
        ensures
            (r matches Ok(ne) ==> new_entity_interpretation(ne) == Option::Some(*event)),
    {
        match &self.keys {
            Option::Some(k) => build_signed_new_entity(event, k),
            Option::None => {
                proof {
                    assert(false);
                }
                Result::Err(PublishError::Signing(String::new()))
            },
        }
    }

    /// Builds and signs a future-attestation pledge entry for the entity
    /// hash.
    ///
    /// On success the entry round-trips: interpreting it returns the held
    /// identity's public key hex and exactly the pledged hash.
    pub fn signed_pledge_entry(&self, event_hash: &Vec<u8>) -> (r: Result<
        nostr::Event,
        PublishError,
    >)
        requires
            self.spec_keys() is Some,
            is_hex_id(event_hash@),
        ensures
            (r matches Ok(ne) ==> pledge_interpretation(ne) == Option::Some(
                (public_key_hex(self.spec_keys()->0), event_hash@),
            )),
    {
        match &self.keys {
            Option::Some(k) => build_signed_pledge(event_hash, k),
            Option::None => {
                proof {
                    assert(false);
                }
                Result::Err(PublishError::Signing(String::new()))
            },
        }
    }

    /// Builds and signs a payout attestation entry for the entity hash and
    /// payout distribution.
    ///
    /// On success the entry round-trips: interpreting it returns the held
    /// identity's public key hex, exactly the attested hash and exactly
    /// the given units.
    pub fn signed_attestation_entry(
        &self,
        event_hash: &Vec<u8>,
        units_per_outcome: &Vec<u32>,
    ) -> (r: Result<nostr::Event, PublishError>)
        requires
            self.spec_keys() is Some,
            is_hex_id(event_hash@),
        ensures
            (r matches Ok(ne) ==> attestation_interpretation(ne) == Option::Some(
                (public_key_hex(self.spec_keys()->0), event_hash@, units_per_outcome@),
            )),
    {
        match &self.keys {
            Option::Some(k) => build_signed_attestation(event_hash, units_per_outcome, k),
            Option::None => {
                proof {
                    assert(false);
                }
                Result::Err(PublishError::Signing(String::new()))
            },
        }
    }
}

/// The addresses of the relays that acknowledged acceptance, in order.
pub open spec fn acked_urls(s: Seq<(Vec<u8>, bool)>) -> Seq<Seq<u8>>
    decreases s.len(),
{
    if s.len() == 0 {
        Seq::empty()
    } else {
        let rest = acked_urls(s.drop_last());
        if s.last().1 {
            rest.push(s.last().0@)
        } else {
            rest
        }
    }
}

/// Reduces per-relay submission outcomes to the success set: exactly the
/// relays that acknowledged acceptance, in order. A relay's rejection or
/// unreachability is not an error; an empty success set is a valid return.
pub fn publish_success_set(acks: &Vec<(Vec<u8>, bool)>) -> (r: Vec<Vec<u8>>)
    ensures
        deep_view_of(r@) == acked_urls(acks@),
{
    let mut r: Vec<Vec<u8>> = Vec::new();
    let mut i: usize = 0;
    while i < acks.len()
        invariant
            0 <= i <= acks@.len(),
            deep_view_of(r@) == acked_urls(acks@.subrange(0, i as int)),
        decreases acks@.len() - i,
    {
        let ghost prefix = acks@.subrange(0, i as int);
        let ghost next = acks@.subrange(0, i + 1 as int);
        proof {
            assert(next.drop_last() =~= prefix);
            assert(next.last() == acks@[i as int]);
        }
        if acks[i].1 {
            let ghost prev = r@;
            let u = copy_bytes(&acks[i].0);
            r.push(u);
            proof {
                assert(r@[prev.len() as int]@ == acks@[i as int].0@);
                assert(forall|k: int|
                    0 <= k < prev.len() ==> deep_view_of(r@)[k] == deep_view_of(prev)[k]);
                assert(deep_view_of(r@) =~= deep_view_of(prev).push(acks@[i as int].0@));
                assert(acked_urls(next) == acked_urls(prefix).push(acks@[i as int].0@));
            }
        } else {
            proof {
                assert(acked_urls(next) == acked_urls(prefix));
            }
        }
        i = i + 1;
    }
    proof {
        assert(acks@.subrange(0, acks@.len() as int) =~= acks@);
    }
    r
}

/// When every configured relay acknowledges, the success set is the whole
/// relay list: publishing to N reachable relays reports N successes.
pub proof fn lemma_publish_all_acked(s: Seq<(Vec<u8>, bool)>)
    requires
        forall|i: int| 0 <= i < s.len() ==> (#[trigger] s[i]).1,
    ensures
        acked_urls(s).len() == s.len(),
        forall|i: int| 0 <= i < s.len() ==> acked_urls(s)[i] == (#[trigger] s[i]).0@,
    decreases s.len(),
{
    if s.len() > 0 {
        lemma_publish_all_acked(s.drop_last());
        assert(forall|i: int| 0 <= i < s.len() - 1 ==> s.drop_last()[i] == s[i]);
    }
}

/// When no relay acknowledges, the success set is empty, and that is a
/// valid outcome rather than an error.
pub proof fn lemma_publish_none_acked(s: Seq<(Vec<u8>, bool)>)
    requires
        forall|i: int| 0 <= i < s.len() ==> !(#[trigger] s[i]).1,
    ensures
        acked_urls(s).len() == 0,
    decreases s.len(),
{
    if s.len() > 0 {
        lemma_publish_none_acked(s.drop_last());
        assert(forall|i: int| 0 <= i < s.len() - 1 ==> s.drop_last()[i] == s[i]);
    }
}

} // verus!
