//! Record-kind adapters.
//!
//! Each record kind carried by the event log has a builder, which turns
//! domain creation parameters into a signed log entry, and an interpreter,
//! which turns a raw log entry back into a domain result or fails when the
//! entry does not have the kind's shape. Building, signing and
//! interpretation are performed by the domain library and the log entry
//! library; they enter here through trusted declarations whose contracts
//! tie a built entry to its later interpretation. The aggregation of raw
//! query results, which keeps exactly the entries that interpret and drops
//! the rest, is verified.

use vstd::prelude::*;

use prediction_market_event::information::Information;
use prediction_market_event::information::V1;

use crate::information::Information as ModelInformation;
use prediction_market_event::nostr_event_types::EventPayoutAttestation;
use prediction_market_event::nostr_event_types::FutureEventPayoutAttestationPledge;
use prediction_market_event::nostr_event_types::NewEvent;
use prediction_market_event::nostr_event_types::NostrEventUtils;

use crate::hex::is_hex_id;

verus! {

/// The raw log entry type of the relay network, held opaquely: the library
/// carries entries through and speaks of them only via the interpretation
/// functions below.
#[verifier::external_type_specification]
#[verifier::external_body]
pub struct ExNostrEvent(nostr::Event);

/// A signing identity of the relay network: a public/secret key pair.
#[verifier::external_type_specification]
#[verifier::external_body]
pub struct ExKeys(nostr::Keys);

/// The domain library's prediction-market event record.
#[verifier::external_type_specification]
#[verifier::external_body]
pub struct ExPredictionMarketEvent(prediction_market_event::Event);

/// What interpreting a log entry as a new-entity record yields: the
/// contained domain event, or nothing when the entry does not have the
/// kind's shape or its signature does not verify. A function of the entry
/// alone.
pub uninterp spec fn new_entity_interpretation(e: nostr::Event) -> Option<
    prediction_market_event::Event,
>;

/// What interpreting a log entry as a future-attestation pledge yields:
/// the author's public key hex and the pledged entity's hash hex. A
/// function of the entry alone.
pub uninterp spec fn pledge_interpretation(e: nostr::Event) -> Option<(Seq<u8>, Seq<u8>)>;

/// What interpreting a log entry as a payout attestation yields: the
/// author's public key hex, the attested entity's hash hex and the payout
/// units per outcome. A function of the entry alone.
pub uninterp spec fn attestation_interpretation(e: nostr::Event) -> Option<
    (Seq<u8>, Seq<u8>, Seq<u32>),
>;

/// The hex form of a domain event's content hash: its identity across the
/// network. A function of the event alone.
pub uninterp spec fn event_hash_hex(e: prediction_market_event::Event) -> Seq<u8>;

/// Whether the domain library accepts the event under every information
/// variant. A function of the event alone.
pub uninterp spec fn event_is_valid(e: prediction_market_event::Event) -> bool;

/// The hex form of an identity's public key. A function of the keys alone.
pub uninterp spec fn public_key_hex(k: nostr::Keys) -> Seq<u8>;

/// A domain event's outcome count. A function of the event alone.
pub uninterp spec fn outcome_count_of(e: prediction_market_event::Event) -> u16;

/// A domain event's total payout units. A function of the event alone.
pub uninterp spec fn units_to_payout_of(e: prediction_market_event::Event) -> u32;

/// A failure local to publishing: the adapter refused the creation
/// parameters, or producing the signature failed. Nothing was sent.
#[derive(Debug)]
pub enum PublishError {
    /// The domain parameters could not be turned into an entry.
    Build(String),
    /// The entry could not be signed.
    Signing(String),
}

/// Relies on `Keys::public_key` and `PublicKey::to_hex`: the hex form of
/// the public key half, 64 lowercase hex digits.
#[verifier::external_body]
pub(crate) fn keys_public_hex(keys: &nostr::Keys) -> (r: Vec<u8>)
    ensures
        r@ == public_key_hex(*keys),
        is_hex_id(r@),
{
    keys.public_key().to_hex().into_bytes()
}

/// Relies on the derived `Event::clone`: a field-for-field copy, equal to
/// the original entry.
#[verifier::external_body]
pub(crate) fn clone_entry(e: &nostr::Event) -> (r: nostr::Event)
    ensures
        r == *e,
{
    e.clone()
}

/// Relies on `NewEvent::interpret_nostr_event`: verifies the entry's
/// signature and shape and returns the contained domain event.
#[verifier::external_body]
pub(crate) fn interpret_new_entity(e: &nostr::Event) -> (r: Option<prediction_market_event::Event>)
    ensures
        r == new_entity_interpretation(*e),
{
    NewEvent::interpret_nostr_event(e).ok()
}

/// Relies on `FutureEventPayoutAttestationPledge::interpret_nostr_event`:
/// verifies the entry and returns the author's public key hex and the
/// pledged hash hex, both checked to be 64 hex digits.
#[verifier::external_body]
pub(crate) fn interpret_pledge(e: &nostr::Event) -> (r: Option<(Vec<u8>, Vec<u8>)>)
    ensures
        match r {
            Option::None => pledge_interpretation(*e) is None,
            Option::Some(p) => pledge_interpretation(*e) == Option::Some((p.0@, p.1@))
                && is_hex_id(p.0@) && is_hex_id(p.1@),
        },
{
    FutureEventPayoutAttestationPledge::interpret_nostr_event(e).ok().map(
        |(pk, hh)| (pk.0.into_bytes(), hh.0.into_bytes()),
    )
}

/// Relies on `EventPayoutAttestation::interpret_nostr_event`: verifies the
/// entry and returns the author's public key hex, the attested hash hex
/// (both 64 hex digits) and the payout units per outcome.
#[verifier::external_body]
pub(crate) fn interpret_attestation(e: &nostr::Event) -> (r: Option<(Vec<u8>, Vec<u8>, Vec<u32>)>)
    ensures
        match r {
            Option::None => attestation_interpretation(*e) is None,
            Option::Some(p) => attestation_interpretation(*e) == Option::Some((p.0@, p.1@, p.2@))
                && is_hex_id(p.0@) && is_hex_id(p.1@),
        },
{
    EventPayoutAttestation::interpret_nostr_event(e).ok().map(
        |(pk, payout)| (pk.0.into_bytes(), payout.event_hash_hex.0.into_bytes(), payout.units_per_outcome),
    )
}

/// Relies on `NewEvent::create_nostr_event_builder` and
/// `EventBuilder::to_event`: the built entry carries the domain event as
/// content with its hash as hashtag, so interpreting it returns the same
/// domain event.
#[verifier::external_body]
pub(crate) fn build_signed_new_entity(
    event: &prediction_market_event::Event,
    keys: &nostr::Keys,
) -> (r: Result<nostr::Event, PublishError>)
    ensures
        r matches Ok(ne) ==> new_entity_interpretation(ne) == Option::Some(*event),
{
    let builder = NewEvent::create_nostr_event_builder(event).map_err(
        |e| PublishError::Build(format!("{e}")),
    )?;
    builder.to_event(keys).map_err(|e| PublishError::Signing(format!("{e}")))
}

/// Relies on `FutureEventPayoutAttestationPledge::create_nostr_event_builder`
/// and `EventBuilder::to_event`: the built entry carries the pledged hash
/// as hashtag and is signed by `keys`, so interpreting it returns the
/// signer's public key hex and that hash.
#[verifier::external_body]
pub(crate) fn build_signed_pledge(hash: &Vec<u8>, keys: &nostr::Keys) -> (r: Result<
    nostr::Event,
    PublishError,
>)
    requires
        is_hex_id(hash@),
    ensures
        r matches Ok(ne) ==> pledge_interpretation(ne) == Option::Some(
            (public_key_hex(*keys), hash@),
        ),
{
    let hash_hex = prediction_market_event::EventHashHex(
        String::from_utf8_lossy(hash).into_owned(),
    );
    let builder = FutureEventPayoutAttestationPledge::create_nostr_event_builder(&hash_hex)
        .map_err(|e| PublishError::Build(format!("{e}")))?;
    builder.to_event(keys).map_err(|e| PublishError::Signing(format!("{e}")))
}

/// Relies on `EventPayoutAttestation::create_nostr_event_builder` and
/// `EventBuilder::to_event`: the built entry carries the attested hash as
/// hashtag and the units as content and is signed by `keys`, so
/// interpreting it returns the signer's public key hex, that hash and
/// those units.
#[verifier::external_body]
pub(crate) fn build_signed_attestation(
    hash: &Vec<u8>,
    units_per_outcome: &Vec<u32>,
    keys: &nostr::Keys,
) -> (r: Result<nostr::Event, PublishError>)
    requires
        is_hex_id(hash@),
    ensures
        r matches Ok(ne) ==> attestation_interpretation(ne) == Option::Some(
            (public_key_hex(*keys), hash@, units_per_outcome@),
        ),
{
    let payout = prediction_market_event::EventPayout {
        event_hash_hex: prediction_market_event::EventHashHex(
            String::from_utf8_lossy(hash).into_owned(),
        ),
        units_per_outcome: units_per_outcome.clone(),
    };
    let builder = EventPayoutAttestation::create_nostr_event_builder(&payout).map_err(
        |e| PublishError::Build(format!("{e}")),
    )?;
    builder.to_event(keys).map_err(|e| PublishError::Signing(format!("{e}")))
}

/// Relies on `Event::hash_hex`: the sha256 hash of the domain event's
/// canonical form, as 64 hex digits.
#[verifier::external_body]
pub(crate) fn domain_event_hash_hex(e: &prediction_market_event::Event) -> (r: Option<Vec<u8>>)
    ensures
        r matches Some(v) ==> v@ == event_hash_hex(*e) && is_hex_id(v@),
{
    e.hash_hex().ok().map(|h| h.0.into_bytes())
}

/// Relies on `Event::validate` called with every information variant
/// accepted: whether the domain library accepts the event.
#[verifier::external_body]
pub(crate) fn validate_domain_event(e: &prediction_market_event::Event) -> (r: bool)
    ensures
        r == event_is_valid(*e),
{
    e.validate(Information::ALL_VARIANT_IDS).is_ok()
}

/// Relies on `EventPayout::validate`: a payout distribution is accepted
/// exactly when its hash names the event, it has one entry per outcome,
/// and its entries sum to the event's total payout units.
#[verifier::external_body]
pub(crate) fn validate_event_payout(
    event: &prediction_market_event::Event,
    hash: &Vec<u8>,
    units_per_outcome: &Vec<u32>,
) -> (r: bool)
    requires
        crate::hex::is_hex_id(hash@),
    ensures
        r == (hash@ == event_hash_hex(*event) && units_per_outcome@.len() == outcome_count_of(
            *event,
        ) && crate::payout::sum_u32(units_per_outcome@) == units_to_payout_of(*event)),
{
    let payout = prediction_market_event::EventPayout {
        event_hash_hex: prediction_market_event::EventHashHex(
            String::from_utf8_lossy(hash).into_owned(),
        ),
        units_per_outcome: units_per_outcome.clone(),
    };
    payout.validate(event).is_ok()
}

/// Relies on `Event::new_with_random_nonce` and the information types of
/// the domain library: the new event carries the given outcome count,
/// payout units and information under a fresh random nonce, and (for
/// ASCII information text, whose byte lengths conversion keeps) the
/// domain library accepts it exactly when the parameters meet its rules.
#[verifier::external_body]
pub(crate) fn new_domain_event(
    outcome_count: u16,
    units_to_payout: u32,
    info: &crate::information::Information,
) -> (r: prediction_market_event::Event)
    ensures
        outcome_count_of(r) == outcome_count,
        units_to_payout_of(r) == units_to_payout,
        crate::information::info_is_ascii(*info) ==> event_is_valid(r)
            == crate::information::event_params_valid(outcome_count, units_to_payout, *info),
{
    let information = match info {
        ModelInformation::Empty => Information::None,
        ModelInformation::V1(v) => Information::V1(V1 {
            title: String::from_utf8_lossy(&v.title).into_owned(),
            description: String::from_utf8_lossy(&v.description).into_owned(),
            outcome_titles: v.outcome_titles.iter().map(|t| String::from_utf8_lossy(t).into_owned()).collect(),
            expected_payout_unix_seconds: v.expected_payout_unix_seconds,
        }),
    };
    prediction_market_event::Event::new_with_random_nonce(outcome_count, units_to_payout, information)
}

} // verus!
