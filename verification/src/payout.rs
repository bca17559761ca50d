//! Payout preparation.
//!
//! Attesting an event's payout means publishing the distribution of its
//! payout units over its outcomes. The domain library decides whether a
//! distribution is acceptable for an event; the decision enters through a
//! trusted declaration with an exact contract, and the functions here
//! expose it and the event creation step to the caller with verified
//! glue.

use vstd::prelude::*;

use crate::adapters::event_hash_hex;
use crate::adapters::event_is_valid;
use crate::adapters::outcome_count_of;
use crate::adapters::units_to_payout_of;
use crate::hex::is_hex_id;
use crate::information::event_params_valid;
use crate::information::info_is_ascii;
use crate::information::Information;

verus! {

/// The sum of a payout distribution's units, as an unbounded integer.
pub open spec fn sum_u32(s: Seq<u32>) -> int
    decreases s.len(),
{
    if s.len() == 0 {
        0
    } else {
        sum_u32(s.drop_last()) + s.last()
    }
}

/// Whether a payout distribution is acceptable for an event: its hash
/// names the event, it has one entry per outcome, and its entries sum to
/// the event's total payout units.
pub fn attestation_parameters_valid(
    event: &prediction_market_event::Event,
    event_hash: &Vec<u8>,
    units_per_outcome: &Vec<u32>,
) -> (r: bool)
    requires
        is_hex_id(event_hash@),
    ensures
        r == (event_hash@ == event_hash_hex(*event) && units_per_outcome@.len()
            == outcome_count_of(*event) && sum_u32(units_per_outcome@) == units_to_payout_of(
            *event,
        )),
{
    crate::adapters::validate_event_payout(event, event_hash, units_per_outcome)
}

/// Creates a domain event from the given parameters under a fresh random
/// nonce and reports whether the domain library accepts it; for ASCII
/// information text acceptance coincides exactly with the library's
/// rules on the parameters.
pub fn create_new_entity_event(
    outcome_count: u16,
    units_to_payout: u32,
    info: &Information,
) -> (r: (prediction_market_event::Event, bool))
    ensures
        outcome_count_of(r.0) == outcome_count,
        units_to_payout_of(r.0) == units_to_payout,
        r.1 == event_is_valid(r.0),
        info_is_ascii(*info) ==> r.1 == event_params_valid(outcome_count, units_to_payout, *info),
{
    let event = crate::adapters::new_domain_event(outcome_count, units_to_payout, info);
    let valid = crate::adapters::validate_domain_event(&event);
    (event, valid)
}

/// The hex identity of a domain event, where the domain library can
/// compute it.
pub fn event_hash_hex_bytes(event: &prediction_market_event::Event) -> (r: Option<Vec<u8>>)
    ensures
        (r matches Some(v) ==> v@ == event_hash_hex(*event) && is_hex_id(v@)),
{
    crate::adapters::domain_event_hash_hex(event)
}

} // verus!
