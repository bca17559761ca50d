//! Query filter composition.
//!
//! A filter selects log entries on the relay network. Each record kind
//! contributes its base filter — the kind number alone — and callers
//! compose author, time-range, result-count and hashtag predicates on top
//! before querying; several filters in one query are OR'd. The composition
//! is held here as plain data, verified; the caller translates it into the
//! relay network's native filter representation when it performs the
//! query.

use vstd::prelude::*;

use crate::hex::copy_bytes;
use crate::obligations::ObligationStep;

verus! {

/// The record kinds a query can select: a new-entity record, a
/// future-attestation pledge, or a payout attestation.
#[derive(Debug)]
pub enum QueryCustomCommands {
    /// A new-entity record carrying a full domain event.
    NewEvent,
    /// A pledge that the signer will attest the entity's payout.
    FutureEventPayoutAttestationPledge,
    /// The payout attestation itself.
    EventPayoutAttestation,
}

/// The kind number under which each record kind is stored in the log.
pub open spec fn spec_kind_number(k: QueryCustomCommands) -> u16 {
    match k {
        QueryCustomCommands::NewEvent => 6275,
        QueryCustomCommands::FutureEventPayoutAttestationPledge => 6276,
        QueryCustomCommands::EventPayoutAttestation => 6277,
    }
}

/// One composed query predicate: a conjunction of the kind number and the
/// optional author, hashtag, time-range and result-count predicates.
#[derive(Debug)]
pub struct FilterSpec {
    /// The kind number selected.
    pub kind: u16,
    /// Entries authored by this public key hex only.
    pub author: Option<Vec<u8>>,
    /// Entries tagged with this hashtag only.
    pub hashtag: Option<Vec<u8>>,
    /// Entries created at or after this UNIX timestamp only.
    pub since: Option<u64>,
    /// Entries created at or before this UNIX timestamp only.
    pub until: Option<u64>,
    /// At most this many entries.
    pub limit: Option<usize>,
}

/// The bytes held by an optional identifier.
pub open spec fn opt_bytes(o: Option<Vec<u8>>) -> Option<Seq<u8>> {
    match o {
        Option::Some(v) => Option::Some(v@),
        Option::None => Option::None,
    }
}

/// The kind number under which a record kind is stored.
pub fn kind_number(k: &QueryCustomCommands) -> (r: u16)
    ensures
        r == spec_kind_number(*k),
{
    match k {
        QueryCustomCommands::NewEvent => 6275,
        QueryCustomCommands::FutureEventPayoutAttestationPledge => 6276,
        QueryCustomCommands::EventPayoutAttestation => 6277,
    }
}

/// The base filter of a record kind: its kind number and nothing else.
/// Callers compose further predicates on top; the kind assumes nothing
/// about which will be added.
pub fn base_filter(k: &QueryCustomCommands) -> (r: FilterSpec)
    ensures
        r.kind == spec_kind_number(*k),
        r.author is None,
        r.hashtag is None,
        r.since is None,
        r.until is None,
        r.limit is None,
{
    FilterSpec {
        kind: kind_number(k),
        author: Option::None,
        hashtag: Option::None,
        since: Option::None,
        until: Option::None,
        limit: Option::None,
    }
}

/// One custom query: the kind's base filter with whichever of the
/// author, result-count, time-range and hashtag predicates the caller
/// supplied layered on top.
pub fn custom_filter(
    k: &QueryCustomCommands,
    author: Option<Vec<u8>>,
    limit: Option<usize>,
    since: Option<u64>,
    until: Option<u64>,
    hashtag: Option<Vec<u8>>,
) -> (r: Vec<FilterSpec>)
    ensures
        r@.len() == 1,
        r@[0].kind == spec_kind_number(*k),
        opt_bytes(r@[0].author) == opt_bytes(author),
        opt_bytes(r@[0].hashtag) == opt_bytes(hashtag),
        r@[0].since == since,
        r@[0].until == until,
        r@[0].limit == limit,
{
    let mut r: Vec<FilterSpec> = Vec::new();
    r.push(
        FilterSpec { kind: kind_number(k), author, hashtag, since, until, limit },
    );
    r
}

/// The query for the entries an author created, newest-bounded by the
/// given result count.
pub fn author_limit_filter(k: &QueryCustomCommands, author: &Vec<u8>, limit: usize) -> (r: Vec<
    FilterSpec,
>)
    ensures
        r@.len() == 1,
        r@[0].kind == spec_kind_number(*k),
        opt_bytes(r@[0].author) == Option::Some(author@),
        r@[0].hashtag is None,
        r@[0].since is None,
        r@[0].until is None,
        r@[0].limit == Option::Some(limit),
{
    let mut r: Vec<FilterSpec> = Vec::new();
    r.push(
        FilterSpec {
            kind: kind_number(k),
            author: Option::Some(copy_bytes(author)),
            hashtag: Option::None,
            since: Option::None,
            until: Option::None,
            limit: Option::Some(limit),
        },
    );
    r
}

/// One filter per hash, each selecting the kind's entries by `author` and
/// that hash; the filters are OR'd by the query.
pub fn author_hashtag_filters(
    k: &QueryCustomCommands,
    author: &Vec<u8>,
    hashes: &Vec<Vec<u8>>,
) -> (r: Vec<FilterSpec>)
    ensures
        r@.len() == hashes@.len(),
        forall|i: int|
            0 <= i < r@.len() ==> (#[trigger] r@[i]).kind == spec_kind_number(*k) && opt_bytes(
                r@[i].author,
            ) == Option::Some(author@) && opt_bytes(r@[i].hashtag) == Option::Some(hashes@[i]@)
                && r@[i].since is None && r@[i].until is None && r@[i].limit is None,
{
    let mut r: Vec<FilterSpec> = Vec::new();
    let mut i: usize = 0;
    while i < hashes.len()
        invariant
            0 <= i <= hashes@.len(),
            r@.len() == i,
            forall|j: int|
                0 <= j < i ==> (#[trigger] r@[j]).kind == spec_kind_number(*k) && opt_bytes(
                    r@[j].author,
                ) == Option::Some(author@) && opt_bytes(r@[j].hashtag) == Option::Some(hashes@[j]@)
                    && r@[j].since is None && r@[j].until is None && r@[j].limit is None,
        decreases hashes@.len() - i,
    {
        r.push(
            FilterSpec {
                kind: kind_number(k),
                author: Option::Some(copy_bytes(author)),
                hashtag: Option::Some(copy_bytes(&hashes[i])),
                since: Option::None,
                until: Option::None,
                limit: Option::None,
            },
        );
        i = i + 1;
    }
    r
}

/// One filter per hash, each selecting the kind's entries tagged with that
/// hash; the filters are OR'd by the query.
pub fn hashtag_filters(k: &QueryCustomCommands, hashes: &Vec<Vec<u8>>) -> (r: Vec<FilterSpec>)
    ensures
        r@.len() == hashes@.len(),
        forall|i: int|
            0 <= i < r@.len() ==> (#[trigger] r@[i]).kind == spec_kind_number(*k)
                && r@[i].author is None && opt_bytes(r@[i].hashtag) == Option::Some(hashes@[i]@)
                && r@[i].since is None && r@[i].until is None && r@[i].limit is None,
{
    let mut r: Vec<FilterSpec> = Vec::new();
    let mut i: usize = 0;
    while i < hashes.len()
        invariant
            0 <= i <= hashes@.len(),
            r@.len() == i,
            forall|j: int|
                0 <= j < i ==> (#[trigger] r@[j]).kind == spec_kind_number(*k)
                    && r@[j].author is None && opt_bytes(r@[j].hashtag) == Option::Some(
                    hashes@[j]@,
                ) && r@[j].since is None && r@[j].until is None && r@[j].limit is None,
        decreases hashes@.len() - i,
    {
        r.push(
            FilterSpec {
                kind: kind_number(k),
                author: Option::None,
                hashtag: Option::Some(copy_bytes(&hashes[i])),
                since: Option::None,
                until: Option::None,
                limit: Option::None,
            },
        );
        i = i + 1;
    }
    r
}

/// The filters that an obligation-resolution state asks the caller to
/// query with: the author's pledges; the author's attestations, one
/// filter per pledged hash; the new-entity records, one filter per
/// pending hash. A finished session asks for nothing.
pub fn obligation_query_filters(step: &ObligationStep) -> (r: Option<Vec<FilterSpec>>)
    ensures
        match *step {
            ObligationStep::QueryPledges { author: a } => r matches Some(fs) && fs@.len() == 1
                && fs@[0].kind == spec_kind_number(
                QueryCustomCommands::FutureEventPayoutAttestationPledge,
            ) && opt_bytes(fs@[0].author) == Option::Some(a@) && fs@[0].hashtag is None,
            ObligationStep::QueryAttestations { author: a, pledged: p } => r matches Some(fs)
                && fs@.len() == p@.len() && (forall|i: int|
                0 <= i < fs@.len() ==> (#[trigger] fs@[i]).kind == spec_kind_number(
                    QueryCustomCommands::EventPayoutAttestation,
                ) && opt_bytes(fs@[i].author) == Option::Some(a@) && opt_bytes(fs@[i].hashtag)
                    == Option::Some(p@[i]@)),
            ObligationStep::QueryNewEntities { pending: p } => r matches Some(fs) && fs@.len()
                == p@.len() && (forall|i: int|
                0 <= i < fs@.len() ==> (#[trigger] fs@[i]).kind == spec_kind_number(
                    QueryCustomCommands::NewEvent,
                ) && fs@[i].author is None && opt_bytes(fs@[i].hashtag) == Option::Some(p@[i]@)),
            ObligationStep::Done { .. } => r is None,
        },
{
    match step {
        ObligationStep::QueryPledges { author } => Option::Some(
            custom_filter(
                &QueryCustomCommands::FutureEventPayoutAttestationPledge,
                Option::Some(copy_bytes(author)),
                Option::None,
                Option::None,
                Option::None,
                Option::None,
            ),
        ),
        ObligationStep::QueryAttestations { author, pledged } => Option::Some(
            author_hashtag_filters(&QueryCustomCommands::EventPayoutAttestation, author, pledged),
        ),
        ObligationStep::QueryNewEntities { pending } => Option::Some(
            hashtag_filters(&QueryCustomCommands::NewEvent, pending),
        ),
        ObligationStep::Done { .. } => Option::None,
    }
}

} // verus!
