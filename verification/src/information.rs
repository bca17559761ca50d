//! Domain event information.
//!
//! A domain event carries an information block: either nothing, or the
//! first versioned form with a title, a description, one title per
//! outcome and an expected payout time. The interactive front end only
//! gathers raw text; which variant a type string denotes, the default
//! outcome titles offered when an event carries no information, and the
//! conversion of an entered payout date to UNIX seconds are decided here.
//! Text is held as UTF-8 bytes so lengths and equality are exact.

use vstd::prelude::*;

verus! {

/// The first versioned information form.
#[derive(Debug)]
pub struct InformationV1 {
    /// Title of the event.
    pub title: Vec<u8>,
    /// Free-form description.
    pub description: Vec<u8>,
    /// One title per outcome.
    pub outcome_titles: Vec<Vec<u8>>,
    /// Expected payout time, UNIX seconds.
    pub expected_payout_unix_seconds: u64,
}

/// Information attached to a domain event.
#[derive(Debug)]
pub enum Information {
    /// The event carries no information.
    Empty,
    /// The first versioned form.
    V1(InformationV1),
}

/// Every byte is ASCII.
pub open spec fn all_ascii(s: Seq<u8>) -> bool {
    forall|i: int| 0 <= i < s.len() ==> s[i] < 128
}

/// Every text field of the information is ASCII.
pub open spec fn info_is_ascii(info: Information) -> bool {
    match info {
        Information::Empty => true,
        Information::V1(v) => all_ascii(v.title@) && all_ascii(v.description@) && (forall|i: int|
            0 <= i < v.outcome_titles@.len() ==> all_ascii(#[trigger] v.outcome_titles@[i]@)),
    }
}

/// The domain library's rules on a versioned information form: the title
/// at most 256 bytes, the description at most 10240 bytes, exactly one
/// outcome title per outcome, each at most 64 bytes.
pub open spec fn v1_information_valid(v: InformationV1, outcome_count: u16) -> bool {
    v.title@.len() <= 256 && v.description@.len() <= 10240 && v.outcome_titles@.len()
        == outcome_count && (forall|i: int|
        0 <= i < v.outcome_titles@.len() ==> (#[trigger] v.outcome_titles@[i]@).len() <= 64)
}

/// The domain library's rules on an information block for an event with
/// the given outcome count.
pub open spec fn information_valid(info: Information, outcome_count: u16) -> bool {
    match info {
        Information::Empty => true,
        Information::V1(v) => v1_information_valid(v, outcome_count),
    }
}

/// The domain library's rules on event creation parameters: at least two
/// outcomes, at least one payout unit, and a rule-abiding information
/// block.
pub open spec fn event_params_valid(outcome_count: u16, units_to_payout: u32, info: Information) -> bool {
    outcome_count >= 2 && units_to_payout >= 1 && information_valid(info, outcome_count)
}

/// Which information variant a type string denotes.
#[derive(Debug)]
pub enum InformationKind {
    /// The variant carrying nothing.
    Empty,
    /// The first versioned form.
    V1,
}

/// An ASCII upper-case letter mapped to lower case; any other byte kept.
pub open spec fn lower_byte(b: u8) -> u8 {
    if 65 <= b && b <= 90 {
        (b + 32) as u8
    } else {
        b
    }
}

/// A byte string with its ASCII letters lowered.
pub open spec fn lowered(s: Seq<u8>) -> Seq<u8> {
    s.map_values(|b: u8| lower_byte(b))
}

/// The type string of the variant that carries nothing.
pub open spec fn empty_variant_id() -> Seq<u8> {
    seq![110u8, 111u8, 110u8, 101u8]
}

/// The type string of the first versioned form.
pub open spec fn v1_variant_id() -> Seq<u8> {
    seq![118u8, 49u8]
}

/// Lowers the ASCII letters of a byte string.
pub fn ascii_lowercase(v: &Vec<u8>) -> (r: Vec<u8>)
    ensures
        r@ == lowered(v@),
{
    let mut r: Vec<u8> = Vec::new();
    let mut i: usize = 0;
    while i < v.len()
        invariant
            0 <= i <= v@.len(),
            r@.len() == i,
            forall|j: int| 0 <= j < i ==> r@[j] == lower_byte(v@[j]),
        decreases v@.len() - i,
    {
        let b = v[i];
        if 65 <= b && b <= 90 {
            r.push(b + 32);
        } else {
            r.push(b);
        }
        i = i + 1;
    }
    proof {
        assert(r@ =~= lowered(v@));
    }
    r
}

/// Decides which information variant a type string denotes, matching the
/// type case-insensitively; an unknown type is rejected.
pub fn parse_information_kind(information_type: &Vec<u8>) -> (r: Option<InformationKind>)
    ensures
        match r {
            Option::Some(InformationKind::Empty) => lowered(information_type@)
                == empty_variant_id(),
            Option::Some(InformationKind::V1) => lowered(information_type@) == v1_variant_id(),
            Option::None => lowered(information_type@) != empty_variant_id() && lowered(
                information_type@,
            ) != v1_variant_id(),
        },
{
    let low = ascii_lowercase(information_type);
    let none_id: Vec<u8> = vec![110u8, 111u8, 110u8, 101u8];
    let v1_id: Vec<u8> = vec![118u8, 49u8];
    proof {
        assert(none_id@ =~= empty_variant_id());
        assert(v1_id@ =~= v1_variant_id());
    }
    if crate::hex::bytes_eq(&low, &none_id) {
        Option::Some(InformationKind::Empty)
    } else if crate::hex::bytes_eq(&low, &v1_id) {
        Option::Some(InformationKind::V1)
    } else {
        Option::None
    }
}

/// The decimal digits of a non-negative number, most significant first.
pub open spec fn dec_digits(n: int) -> Seq<u8>
    decreases n,
{
    if n < 10 {
        seq![(48 + n) as u8]
    } else {
        dec_digits(n / 10).push((48 + n % 10) as u8)
    }
}

/// Renders a number in decimal, most significant digit first.
pub fn decimal_bytes(n: u16) -> (r: Vec<u8>)
    ensures
        r@ == dec_digits(n as int),
    decreases n,
{
    if n < 10 {
        let r: Vec<u8> = vec![48 + (n as u8)];
        proof {
            assert(r@ =~= dec_digits(n as int));
        }
        r
    } else {
        let mut r = decimal_bytes(n / 10);
        r.push(48 + ((n % 10) as u8));
        proof {
            assert(r@ =~= dec_digits(n as int));
        }
        r
    }
}

/// The placeholder title of one outcome of an event without information.
pub open spec fn default_outcome_title(i: int) -> Seq<u8> {
    seq![79u8, 117u8, 116u8, 99u8, 111u8, 109u8, 101u8, 32u8] + dec_digits(i)
}

/// The placeholder title of one outcome.
fn make_default_outcome_title(i: u16) -> (r: Vec<u8>)
    ensures
        r@ == default_outcome_title(i as int),
{
    let mut r: Vec<u8> = vec![79u8, 117u8, 116u8, 99u8, 111u8, 109u8, 101u8, 32u8];
    let digits = decimal_bytes(i);
    let mut j: usize = 0;
    while j < digits.len()
        invariant
            0 <= j <= digits@.len(),
            digits@ == dec_digits(i as int),
            r@ == seq![79u8, 117u8, 116u8, 99u8, 111u8, 109u8, 101u8, 32u8] + digits@.subrange(
                0,
                j as int,
            ),
        decreases digits@.len() - j,
    {
        r.push(digits[j]);
        proof {
            assert(r@ =~= seq![79u8, 117u8, 116u8, 99u8, 111u8, 109u8, 101u8, 32u8]
                + digits@.subrange(0, j + 1 as int));
        }
        j = j + 1;
    }
    proof {
        assert(digits@.subrange(0, digits@.len() as int) =~= digits@);
        assert(r@ =~= default_outcome_title(i as int));
    }
    r
}

/// The outcome titles offered when distributing a payout: the event's own
/// titles where it carries them, and a placeholder title per outcome
/// where it carries no information.
pub fn outcome_titles(info: &Information, outcome_count: u16) -> (r: Vec<Vec<u8>>)
    ensures
        match *info {
            Information::Empty => r@.len() == outcome_count && (forall|i: int|
                0 <= i < r@.len() ==> (#[trigger] r@[i])@ == default_outcome_title(i)),
            Information::V1(v) => r@.len() == v.outcome_titles@.len() && (forall|i: int|
                0 <= i < r@.len() ==> (#[trigger] r@[i])@ == v.outcome_titles@[i]@),
        },
{
    match info {
        Information::Empty => {
            let mut r: Vec<Vec<u8>> = Vec::new();
            let mut i: u16 = 0;
            while i < outcome_count
                invariant
                    0 <= i <= outcome_count,
                    r@.len() == i,
                    forall|j: int| 0 <= j < i ==> (#[trigger] r@[j])@ == default_outcome_title(j),
                decreases outcome_count - i,
            {
                r.push(make_default_outcome_title(i));
                i = i + 1;
            }
            r
        },
        Information::V1(v) => {
            let mut r: Vec<Vec<u8>> = Vec::new();
            let mut i: usize = 0;
            while i < v.outcome_titles.len()
                invariant
                    0 <= i <= v.outcome_titles@.len(),
                    r@.len() == i,
                    forall|j: int| 0 <= j < i ==> (#[trigger] r@[j])@ == v.outcome_titles@[j]@,
                decreases v.outcome_titles@.len() - i,
            {
                r.push(crate::hex::copy_bytes(&v.outcome_titles[i]));
                i = i + 1;
            }
            r
        },
    }
}

/// What parsing an entered payout date-time string in the UTC form
/// `2023-10-01T12:00:00Z` yields: the UNIX seconds it denotes, or nothing
/// when the string does not have that form. A function of the string
/// alone.
pub uninterp spec fn parsed_utc_seconds(s: Seq<u8>) -> Option<int>;

/// Relies on `chrono::NaiveDateTime::parse_from_str` with the
/// `%Y-%m-%dT%H:%M:%SZ` format and `chrono::DateTime::timestamp`: the UNIX
/// seconds an entered UTC date-time string denotes.
#[verifier::external_body]
fn parse_utc_datetime(s: &Vec<u8>) -> (r: Option<i64>)
    ensures
        match r {
            Option::None => parsed_utc_seconds(s@) is None,
            Option::Some(t) => parsed_utc_seconds(s@) == Option::Some(t as int),
        },
{
    let text = core::str::from_utf8(s).ok()?;
    let naive = chrono::NaiveDateTime::parse_from_str(text, "%Y-%m-%dT%H:%M:%SZ").ok()?;
    let datetime: chrono::DateTime<chrono::Utc> = chrono::DateTime::from_naive_utc_and_offset(
        naive,
        chrono::Utc,
    );
    Some(datetime.timestamp())
}

/// The expected payout time an entered date-time string denotes, as
/// unsigned UNIX seconds. Rejected when the string does not have the UTC
/// form or denotes a time before the epoch.
pub fn expected_payout_seconds(s: &Vec<u8>) -> (r: Option<u64>)
    ensures
        match r {
            Option::Some(u) => parsed_utc_seconds(s@) == Option::Some(u as int),
            Option::None => (parsed_utc_seconds(s@) is None || (parsed_utc_seconds(s@) matches
                Option::Some(t) && t < 0)),
        },
{
    match parse_utc_datetime(s) {
        Option::Some(t) => {
            if t >= 0 {
                Option::Some(t as u64)
            } else {
                Option::None
            }
        },
        Option::None => Option::None,
    }
}

} // verus!
