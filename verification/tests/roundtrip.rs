use prediction_market_event_nostr_client::client::Client;
use prediction_market_event_nostr_client::client::Signer;
use prediction_market_event_nostr_client::information::Information;
use prediction_market_event_nostr_client::information::InformationV1;
use prediction_market_event_nostr_client::payout::attestation_parameters_valid;
use prediction_market_event_nostr_client::payout::create_new_entity_event;
use prediction_market_event_nostr_client::payout::event_hash_hex_bytes;
use prediction_market_event_nostr_client::query::attestation_records;
use prediction_market_event_nostr_client::query::interpret_attestation_entries;
use prediction_market_event_nostr_client::query::interpret_new_entity_entries;
use prediction_market_event_nostr_client::query::interpret_pledge_entries;
use prediction_market_event_nostr_client::query::pledge_records;

fn signer_client(keys: nostr::Keys) -> Client<Signer> {
    let relays = vec![b"wss://relay.example".to_vec()];
    Client::<Signer>::new_initialized_client_signer(relays, &vec![true], keys)
        .expect("all relays reachable")
}

fn pubkey_hex_bytes(keys: &nostr::Keys) -> Vec<u8> {
    keys.public_key().to_hex().into_bytes()
}

fn hex_id(c: char) -> Vec<u8> {
    c.to_string().repeat(64).into_bytes()
}

#[test]
fn pledge_round_trips_through_build_sign_interpret() {
    let keys = nostr::Keys::generate();
    let author = pubkey_hex_bytes(&keys);
    let client = signer_client(keys);
    let hash = hex_id('1');

    let entry = client.signed_pledge_entry(&hash).expect("local build and signing succeed");
    let kept = interpret_pledge_entries(&vec![entry]);
    assert_eq!(kept.len(), 1);
    assert_eq!(kept[0].1.author, author);
    assert_eq!(kept[0].1.event_hash, hash);
}

#[test]
fn attestation_round_trips_through_build_sign_interpret() {
    let keys = nostr::Keys::generate();
    let author = pubkey_hex_bytes(&keys);
    let client = signer_client(keys);
    let hash = hex_id('2');
    let units = vec![1u32, 2, 3];

    let entry = client
        .signed_attestation_entry(&hash, &units)
        .expect("local build and signing succeed");
    let kept = interpret_attestation_entries(&vec![entry]);
    assert_eq!(kept.len(), 1);
    assert_eq!(kept[0].1.author, author);
    assert_eq!(kept[0].1.event_hash, hash);
    assert_eq!(kept[0].2, units);

    let records = attestation_records(&kept);
    assert_eq!(records.len(), 1);
    assert_eq!(records[0].author, author);
    assert_eq!(records[0].event_hash, hash);
}

#[test]
fn new_entity_round_trips_through_build_sign_interpret() {
    let keys = nostr::Keys::generate();
    let client = signer_client(keys);
    let info = Information::V1(InformationV1 {
        title: b"will it rain tomorrow".to_vec(),
        description: b"resolved from the official station record".to_vec(),
        outcome_titles: vec![b"yes".to_vec(), b"no".to_vec()],
        expected_payout_unix_seconds: 1700000000,
    });
    let (event, valid) = create_new_entity_event(2, 10, &info);
    assert!(valid);
    let hash = event_hash_hex_bytes(&event).expect("the domain library hashes the event");

    let entry = client.signed_new_entity_entry(&event).expect("local build and signing succeed");
    let kept = interpret_new_entity_entries(&vec![entry]);
    assert_eq!(kept.len(), 1);
    assert_eq!(kept[0].1, event);
    assert_eq!(
        event_hash_hex_bytes(&kept[0].1).expect("the domain library hashes the event"),
        hash
    );
}

#[test]
fn event_creation_validity_follows_the_domain_rules() {
    let (_, valid) = create_new_entity_event(2, 10, &Information::Empty);
    assert!(valid);
    let (_, too_few_outcomes) = create_new_entity_event(1, 10, &Information::Empty);
    assert!(!too_few_outcomes);
    let (_, no_units) = create_new_entity_event(2, 0, &Information::Empty);
    assert!(!no_units);
    let mismatched_titles = Information::V1(InformationV1 {
        title: b"t".to_vec(),
        description: b"d".to_vec(),
        outcome_titles: vec![b"only one".to_vec()],
        expected_payout_unix_seconds: 0,
    });
    let (_, wrong_title_count) = create_new_entity_event(2, 10, &mismatched_titles);
    assert!(!wrong_title_count);
    let oversized_title = Information::V1(InformationV1 {
        title: b"t".repeat(257),
        description: b"d".to_vec(),
        outcome_titles: vec![b"yes".to_vec(), b"no".to_vec()],
        expected_payout_unix_seconds: 0,
    });
    let (_, too_long) = create_new_entity_event(2, 10, &oversized_title);
    assert!(!too_long);
}

#[test]
fn payout_distribution_validity_follows_the_domain_rules() {
    let (event, valid) = create_new_entity_event(3, 6, &Information::Empty);
    assert!(valid);
    let hash = event_hash_hex_bytes(&event).expect("the domain library hashes the event");

    assert!(attestation_parameters_valid(&event, &hash, &vec![1, 2, 3]));
    assert!(!attestation_parameters_valid(&event, &hash, &vec![1, 2, 4]));
    assert!(!attestation_parameters_valid(&event, &hash, &vec![3, 3]));
    assert!(!attestation_parameters_valid(&event, &hex_id('0'), &vec![1, 2, 3]));
}

#[test]
fn foreign_entries_are_dropped_not_surfaced() {
    let keys = nostr::Keys::generate();
    let note = nostr::EventBuilder::text_note("just a note", Vec::<nostr::Tag>::new())
        .to_event(&keys)
        .expect("signing a plain note succeeds");

    assert!(interpret_pledge_entries(&vec![note.clone()]).is_empty());
    assert!(interpret_attestation_entries(&vec![note.clone()]).is_empty());
    assert!(interpret_new_entity_entries(&vec![note.clone()]).is_empty());

    let author = pubkey_hex_bytes(&keys);
    let client = signer_client(keys);
    let hash = hex_id('3');
    let pledge = client.signed_pledge_entry(&hash).expect("local build and signing succeed");
    let kept = interpret_pledge_entries(&vec![note, pledge]);
    assert_eq!(kept.len(), 1);
    assert_eq!(kept[0].1.event_hash, hash);

    let records = pledge_records(&kept);
    assert_eq!(records.len(), 1);
    assert_eq!(records[0].author, author);
    assert_eq!(records[0].event_hash, hash);
}

#[test]
fn signer_exposes_its_public_key_hex() {
    let keys = nostr::Keys::generate();
    let expected = pubkey_hex_bytes(&keys);
    let client = signer_client(keys);
    let got = client.author_public_hex();
    assert_eq!(got, expected);
    assert_eq!(got.len(), 64);
}
