use prediction_market_event_nostr_client::client::publish_success_set;
use prediction_market_event_nostr_client::client::Client;
use prediction_market_event_nostr_client::client::QueryOnly;
use prediction_market_event_nostr_client::client::Signer;
use prediction_market_event_nostr_client::commands::apply_relay_command;
use prediction_market_event_nostr_client::commands::key_command_action;
use prediction_market_event_nostr_client::commands::KeyAction;
use prediction_market_event_nostr_client::commands::KeyCommand;
use prediction_market_event_nostr_client::commands::RelayCommands;
use prediction_market_event_nostr_client::filter::author_limit_filter;
use prediction_market_event_nostr_client::filter::base_filter;
use prediction_market_event_nostr_client::filter::custom_filter;
use prediction_market_event_nostr_client::filter::obligation_query_filters;
use prediction_market_event_nostr_client::filter::QueryCustomCommands;
use prediction_market_event_nostr_client::hex::bytes_eq;
use prediction_market_event_nostr_client::hex::is_valid_hex_id;
use prediction_market_event_nostr_client::information::ascii_lowercase;
use prediction_market_event_nostr_client::information::expected_payout_seconds;
use prediction_market_event_nostr_client::information::outcome_titles;
use prediction_market_event_nostr_client::information::parse_information_kind;
use prediction_market_event_nostr_client::information::Information;
use prediction_market_event_nostr_client::information::InformationKind;
use prediction_market_event_nostr_client::information::InformationV1;
use prediction_market_event_nostr_client::obligations::obligation_on_attestations;
use prediction_market_event_nostr_client::obligations::obligation_on_pledges;
use prediction_market_event_nostr_client::obligations::obligation_start;
use prediction_market_event_nostr_client::obligations::AuthoredHash;
use prediction_market_event_nostr_client::obligations::ObligationStep;

fn hex_id(c: char) -> Vec<u8> {
    c.to_string().repeat(64).into_bytes()
}

#[test]
fn hex_id_format() {
    assert!(is_valid_hex_id(&hex_id('a')));
    assert!(is_valid_hex_id(&hex_id('0')));
    assert!(is_valid_hex_id(&hex_id('F')));
    assert!(!is_valid_hex_id(&"a".repeat(63).into_bytes()));
    assert!(!is_valid_hex_id(&"a".repeat(65).into_bytes()));
    assert!(!is_valid_hex_id(&hex_id('g')));
    assert!(!is_valid_hex_id(&Vec::new()));
}

#[test]
fn byte_equality() {
    assert!(bytes_eq(&hex_id('a'), &hex_id('a')));
    assert!(!bytes_eq(&hex_id('a'), &hex_id('b')));
    assert!(!bytes_eq(&hex_id('a'), &"a".repeat(63).into_bytes()));
}

fn authored(author: &Vec<u8>, hash: &Vec<u8>) -> AuthoredHash {
    AuthoredHash { author: author.clone(), event_hash: hash.clone() }
}

#[test]
fn obligation_session_starts_with_pledge_query() {
    let author = hex_id('a');
    let step = obligation_start(author.clone());
    match &step {
        ObligationStep::QueryPledges { author: a } => assert_eq!(a, &author),
        _ => panic!("expected a pledge query"),
    }
    let filters = obligation_query_filters(&step).expect("a pledge query has filters");
    assert_eq!(filters.len(), 1);
    assert_eq!(filters[0].kind, 6276);
    assert_eq!(filters[0].author.as_ref().unwrap(), &author);
    assert!(filters[0].hashtag.is_none());
}

#[test]
fn three_pledges_one_attested_leaves_two_pending() {
    let author = hex_id('a');
    let (h1, h2, h3) = (hex_id('1'), hex_id('2'), hex_id('3'));
    let pledges = vec![authored(&author, &h1), authored(&author, &h2), authored(&author, &h3)];
    let step = obligation_on_pledges(&author, &pledges).expect("authors match");
    let pledged = match step {
        ObligationStep::QueryAttestations { author: a, pledged } => {
            assert_eq!(a, author);
            assert_eq!(pledged, vec![h1.clone(), h2.clone(), h3.clone()]);
            pledged
        }
        _ => panic!("expected an attestation query"),
    };
    let attestations = vec![authored(&author, &h2)];
    let step = obligation_on_attestations(&author, &pledged, &attestations).expect("authors match");
    match &step {
        ObligationStep::QueryNewEntities { pending } => {
            assert_eq!(pending, &vec![h1.clone(), h3.clone()]);
        }
        _ => panic!("expected a new-entity query"),
    }
    let filters = obligation_query_filters(&step).expect("a new-entity query has filters");
    assert_eq!(filters.len(), 2);
    assert_eq!(filters[0].kind, 6275);
    assert_eq!(filters[0].hashtag.as_ref().unwrap(), &h1);
    assert!(filters[0].author.is_none());
    assert_eq!(filters[1].hashtag.as_ref().unwrap(), &h3);
}

#[test]
fn attestation_round_filters_are_author_and_hash_scoped() {
    let author = hex_id('a');
    let (h1, h2) = (hex_id('1'), hex_id('2'));
    let step = ObligationStep::QueryAttestations {
        author: author.clone(),
        pledged: vec![h1.clone(), h2.clone()],
    };
    let fs = obligation_query_filters(&step).expect("an attestation query has filters");
    assert_eq!(fs.len(), 2);
    for f in &fs {
        assert_eq!(f.kind, 6277);
        assert_eq!(f.author.as_ref().unwrap(), &author);
        assert!(f.since.is_none() && f.until.is_none() && f.limit.is_none());
    }
    assert_eq!(fs[0].hashtag.as_ref().unwrap(), &h1);
    assert_eq!(fs[1].hashtag.as_ref().unwrap(), &h2);
}

#[test]
fn no_pledges_ends_without_further_queries() {
    let author = hex_id('a');
    let step = obligation_on_pledges(&author, &Vec::new()).expect("no records, no mismatch");
    match &step {
        ObligationStep::Done { pending } => assert!(pending.is_empty()),
        _ => panic!("an empty pledge set must finish the session"),
    }
    assert!(obligation_query_filters(&step).is_none());
}

#[test]
fn all_pledges_attested_ends_without_new_entity_query() {
    let author = hex_id('a');
    let (h1, h2) = (hex_id('1'), hex_id('2'));
    let pledged = vec![h1.clone(), h2.clone()];
    let attestations = vec![authored(&author, &h2), authored(&author, &h1)];
    let step = obligation_on_attestations(&author, &pledged, &attestations).expect("authors match");
    match &step {
        ObligationStep::Done { pending } => assert!(pending.is_empty()),
        _ => panic!("a fully attested pledge set must finish the session"),
    }
    assert!(obligation_query_filters(&step).is_none());
}

#[test]
fn duplicate_pledges_collapse() {
    let author = hex_id('a');
    let (h1, h2) = (hex_id('1'), hex_id('2'));
    let pledges = vec![authored(&author, &h1), authored(&author, &h1), authored(&author, &h2)];
    match obligation_on_pledges(&author, &pledges).expect("authors match") {
        ObligationStep::QueryAttestations { pledged, .. } => {
            assert_eq!(pledged, vec![h1, h2]);
        }
        _ => panic!("expected an attestation query"),
    }
}

#[test]
fn author_mismatch_is_fatal() {
    let author = hex_id('a');
    let other = hex_id('b');
    let h1 = hex_id('1');
    let pledges = vec![authored(&author, &h1), authored(&other, &h1)];
    let err = obligation_on_pledges(&author, &pledges).expect_err("the cross-check must fail");
    assert_eq!(err.index, 1);
    let attestations = vec![authored(&other, &h1)];
    let err = obligation_on_attestations(&author, &vec![h1], &attestations)
        .expect_err("the cross-check must fail");
    assert_eq!(err.index, 0);
}

#[test]
fn publish_reports_exactly_the_acknowledging_relays() {
    let (r1, r2, r3) = (
        b"wss://one.example".to_vec(),
        b"wss://two.example".to_vec(),
        b"wss://three.example".to_vec(),
    );
    let all = vec![(r1.clone(), true), (r2.clone(), true), (r3.clone(), true)];
    assert_eq!(publish_success_set(&all), vec![r1.clone(), r2.clone(), r3.clone()]);
    let none = vec![(r1.clone(), false), (r2.clone(), false)];
    assert!(publish_success_set(&none).is_empty());
    let mixed = vec![(r1.clone(), false), (r2.clone(), true), (r3.clone(), false)];
    assert_eq!(publish_success_set(&mixed), vec![r2.clone()]);
}

#[test]
fn construction_fails_on_one_unreachable_relay() {
    let relays = vec![b"wss://one.example".to_vec(), b"wss://two.example".to_vec()];
    let err = Client::<QueryOnly>::new_initialized_client_query_only(
        relays.clone(),
        &vec![true, false],
    )
    .expect_err("an unreachable relay is fatal");
    assert_eq!(err.index, 1);
    assert_eq!(err.relay, relays[1]);
}

#[test]
fn construction_succeeds_when_every_relay_is_reachable() {
    let relays = vec![b"wss://one.example".to_vec(), b"wss://two.example".to_vec()];
    let client =
        Client::<QueryOnly>::new_initialized_client_query_only(relays.clone(), &vec![true, true])
            .expect("all relays reachable");
    assert_eq!(client.relays(), &relays);
}

#[test]
fn signer_construction_mirrors_query_only_construction() {
    let relays = vec![b"wss://one.example".to_vec()];
    let keys = nostr::Keys::generate();
    let client = Client::<Signer>::new_initialized_client_signer(
        relays.clone(),
        &vec![true],
        keys.clone(),
    )
    .expect("all relays reachable");
    assert_eq!(client.relays(), &relays);
    let err =
        Client::<Signer>::new_initialized_client_signer(relays.clone(), &vec![false], keys)
            .expect_err("an unreachable relay is fatal");
    assert_eq!(err.index, 0);
}

#[test]
fn key_commands_map_to_store_actions() {
    assert!(matches!(key_command_action(KeyCommand::Public), KeyAction::RevealPublicKey));
    assert!(matches!(key_command_action(KeyCommand::Secret), KeyAction::RevealSecretKey));
    match key_command_action(KeyCommand::Store { secret_key: b"s".to_vec() }) {
        KeyAction::StoreSecretKey { secret_key } => assert_eq!(secret_key, b"s".to_vec()),
        _ => panic!("expected a store action"),
    }
    assert!(matches!(key_command_action(KeyCommand::Delete), KeyAction::DeleteSecretKey));
}

#[test]
fn relay_commands_update_the_address_set() {
    let (u1, u2) = (b"wss://one.example".to_vec(), b"wss://two.example".to_vec());
    let empty: Vec<Vec<u8>> = Vec::new();
    let recommended = vec![u1.clone(), u2.clone()];

    let one = apply_relay_command(&empty, &RelayCommands::Add { url: u1.clone() }, &recommended);
    assert_eq!(one, vec![u1.clone()]);
    let still_one = apply_relay_command(&one, &RelayCommands::Add { url: u1.clone() }, &recommended);
    assert_eq!(still_one, vec![u1.clone()]);
    let two = apply_relay_command(&one, &RelayCommands::Add { url: u2.clone() }, &recommended);
    assert_eq!(two, vec![u1.clone(), u2.clone()]);
    let removed = apply_relay_command(&two, &RelayCommands::Remove { url: u1.clone() }, &recommended);
    assert_eq!(removed, vec![u2.clone()]);
    let listed = apply_relay_command(&two, &RelayCommands::ListAll, &recommended);
    assert_eq!(listed, two);
    let cleared = apply_relay_command(&two, &RelayCommands::RemoveAll, &recommended);
    assert!(cleared.is_empty());
    let filled = apply_relay_command(&one, &RelayCommands::AddRecommendedRelayList, &recommended);
    assert_eq!(filled, vec![u1.clone(), u2.clone()]);
}

#[test]
fn information_type_matching_is_case_insensitive() {
    assert!(matches!(
        parse_information_kind(&b"none".to_vec()),
        Some(InformationKind::Empty)
    ));
    assert!(matches!(
        parse_information_kind(&b"NONE".to_vec()),
        Some(InformationKind::Empty)
    ));
    assert!(matches!(parse_information_kind(&b"V1".to_vec()), Some(InformationKind::V1)));
    assert!(matches!(parse_information_kind(&b"v1".to_vec()), Some(InformationKind::V1)));
    assert!(parse_information_kind(&b"v2".to_vec()).is_none());
    assert!(parse_information_kind(&b"".to_vec()).is_none());
    assert_eq!(ascii_lowercase(&b"NoNe9-Z".to_vec()), b"none9-z".to_vec());
}

#[test]
fn default_outcome_titles_are_numbered() {
    let titles = outcome_titles(&Information::Empty, 3);
    assert_eq!(
        titles,
        vec![b"Outcome 0".to_vec(), b"Outcome 1".to_vec(), b"Outcome 2".to_vec()]
    );
    let titles = outcome_titles(&Information::Empty, 12);
    assert_eq!(titles[11], b"Outcome 11".to_vec());
}

#[test]
fn versioned_information_keeps_its_own_titles() {
    let v1 = InformationV1 {
        title: b"t".to_vec(),
        description: b"d".to_vec(),
        outcome_titles: vec![b"yes".to_vec(), b"no".to_vec()],
        expected_payout_unix_seconds: 100,
    };
    let titles = outcome_titles(&Information::V1(v1), 2);
    assert_eq!(titles, vec![b"yes".to_vec(), b"no".to_vec()]);
}

#[test]
fn payout_date_parsing() {
    assert_eq!(
        expected_payout_seconds(&b"2023-10-01T12:00:00Z".to_vec()),
        Some(1696161600)
    );
    assert_eq!(expected_payout_seconds(&b"1970-01-01T00:00:00Z".to_vec()), Some(0));
    assert!(expected_payout_seconds(&b"not a date".to_vec()).is_none());
    assert!(expected_payout_seconds(&b"2023-10-01 12:00:00".to_vec()).is_none());
    assert!(expected_payout_seconds(&b"1969-12-31T23:59:59Z".to_vec()).is_none());
}

#[test]
fn base_filters_carry_only_the_kind() {
    let f = base_filter(&QueryCustomCommands::NewEvent);
    assert_eq!(f.kind, 6275);
    assert!(f.author.is_none() && f.hashtag.is_none());
    assert!(f.since.is_none() && f.until.is_none() && f.limit.is_none());
    assert_eq!(base_filter(&QueryCustomCommands::FutureEventPayoutAttestationPledge).kind, 6276);
    assert_eq!(base_filter(&QueryCustomCommands::EventPayoutAttestation).kind, 6277);
}

#[test]
fn author_limit_filters_select_an_authors_newest_entries() {
    let author = hex_id('a');
    let fs = author_limit_filter(&QueryCustomCommands::NewEvent, &author, 100);
    assert_eq!(fs.len(), 1);
    assert_eq!(fs[0].kind, 6275);
    assert_eq!(fs[0].author.as_ref().unwrap(), &author);
    assert_eq!(fs[0].limit, Some(100));
    assert!(fs[0].hashtag.is_none());
}

#[test]
fn custom_filters_layer_the_supplied_predicates() {
    let author = hex_id('a');
    let hashtag = hex_id('1');
    let fs = custom_filter(
        &QueryCustomCommands::EventPayoutAttestation,
        Some(author.clone()),
        Some(10),
        Some(5),
        Some(99),
        Some(hashtag.clone()),
    );
    assert_eq!(fs.len(), 1);
    assert_eq!(fs[0].kind, 6277);
    assert_eq!(fs[0].author.as_ref().unwrap(), &author);
    assert_eq!(fs[0].hashtag.as_ref().unwrap(), &hashtag);
    assert_eq!(fs[0].since, Some(5));
    assert_eq!(fs[0].until, Some(99));
    assert_eq!(fs[0].limit, Some(10));
}
