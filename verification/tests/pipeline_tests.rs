use bitcoin_metaprotocols::CredentialStore;
use bitcoin_metaprotocols::address_inscriptions::Action;
use bitcoin_metaprotocols::get_address_inscriptions;
use bitcoin_metaprotocols::get_utxo_inscriptions;
use bitcoin_metaprotocols::utxo_inscriptions::UtxoAction;

const AUTH1: &str = "roqha-4aaaa-aaaap-qplnq-cai";
const STRANGER: &str = "aaaaa-aa";

fn store_with_key() -> CredentialStore {
    let mut store = CredentialStore::new();
    store.set_api_key(AUTH1, "k".to_string()).unwrap();
    store
}

fn ok(body: &str) -> Result<Vec<u8>, String> {
    Ok(body.as_bytes().to_vec())
}

fn fail(msg: &str) -> Result<Vec<u8>, String> {
    Err(msg.to_string())
}

const PRIMARY_ONE: &str = r#"{"data":[{"inscription_id":"insc1","satoshis":"1000","utxo_sat_offset":0,"utxo_txid":"tx1","utxo_vout":0,"utxo_block_height":100,"utxo_confirmations":6}],"last_updated":{"block_hash":"abc","block_height":100},"next_cursor":null}"#;

const DETAIL_PUNKS: &str = r#"{"data":{"collection_symbol":"punks"},"last_updated":{"block_hash":"abc","block_height":100},"next_cursor":null}"#;

const DETAIL_NO_SYMBOL: &str = r#"{"data":{"collection_symbol":null},"last_updated":{"block_hash":"abc","block_height":100},"next_cursor":null}"#;

const STATS_500: &str = r#"{"data":{"floor_price":"500"},"last_updated":{"block_hash":"abc","block_height":100},"next_cursor":null}"#;

const OMB_RED_600: &str = r#"{"data":{"color":"red","floor_price":600}}"#;

fn expect_fetch_url(act: &Action, url: &str) {
    match act {
        Action::Fetch(req) => {
            assert_eq!(req.url, url.to_string());
            assert_eq!(req.header_name, "api-key".to_string());
            assert_eq!(req.header_value, "k".to_string());
            assert_eq!(req.max_response_bytes, 5000);
            assert!(req.requires_transform);
        },
        Action::Finished(_) => panic!("expected a fetch"),
    }
}

#[test]
fn unauthorized_address_call_is_rejected() {
    let store = store_with_key();
    let r = get_address_inscriptions(&store, STRANGER, "addr1", "10");
    assert_eq!(r.err(), Some("Unauthorized".to_string()));
}

#[test]
fn unauthorized_utxo_call_is_rejected() {
    let store = store_with_key();
    let r = get_utxo_inscriptions(&store, STRANGER, "tx1", "0");
    assert_eq!(r.err(), Some("Unauthorized".to_string()));
}

#[test]
fn unset_credential_stops_address_call_before_any_fetch() {
    let store = CredentialStore::new();
    let r = get_address_inscriptions(&store, AUTH1, "addr1", "10");
    assert_eq!(r.err(), Some("API key not set".to_string()));
}

#[test]
fn address_end_to_end_fully_enriched() {
    let store = store_with_key();
    let (mut job, req) = get_address_inscriptions(&store, AUTH1, "addr1", "10").unwrap();
    assert_eq!(
        req.url,
        "https://xbt-mainnet.gomaestro-api.org/v0/addresses/addr1/inscriptions?count=10"
            .to_string()
    );
    assert_eq!(req.header_name, "api-key".to_string());
    assert_eq!(req.header_value, "k".to_string());
    assert_eq!(req.max_response_bytes, 5000);
    assert!(req.requires_transform);

    let act = job.on_response(ok(PRIMARY_ONE));
    expect_fetch_url(&act, "https://xbt-mainnet.gomaestro-api.org/v0/assets/inscriptions/insc1");
    let act = job.on_response(ok(DETAIL_PUNKS));
    expect_fetch_url(
        &act,
        "https://xbt-mainnet.gomaestro-api.org/v0/assets/collections/punks/stats",
    );
    let act = job.on_response(ok(STATS_500));
    expect_fetch_url(
        &act,
        "https://xbt-mainnet.gomaestro-api.org/v0/assets/inscriptions/insc1/omb_color_group",
    );
    let act = job.on_response(ok(OMB_RED_600));
    match act {
        Action::Finished(Ok(res)) => {
            assert_eq!(res.data.len(), 1);
            let rec = &res.data[0];
            assert_eq!(rec.inscription_id, "insc1".to_string());
            assert_eq!(rec.satoshis, "1000".to_string());
            assert_eq!(rec.utxo_sat_offset, 0);
            assert_eq!(rec.utxo_txid, "tx1".to_string());
            assert_eq!(rec.utxo_vout, 0);
            assert_eq!(rec.utxo_block_height, 100);
            assert_eq!(rec.utxo_confirmations, 6);
            assert_eq!(rec.collection_symbol, Some("punks".to_string()));
            assert_eq!(rec.floor_price, 500);
            assert_eq!(rec.omb_color, Some("red".to_string()));
            assert_eq!(rec.omb_floor_price, Some(600));
            assert_eq!(res.last_updated.block_hash, "abc".to_string());
            assert_eq!(res.last_updated.block_height, 100);
            assert_eq!(res.next_cursor, None);
        },
        _ => panic!("expected a finished result"),
    }
}

#[test]
fn address_stats_transport_failure_defaults_floor_to_zero() {
    let store = store_with_key();
    let (mut job, _req) = get_address_inscriptions(&store, AUTH1, "addr1", "10").unwrap();
    job.on_response(ok(PRIMARY_ONE));
    job.on_response(ok(DETAIL_PUNKS));
    job.on_response(fail("transport down"));
    let act = job.on_response(ok(OMB_RED_600));
    match act {
        Action::Finished(Ok(res)) => {
            let rec = &res.data[0];
            assert_eq!(rec.collection_symbol, Some("punks".to_string()));
            assert_eq!(rec.floor_price, 0);
            assert_eq!(rec.omb_color, Some("red".to_string()));
            assert_eq!(rec.omb_floor_price, Some(600));
        },
        _ => panic!("expected a finished result"),
    }
}

#[test]
fn no_collection_symbol_skips_the_stats_fetch() {
    let store = store_with_key();
    let (mut job, _req) = get_address_inscriptions(&store, AUTH1, "addr1", "10").unwrap();
    job.on_response(ok(PRIMARY_ONE));
    let act = job.on_response(ok(DETAIL_NO_SYMBOL));
    // The next fetch is the classification lookup, not the stats endpoint.
    expect_fetch_url(
        &act,
        "https://xbt-mainnet.gomaestro-api.org/v0/assets/inscriptions/insc1/omb_color_group",
    );
    let act = job.on_response(ok(OMB_RED_600));
    match act {
        Action::Finished(Ok(res)) => {
            let rec = &res.data[0];
            assert_eq!(rec.collection_symbol, None);
            assert_eq!(rec.floor_price, 0);
        },
        _ => panic!("expected a finished result"),
    }
}

#[test]
fn failing_item_keeps_list_length_and_order() {
    let primary = r#"{"data":[
        {"inscription_id":"a","satoshis":"1","utxo_sat_offset":0,"utxo_txid":"t","utxo_vout":0,"utxo_block_height":1,"utxo_confirmations":1},
        {"inscription_id":"b","satoshis":"2","utxo_sat_offset":0,"utxo_txid":"t","utxo_vout":0,"utxo_block_height":1,"utxo_confirmations":1},
        {"inscription_id":"c","satoshis":"3","utxo_sat_offset":0,"utxo_txid":"t","utxo_vout":0,"utxo_block_height":1,"utxo_confirmations":1}
    ],"last_updated":{"block_hash":"h","block_height":9},"next_cursor":"cur"}"#;
    let store = store_with_key();
    let (mut job, _req) = get_address_inscriptions(&store, AUTH1, "addr1", "10").unwrap();
    job.on_response(ok(primary));
    // item a: enriched
    job.on_response(ok(DETAIL_PUNKS));
    job.on_response(ok(STATS_500));
    job.on_response(ok(OMB_RED_600));
    // item b: every dependent call fails
    job.on_response(fail("down"));
    let act = job.on_response(fail("down"));
    expect_fetch_url(&act, "https://xbt-mainnet.gomaestro-api.org/v0/assets/inscriptions/c");
    // item c: enriched
    job.on_response(ok(DETAIL_PUNKS));
    job.on_response(ok(STATS_500));
    let act = job.on_response(ok(OMB_RED_600));
    match act {
        Action::Finished(Ok(res)) => {
            assert_eq!(res.data.len(), 3);
            assert_eq!(res.data[0].inscription_id, "a".to_string());
            assert_eq!(res.data[1].inscription_id, "b".to_string());
            assert_eq!(res.data[2].inscription_id, "c".to_string());
            assert_eq!(res.data[0].floor_price, 500);
            assert_eq!(res.data[0].omb_color, Some("red".to_string()));
            // the failing item degrades to defaults only
            assert_eq!(res.data[1].collection_symbol, None);
            assert_eq!(res.data[1].floor_price, 0);
            assert_eq!(res.data[1].omb_color, None);
            assert_eq!(res.data[1].omb_floor_price, None);
            assert_eq!(res.data[2].floor_price, 500);
            // pagination metadata is byte-identical to the primary fetch's
            assert_eq!(res.last_updated.block_hash, "h".to_string());
            assert_eq!(res.last_updated.block_height, 9);
            assert_eq!(res.next_cursor, Some("cur".to_string()));
        },
        _ => panic!("expected a finished result"),
    }
}

#[test]
fn primary_transport_failure_is_fatal() {
    let store = store_with_key();
    let (mut job, _req) = get_address_inscriptions(&store, AUTH1, "addr1", "10").unwrap();
    let act = job.on_response(fail("boom"));
    match act {
        Action::Finished(Err(m)) => assert_eq!(m, "HTTP error: boom".to_string()),
        _ => panic!("expected a fatal error"),
    }
}

#[test]
fn primary_parse_failure_is_fatal() {
    let store = store_with_key();
    let (mut job, _req) = get_address_inscriptions(&store, AUTH1, "addr1", "10").unwrap();
    let act = job.on_response(ok("not json at all"));
    match act {
        Action::Finished(Err(m)) => {
            assert_eq!(m, "Failed to parse: invalid response body".to_string())
        },
        _ => panic!("expected a fatal error"),
    }
}

#[test]
fn empty_primary_page_finishes_with_no_records() {
    let store = store_with_key();
    let (mut job, _req) = get_address_inscriptions(&store, AUTH1, "addr1", "10").unwrap();
    let body = r#"{"data":[],"last_updated":{"block_hash":"h","block_height":1},"next_cursor":"n"}"#;
    let act = job.on_response(ok(body));
    match act {
        Action::Finished(Ok(res)) => {
            assert!(res.data.is_empty());
            assert_eq!(res.last_updated.block_hash, "h".to_string());
            assert_eq!(res.next_cursor, Some("n".to_string()));
        },
        _ => panic!("expected a finished result"),
    }
}

#[test]
fn utxo_end_to_end_has_no_stats_fetch() {
    let primary = r#"{"data":{"address":null,"script_pubkey":"51","satoshis":"546","spending_tx":null,"inscriptions":[{"inscription_id":"insc1","offset":0}],"runes":[]},"last_updated":{"block_hash":"uh","block_height":7},"next_cursor":"c2"}"#;
    let store = store_with_key();
    let (mut job, req) = get_utxo_inscriptions(&store, AUTH1, "tx1", "0").unwrap();
    assert_eq!(
        req.url,
        "https://xbt-mainnet.gomaestro-api.org/v0/transactions/tx1/outputs/0".to_string()
    );
    let act = job.on_response(ok(primary));
    match &act {
        UtxoAction::Fetch(r) => assert_eq!(
            r.url,
            "https://xbt-mainnet.gomaestro-api.org/v0/assets/inscriptions/insc1".to_string()
        ),
        UtxoAction::Finished(_) => panic!("expected a fetch"),
    }
    // even with a collection symbol, the next fetch is the classification
    // lookup: this pipeline never fetches stats
    let detail = r#"{"data":{"collection_symbol":"punks"},"last_updated":{"block_hash":"uh","block_height":7},"next_cursor":null}"#;
    let act = job.on_response(ok(detail));
    match &act {
        UtxoAction::Fetch(r) => assert_eq!(
            r.url,
            "https://xbt-mainnet.gomaestro-api.org/v0/assets/inscriptions/insc1/omb_color_group"
                .to_string()
        ),
        UtxoAction::Finished(_) => panic!("expected a fetch"),
    }
    let act = job.on_response(ok(OMB_RED_600));
    match act {
        UtxoAction::Finished(Ok(res)) => {
            assert_eq!(res.data.len(), 1);
            assert_eq!(res.data[0].inscription_id, "insc1".to_string());
            assert_eq!(res.data[0].collection_symbol, Some("punks".to_string()));
            assert_eq!(res.data[0].omb_color, Some("red".to_string()));
            assert_eq!(res.data[0].omb_floor_price, Some(600));
            assert_eq!(res.last_updated.block_hash, "uh".to_string());
            assert_eq!(res.last_updated.block_height, 7);
            assert_eq!(res.next_cursor, Some("c2".to_string()));
        },
        _ => panic!("expected a finished result"),
    }
}

#[test]
fn utxo_dependent_failures_degrade_to_absent_facets() {
    let primary = r#"{"data":{"address":"bc1q","script_pubkey":"51","satoshis":"546","spending_tx":null,"inscriptions":[{"inscription_id":"i9","offset":3}],"runes":[{"rune_id":"r1","amount":"5"}]},"last_updated":{"block_hash":"uh","block_height":7},"next_cursor":null}"#;
    let store = store_with_key();
    let (mut job, _req) = get_utxo_inscriptions(&store, AUTH1, "tx1", "0").unwrap();
    job.on_response(ok(primary));
    job.on_response(fail("down"));
    let act = job.on_response(fail("down"));
    match act {
        UtxoAction::Finished(Ok(res)) => {
            assert_eq!(res.data.len(), 1);
            assert_eq!(res.data[0].inscription_id, "i9".to_string());
            assert_eq!(res.data[0].collection_symbol, None);
            assert_eq!(res.data[0].omb_color, None);
            assert_eq!(res.data[0].omb_floor_price, None);
        },
        _ => panic!("expected a finished result"),
    }
}

#[test]
fn utxo_primary_transport_failure_is_fatal() {
    let store = store_with_key();
    let (mut job, _req) = get_utxo_inscriptions(&store, AUTH1, "tx1", "0").unwrap();
    let act = job.on_response(fail("gone"));
    match act {
        UtxoAction::Finished(Err(m)) => assert_eq!(m, "HTTP error: gone".to_string()),
        _ => panic!("expected a fatal error"),
    }
}
