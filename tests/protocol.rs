use gotham_server::ecdsa::{
    active_share_in_rows, has_active_share, start_session, ShareQuery,
    chain_code_compute_message, chain_code_first_message, chain_code_second_message,
    fail_keygen_if_active, first_message, fourth_message, get_mk, master_key, ready, recover,
    rotate_first, rotate_fourth, rotate_second, rotate_third, round_inputs, second_message,
    sign_first, sign_second, third_message,
};
use gotham_server::error::EcdsaError;
use gotham_server::kind::EcdsaStruct;
use gotham_server::round::{needs_of, Round};
use gotham_server::store::Store;

fn b(s: &str) -> Vec<u8> {
    s.as_bytes().to_vec()
}

fn alice() -> String {
    "alice".to_string()
}

/// Runs every key generation round for `customer`, with stand-in values
/// for what the cryptographic steps produce; returns the session id.
fn keygen(store: &mut Store, customer: &String) -> String {
    let id = first_message(store, customer, false, ShareQuery::Local, b("kg1"), b("cw"), b("kp")).unwrap();
    assert!(round_inputs(store, customer, &id, Round::KeyGenSecond).is_ok());
    second_message(store, customer, &id, b("p2pub"), b("paillier"), b("p1priv")).unwrap();
    third_message(store, customer, &id, b("decommit"), b("alpha"), b("p2pdl1")).unwrap();
    assert_eq!(fourth_message(store, customer, &id, Ok(b("kg4"))), Ok(b("kg4")));
    chain_code_first_message(store, customer, &id, b("cc1"), b("ccw"), b("cckp")).unwrap();
    chain_code_second_message(store, customer, &id, b("chaincode"), b("mk")).unwrap();
    id
}

#[test]
fn happy_path_keygen_and_sign() {
    let mut store = Store::new();
    let c = alice();
    let id = keygen(&mut store, &c);
    assert_eq!(get_mk(&store, &c, &id), Ok(b("mk")));
    assert_eq!(store.get(&c, &id, EcdsaStruct::CC), Some(b("chaincode")));
    sign_first(&mut store, &c, &id, b("p2eph"), b("ephkp")).unwrap();
    let inputs = round_inputs(&store, &c, &id, Round::SignSecond).unwrap();
    assert_eq!(inputs, vec![b("mk"), b("ephkp"), b("p2eph")]);
    assert_eq!(sign_second(&store, &c, &id, Ok(b("sig"))), Ok(b("sig")));
    assert_eq!(recover(&store, &c, &id), Ok(0));
}

#[test]
fn master_key_present_implies_its_parts() {
    let mut store = Store::new();
    let c = alice();
    let id = keygen(&mut store, &c);
    for k in [
        EcdsaStruct::Party1Private,
        EcdsaStruct::PaillierKeyPair,
        EcdsaStruct::CC,
        EcdsaStruct::Party2Public,
        EcdsaStruct::CommWitness,
        EcdsaStruct::POS,
    ] {
        assert!(store.contains(&c, &id, k));
    }
}

#[test]
fn third_before_second_is_not_found() {
    let mut store = Store::new();
    let c = alice();
    let id = first_message(&mut store, &c, false, ShareQuery::Local, b("kg1"), b("cw"), b("kp")).unwrap();
    assert_eq!(
        round_inputs(&store, &c, &id, Round::KeyGenThird),
        Err(EcdsaError::NotFound)
    );
    assert_eq!(
        third_message(&mut store, &c, &id, b("d"), b("a"), b("p")),
        Err(EcdsaError::NotFound)
    );
    assert!(!store.contains(&c, &id, EcdsaStruct::Party1Private));
    assert!(!store.contains(&c, &id, EcdsaStruct::PDLDecommit));
    assert_eq!(EcdsaError::NotFound.status_code(), 400);
}

#[test]
fn active_share_guard_refuses_second_keygen() {
    let mut store = Store::new();
    let c = alice();
    keygen(&mut store, &c);
    assert_eq!(
        first_message(&mut store, &c, true, ShareQuery::Remote(Ok(Some(1))), b("kg1"), b("cw"), b("kp")),
        Err(EcdsaError::AlreadyActive)
    );
    assert_eq!(EcdsaError::AlreadyActive.status_code(), 400);
    // with the guard off the customer may start another session
    let other = first_message(&mut store, &c, false, ShareQuery::Remote(Ok(Some(1))), b("kg1"), b("cw"), b("kp")).unwrap();
    assert!(store.contains(&c, &other, EcdsaStruct::POS));
}

#[test]
fn local_store_reports_no_active_share() {
    let mut store = Store::new();
    let c = alice();
    keygen(&mut store, &c);
    assert_eq!(has_active_share(&ShareQuery::Local), Ok(false));
    let id = first_message(&mut store, &c, true, ShareQuery::Local, b("kg1"), b("cw"), b("kp")).unwrap();
    assert!(store.contains(&c, &id, EcdsaStruct::KeyGenFirstMsg));
}

#[test]
fn remote_share_query_answers() {
    assert_eq!(has_active_share(&ShareQuery::Remote(Ok(Some(2)))), Ok(true));
    assert_eq!(has_active_share(&ShareQuery::Remote(Ok(Some(0)))), Ok(false));
    assert_eq!(has_active_share(&ShareQuery::Remote(Ok(None))), Ok(false));
    assert_eq!(has_active_share(&ShareQuery::Remote(Err(()))), Err(EcdsaError::StorageError));
    let mut store = Store::new();
    let c = alice();
    assert_eq!(
        first_message(&mut store, &c, false, ShareQuery::Remote(Err(())), b("kg1"), b("cw"), b("kp")),
        Err(EcdsaError::StorageError)
    );
    assert!(!store.session_in_use(&"x".to_string()));
    let id = first_message(&mut store, &c, true, ShareQuery::Remote(Ok(Some(0))), b("kg1"), b("cw"), b("kp")).unwrap();
    assert!(store.session_in_use(&id));
    assert_eq!(id.len(), 36);
}

#[test]
fn guard_lets_customer_without_share_through() {
    let mut store = Store::new();
    let c = alice();
    let id = first_message(&mut store, &c, true, ShareQuery::Local, b("kg1"), b("cw"), b("kp")).unwrap();
    assert_eq!(store.get(&c, &id, EcdsaStruct::KeyGenFirstMsg), Some(b("kg1")));
    assert_eq!(store.get(&c, &id, EcdsaStruct::POS), Some(vec![0, 0, 0, 0]));
}

#[test]
fn rotation_round_trip_replaces_master_key() {
    let mut store = Store::new();
    let c = alice();
    let id = keygen(&mut store, &c);
    rotate_first(&mut store, &c, &id, b("m1"), b("r1")).unwrap();
    rotate_second(&mut store, &c, &id, b("random1"), b("rot1"), b("p1new")).unwrap();
    rotate_third(&mut store, &c, &id, b("alpha2"), b("decom2"), b("p2first"), b("p1second")).unwrap();
    assert_eq!(store.get(&c, &id, EcdsaStruct::Alpha), Some(b("alpha2")));
    assert_eq!(
        store.get(&c, &id, EcdsaStruct::RotateParty1Second),
        Some(b("p1second"))
    );
    let inputs = round_inputs(&store, &c, &id, Round::RotateFourth).unwrap();
    assert_eq!(inputs.len(), 10);
    assert_eq!(
        rotate_fourth(&mut store, &c, &id, Ok((b("rot3"), b("mk2")))),
        Ok(b("rot3"))
    );
    assert_eq!(get_mk(&store, &c, &id), Ok(b("mk2")));
}

#[test]
fn rotation_failure_keeps_master_key() {
    let mut store = Store::new();
    let c = alice();
    let id = keygen(&mut store, &c);
    rotate_first(&mut store, &c, &id, b("m1"), b("r1")).unwrap();
    rotate_second(&mut store, &c, &id, b("random1"), b("rot1"), b("p1new")).unwrap();
    rotate_third(&mut store, &c, &id, b("alpha2"), b("decom2"), b("p2first"), b("p1second")).unwrap();
    assert_eq!(
        rotate_fourth(&mut store, &c, &id, Err(())),
        Err(EcdsaError::CryptoError)
    );
    assert_eq!(get_mk(&store, &c, &id), Ok(b("mk")));
    assert_eq!(EcdsaError::CryptoError.status_code(), 400);
}

#[test]
fn rotation_fourth_before_third_is_not_found() {
    let mut store = Store::new();
    let c = alice();
    let id = keygen(&mut store, &c);
    rotate_first(&mut store, &c, &id, b("m1"), b("r1")).unwrap();
    assert_eq!(
        rotate_fourth(&mut store, &c, &id, Ok((b("rot3"), b("mk2")))),
        Err(EcdsaError::NotFound)
    );
    assert_eq!(get_mk(&store, &c, &id), Ok(b("mk")));
}

#[test]
fn cross_customer_session_is_not_found() {
    let mut store = Store::new();
    let a = alice();
    let bob = "bob".to_string();
    let s = first_message(&mut store, &a, false, ShareQuery::Local, b("kg1"), b("cw"), b("kp")).unwrap();
    assert_eq!(
        second_message(&mut store, &bob, &s, b("x"), b("y"), b("z")),
        Err(EcdsaError::NotFound)
    );
    assert_eq!(recover(&store, &bob, &s), Err(EcdsaError::NotFound));
    assert_eq!(get_mk(&store, &bob, &s), Err(EcdsaError::NotFound));
    assert!(!store.contains(&bob, &s, EcdsaStruct::Party2Public));
    assert!(!store.contains(&a, &s, EcdsaStruct::Party2Public));
}

#[test]
fn invalid_sign_message_is_crypto_error() {
    let mut store = Store::new();
    let c = alice();
    let id = keygen(&mut store, &c);
    sign_first(&mut store, &c, &id, b("p2eph"), b("ephkp")).unwrap();
    assert_eq!(
        sign_second(&store, &c, &id, Err(())),
        Err(EcdsaError::CryptoError)
    );
    assert_eq!(store.get(&c, &id, EcdsaStruct::EphEcKeyPair), Some(b("ephkp")));
}

#[test]
fn sign_without_master_key_is_not_found() {
    let mut store = Store::new();
    let c = alice();
    let id = first_message(&mut store, &c, false, ShareQuery::Local, b("kg1"), b("cw"), b("kp")).unwrap();
    assert_eq!(
        sign_first(&mut store, &c, &id, b("p2eph"), b("ephkp")),
        Err(EcdsaError::NotFound)
    );
    assert_eq!(
        sign_second(&store, &c, &id, Ok(b("sig"))),
        Err(EcdsaError::NotFound)
    );
}

#[test]
fn keygen_fourth_failure_is_crypto_error() {
    let mut store = Store::new();
    let c = alice();
    let id = first_message(&mut store, &c, false, ShareQuery::Local, b("kg1"), b("cw"), b("kp")).unwrap();
    second_message(&mut store, &c, &id, b("p2pub"), b("paillier"), b("p1priv")).unwrap();
    third_message(&mut store, &c, &id, b("decommit"), b("alpha"), b("p2pdl1")).unwrap();
    assert_eq!(
        fourth_message(&store, &c, &id, Err(())),
        Err(EcdsaError::CryptoError)
    );
}

#[test]
fn replayed_second_round_gives_same_store() {
    let mut store = Store::new();
    let c = alice();
    let id = first_message(&mut store, &c, false, ShareQuery::Local, b("kg1"), b("cw"), b("kp")).unwrap();
    second_message(&mut store, &c, &id, b("p2pub"), b("paillier"), b("p1priv")).unwrap();
    let before = round_inputs(&store, &c, &id, Round::KeyGenThird).unwrap();
    assert_eq!(
        second_message(&mut store, &c, &id, b("p2pub"), b("paillier"), b("p1priv")),
        Ok(())
    );
    let after = round_inputs(&store, &c, &id, Round::KeyGenThird).unwrap();
    assert_eq!(before, after);
}

#[test]
fn chain_code_rounds_need_their_predecessors() {
    let mut store = Store::new();
    let c = alice();
    let id = first_message(&mut store, &c, false, ShareQuery::Local, b("kg1"), b("cw"), b("kp")).unwrap();
    assert_eq!(
        chain_code_first_message(&mut store, &c, &id, b("cc1"), b("ccw"), b("cckp")),
        Err(EcdsaError::NotFound)
    );
    assert_eq!(
        chain_code_second_message(&mut store, &c, &id, b("chaincode"), b("mk")),
        Err(EcdsaError::NotFound)
    );
    assert_eq!(
        chain_code_compute_message(&mut store, &c, &id, b("chaincode"), b("mk")),
        Err(EcdsaError::NotFound)
    );
    assert_eq!(master_key(&mut store, &c, &id, b("mk")), Err(EcdsaError::NotFound));
    assert!(!store.contains(&c, &id, EcdsaStruct::CC));
    assert!(!store.contains(&c, &id, EcdsaStruct::MasterKey));
}

#[test]
fn master_key_commit_after_chain_code() {
    let mut store = Store::new();
    let c = alice();
    let id = first_message(&mut store, &c, false, ShareQuery::Local, b("kg1"), b("cw"), b("kp")).unwrap();
    second_message(&mut store, &c, &id, b("p2pub"), b("paillier"), b("p1priv")).unwrap();
    assert_eq!(
        chain_code_compute_message(&mut store, &c, &id, b("chaincode"), b("mk")),
        Err(EcdsaError::NotFound)
    );
    store.insert(&c, &id, EcdsaStruct::CCEcKeyPair, b("cckp"));
    chain_code_compute_message(&mut store, &c, &id, b("chaincode"), b("mk")).unwrap();
    assert_eq!(get_mk(&store, &c, &id), Ok(b("mk")));
    assert_eq!(master_key(&mut store, &c, &id, b("mk9")), Ok(()));
    assert_eq!(get_mk(&store, &c, &id), Ok(b("mk9")));
}

#[test]
fn sessions_get_distinct_ids() {
    let mut store = Store::new();
    let c = alice();
    let one = first_message(&mut store, &c, false, ShareQuery::Local, b("a"), b("b"), b("c")).unwrap();
    let two = first_message(&mut store, &c, false, ShareQuery::Local, b("a"), b("b"), b("c")).unwrap();
    assert!(!one.is_empty());
    assert_ne!(one, two);
}

#[test]
fn recover_rejects_malformed_position() {
    let mut store = Store::new();
    let c = alice();
    let id = "s".to_string();
    assert_eq!(recover(&store, &c, &id), Err(EcdsaError::NotFound));
    store.insert(&c, &id, EcdsaStruct::POS, vec![1, 2, 3]);
    assert_eq!(recover(&store, &c, &id), Err(EcdsaError::StorageError));
    assert_eq!(EcdsaError::StorageError.status_code(), 500);
    store.insert(&c, &id, EcdsaStruct::POS, vec![1, 2, 0, 0]);
    assert_eq!(recover(&store, &c, &id), Ok(513));
    store.insert(&c, &id, EcdsaStruct::POS, vec![255, 255, 255, 255]);
    assert_eq!(recover(&store, &c, &id), Ok(u32::MAX));
}

#[test]
fn store_get_after_insert_and_overwrite() {
    let mut store = Store::new();
    let c = alice();
    let id = "s".to_string();
    assert_eq!(store.get(&c, &id, EcdsaStruct::Alpha), None);
    store.insert(&c, &id, EcdsaStruct::Alpha, b("one"));
    assert_eq!(store.get(&c, &id, EcdsaStruct::Alpha), Some(b("one")));
    store.insert(&c, &id, EcdsaStruct::Alpha, b("two"));
    assert_eq!(store.get(&c, &id, EcdsaStruct::Alpha), Some(b("two")));
    assert_eq!(store.get(&"bob".to_string(), &id, EcdsaStruct::Alpha), None);
    assert_eq!(store.get(&c, &id, EcdsaStruct::CC), None);
}

#[test]
fn keygen_toggle_parsing() {
    assert!(fail_keygen_if_active(Some("true".to_string())));
    assert!(!fail_keygen_if_active(Some("TRUE".to_string())));
    assert!(!fail_keygen_if_active(Some("false".to_string())));
    assert!(!fail_keygen_if_active(None));
}

#[test]
fn kind_names_and_tables() {
    assert_eq!(EcdsaStruct::Party2PDLFirstMsg.to_string(), "Party2PDLFirstMsg");
    assert_eq!(EcdsaStruct::MasterKey.to_table_name("prod"), "prod_MasterKey");
    assert_eq!(EcdsaStruct::POS.to_table_name("dev"), "dev-gotham-POS");
    assert_eq!(EcdsaStruct::CC.to_table_name(""), "-gotham-CC");
    assert!(EcdsaStruct::MasterKey.require_customer_id());
    assert!(!EcdsaStruct::Alpha.require_customer_id());
    assert_eq!(EcdsaError::AuthError.status_code(), 401);
}

#[test]
fn needs_lists_start_each_protocol() {
    assert_eq!(needs_of(Round::KeyGenSecond)[0], EcdsaStruct::POS);
    assert_eq!(needs_of(Round::SignFirst), vec![EcdsaStruct::MasterKey]);
    assert_eq!(needs_of(Round::RotateFourth).len(), 10);
    let store = Store::new();
    let c = alice();
    assert!(!ready(&store, &c, &"s".to_string(), Round::Recover));
}

#[test]
fn remote_query_rows_report_active_share() {
    assert!(active_share_in_rows(Some(1)));
    assert!(active_share_in_rows(Some(3)));
    assert!(!active_share_in_rows(Some(0)));
    assert!(!active_share_in_rows(None));
}

#[test]
fn start_session_refuses_an_id_in_use() {
    let mut store = Store::new();
    let a = alice();
    let bob = "bob".to_string();
    let s = "session-1".to_string();
    assert_eq!(start_session(&mut store, &a, &s, b("kg1"), b("cw"), b("kp")), Ok(()));
    assert_eq!(store.get(&a, &s, EcdsaStruct::POS), Some(vec![0, 0, 0, 0]));
    assert_eq!(store.get(&a, &s, EcdsaStruct::EcKeyPair), Some(b("kp")));
    assert_eq!(
        start_session(&mut store, &bob, &s, b("x"), b("y"), b("z")),
        Err(EcdsaError::StorageError)
    );
    assert!(!store.contains(&bob, &s, EcdsaStruct::POS));
    assert_eq!(store.get(&a, &s, EcdsaStruct::KeyGenFirstMsg), Some(b("kg1")));
}

#[test]
fn guard_off_lets_active_customer_through() {
    let mut store = Store::new();
    let c = alice();
    let id = first_message(&mut store, &c, false, ShareQuery::Remote(Ok(Some(1))), b("kg1"), b("cw"), b("kp")).unwrap();
    assert_eq!(id.len(), 36);
    assert_eq!(recover(&store, &c, &id), Ok(0));
}
